//! Tasks in the sled store: new tasks and outputs, the task listings of a
//! project or template with the names of their templates, the choice of the
//! tasks a template no longer keeps, and the stages of a run.
use vstd::prelude::*;
use crate::bolt::keys::{owned_bucket, owned_bucket_name, record_key};
use crate::bolt::sequence::{sequence_failed, took_sequence};
use crate::bolt::store::BoltStore;
use crate::error::{DbError, not_found};
use crate::model::{RetrieveQueryParams, Task, TaskOutput, TaskStage, TaskStageWithResult, TaskWithTpl, Template};
use crate::page::{AcceptAll, Selector, paged, take_page};
use crate::table::Duplicate;
use crate::time::{Timestamp, now};

verus! {

/// The bucket of the tasks.
pub open spec fn tasks_bucket() -> Seq<char> {
    "tasks"@
}

/// The message for a task that does not exist.
pub open spec fn task_missing() -> Seq<char> {
    "Задача не найдена"@
}

/// The message for a stage that does not exist.
pub open spec fn stage_missing() -> Seq<char> {
    "Стадия не найдена"@
}

/// The ids of the tasks of a listing that a template keeping `max` tasks
/// no longer keeps: those after the first `max`.
pub open spec fn cleared_ids(listing: Seq<TaskWithTpl>, max: int) -> Seq<i32> {
    if listing.len() <= max {
        Seq::empty()
    } else {
        Seq::new((listing.len() - max) as nat, |i: int| listing[max + i].task.id)
    }
}

/// The record keys of the given ids.
pub open spec fn record_keys(ids: Seq<i32>) -> Seq<Seq<u8>> {
    ids.map_values(|id: i32| record_key(id as int))
}

/// `m` without the given keys.
pub open spec fn without_keys(m: Map<Seq<u8>, Seq<u8>>, keys: Seq<Seq<u8>>) -> Map<Seq<u8>, Seq<u8>>
    decreases keys.len(),
{
    if keys.len() == 0 {
        m
    } else {
        without_keys(m, keys.drop_last()).remove(keys.last())
    }
}

/// Something that belongs to a project.
pub trait InProject {
    /// The project it belongs to.
    spec fn project(&self) -> i32;

    /// The project it belongs to.
    fn project_id(&self) -> (r: i32)
        ensures
            r == self.project(),
    ;
}

impl InProject for Task {
    open spec fn project(&self) -> i32 {
        self.project_id
    }

    fn project_id(&self) -> (r: i32) {
        self.project_id
    }
}

impl InProject for Template {
    open spec fn project(&self) -> i32 {
        self.project_id
    }

    fn project_id(&self) -> (r: i32) {
        self.project_id
    }
}

/// A record read by id is only given out within its own project; otherwise
/// the error `missing`, as if there were none.
pub fn of_project<T: InProject>(record: T, project_id: i32, missing: &str) -> (r: Result<T, DbError>)
    ensures
        record.project() == project_id ==> r == Ok::<T, DbError>(record),
        record.project() != project_id ==> (r matches Err(DbError::NotFound(m)) && m@ == missing@),
{
    if record.project_id() == project_id {
        Ok(record)
    } else {
        Err(not_found(missing))
    }
}

impl BoltStore {
    /// Removes a task together with its output and stages: the task's record
    /// goes, then the buckets `task_outputs_<id>` and `task_stages_<id>`. A
    /// task that is not stored gives `Задача не найдена` and changes nothing.
    pub fn delete_task_with_outputs(&mut self, task_id: i32) -> (r: Result<(), DbError>)
        requires
            task_id >= 0,
        ensures
            final(self).counters() == old(self).counters(),
            final(self).path() == old(self).path(),
            match r {
                Ok(_) => {
                    &&& final(self).buckets().contains_key(tasks_bucket())
                    &&& !final(self).buckets()[tasks_bucket()].contains_key(record_key(task_id as int))
                    &&& !final(self).buckets().contains_key(owned_bucket_name("task_outputs_"@, task_id as int))
                    &&& !final(self).buckets().contains_key(owned_bucket_name("task_stages_"@, task_id as int))
                    &&& old(self).buckets().contains_key(tasks_bucket()) ==> final(self).buckets()[tasks_bucket()]
                        == old(self).buckets()[tasks_bucket()].remove(record_key(task_id as int))
                    &&& forall|n: Seq<char>| n != tasks_bucket() && n != owned_bucket_name("task_outputs_"@, task_id as int)
                        && n != owned_bucket_name("task_stages_"@, task_id as int) ==> {
                        &&& (#[trigger] final(self).buckets().contains_key(n)) == old(self).buckets().contains_key(n)
                        &&& old(self).buckets().contains_key(n) ==> final(self).buckets()[n] == old(self).buckets()[n]
                    }
                },
                Err(DbError::NotFound(m)) => {
                    &&& m@ == task_missing()
                    &&& final(self).buckets().contains_key(tasks_bucket())
                    &&& !final(self).buckets()[tasks_bucket()].contains_key(record_key(task_id as int))
                    &&& old(self).buckets().contains_key(tasks_bucket()) ==> final(self).buckets() == old(self).buckets()
                },
                Err(e) => e is Database,
            },
    {
        match self.remove_record("tasks", task_id, "Задача не найдена") {
            Ok(_) => {},
            Err(e) => { return Err(e); },
        }
        let outputs = owned_bucket("task_outputs_", task_id);
        let stages = owned_bucket("task_stages_", task_id);
        proof {
            reveal_strlit("tasks");
            reveal_strlit("task_outputs_");
            reveal_strlit("task_stages_");
            assert(tasks_bucket().len() == 5);
            assert(outputs@.len() > 5);
            assert(stages@.len() > 5);
        }
        match self.drop_bucket(outputs.as_str()) {
            Ok(_) => {},
            Err(e) => { return Err(e); },
        }
        match self.drop_bucket(stages.as_str()) {
            Ok(_) => {},
            Err(e) => { return Err(e); },
        }
        Ok(())
    }

    /// Clears the tasks a template no longer keeps, given its listing
    /// (newest first): each task after the first `max_tasks` is deleted
    /// with its output and stages, oldest last. The first task that cannot
    /// be deleted stops the clearing with its error.
    pub fn clear_tasks(&mut self, listing: &Vec<TaskWithTpl>, max_tasks: i32) -> (r: Result<(), DbError>)
        requires
            max_tasks > 0,
            forall|i: int| 0 <= i < listing@.len() ==> (#[trigger] listing@[i]).task.id >= 0,
        ensures
            final(self).counters() == old(self).counters(),
            final(self).path() == old(self).path(),
            r is Ok ==> {
                let gone = cleared_ids(listing@, max_tasks as int);
                &&& old(self).buckets().contains_key(tasks_bucket()) ==> final(self).buckets().contains_key(tasks_bucket())
                    && final(self).buckets()[tasks_bucket()] == without_keys(old(self).buckets()[tasks_bucket()], record_keys(gone))
                &&& forall|k: int| 0 <= k < gone.len() ==> {
                    &&& !final(self).buckets().contains_key(owned_bucket_name("task_outputs_"@, #[trigger] gone[k] as int))
                    &&& !final(self).buckets().contains_key(owned_bucket_name("task_stages_"@, gone[k] as int))
                }
            },
    {
        let ids = tasks_to_clear(listing, max_tasks);
        let ghost gone = cleared_ids(listing@, max_tasks as int);
        let ghost start = self.buckets();
        proof {
            assert(ids@ =~= gone);
        }
        let mut i: usize = 0;
        while i < ids.len()
            invariant
                i <= ids@.len(),
                ids@ == gone,
                gone == cleared_ids(listing@, max_tasks as int),
                max_tasks > 0,
                forall|j: int| 0 <= j < listing@.len() ==> (#[trigger] listing@[j]).task.id >= 0,
                self.counters() == old(self).counters(),
                self.path() == old(self).path(),
                start == old(self).buckets(),
                start.contains_key(tasks_bucket()) ==> self.buckets().contains_key(tasks_bucket())
                    && self.buckets()[tasks_bucket()] == without_keys(start[tasks_bucket()], record_keys(gone.take(i as int))),
                i > 0 ==> self.buckets().contains_key(tasks_bucket()),
                forall|k: int| 0 <= k < i ==> {
                    &&& !self.buckets().contains_key(owned_bucket_name("task_outputs_"@, #[trigger] gone[k] as int))
                    &&& !self.buckets().contains_key(owned_bucket_name("task_stages_"@, gone[k] as int))
                },
            decreases ids.len() - i,
        {
            let ghost before = self.buckets();
            proof {
                assert(gone[i as int] == listing@[max_tasks + i].task.id);
                assert(listing@[max_tasks + i].task.id >= 0);
            }
            match self.delete_task_with_outputs(ids[i]) {
                Ok(_) => {},
                Err(e) => { return Err(e); },
            }
            proof {
                let g = gone.take(i as int);
                let g1 = gone.take(i + 1);
                assert(g1.drop_last() =~= g);
                assert(record_keys(g1).drop_last() =~= record_keys(g));
                assert(record_keys(g1).last() == record_key(gone[i as int] as int));
                assert forall|k: int| 0 <= k < i + 1 implies {
                    &&& !self.buckets().contains_key(owned_bucket_name("task_outputs_"@, #[trigger] gone[k] as int))
                    &&& !self.buckets().contains_key(owned_bucket_name("task_stages_"@, gone[k] as int))
                } by {
                    if k < i {
                        let o = owned_bucket_name("task_outputs_"@, gone[k] as int);
                        let st = owned_bucket_name("task_stages_"@, gone[k] as int);
                        assert(!before.contains_key(o));
                        assert(!before.contains_key(st));
                        assert(before.contains_key(tasks_bucket()));
                    }
                }
            }
            i = i + 1;
        }
        proof {
            assert(gone.take(gone.len() as int) =~= gone);
        }
        Ok(())
    }

    /// A new task as it is stored: created now, under the next number of the
    /// sequence of `tasks`.
    pub fn new_task(&mut self, task: Task) -> (r: Result<Task, DbError>)
        ensures
            final(self).counters() == old(self).counters(),
            final(self).path() == old(self).path(),
            match r {
                Ok(x) => took_sequence(old(self).buckets(), final(self).buckets(), tasks_bucket(), x.id)
                    && x == (Task { id: x.id, created: x.created, ..task }),
                Err(e) => sequence_failed(old(self).buckets(), final(self).buckets(), tasks_bucket(), e),
            },
    {
        let id = match self.next_sequence("tasks") {
            Ok(id) => id,
            Err(e) => { return Err(e); },
        };
        Ok(Task { id, created: now(), ..task })
    }

    /// A new line of output as it is stored, with the bucket
    /// `task_outputs_<task id>` it goes to: stamped now, under the next
    /// number of that bucket's sequence.
    pub fn new_task_output(&mut self, output: TaskOutput) -> (r: Result<(String, TaskOutput), DbError>)
        ensures
            final(self).counters() == old(self).counters(),
            final(self).path() == old(self).path(),
            ({
                let bucket = owned_bucket_name("task_outputs_"@, output.task_id as int);
                match r {
                    Ok((name, o)) => {
                        &&& name@ == bucket
                        &&& took_sequence(old(self).buckets(), final(self).buckets(), bucket, o.id)
                        &&& o == (TaskOutput { id: o.id, time: o.time, ..output })
                    },
                    Err(e) => sequence_failed(old(self).buckets(), final(self).buckets(), bucket, e),
                }
            }),
    {
        let bucket = owned_bucket("task_outputs_", output.task_id);
        let id = match self.next_sequence(bucket.as_str()) {
            Ok(id) => id,
            Err(e) => { return Err(e); },
        };
        Ok((bucket, TaskOutput { id, time: now(), ..output }))
    }
}

/// Keeps the tasks of a project, and of one template where one is given.
pub struct TaskScope {
    pub project_id: i32,
    pub template_id: Option<i32>,
}

impl Selector<Task> for TaskScope {
    open spec fn accepts(&self, t: Task) -> bool {
        &&& t.project_id == self.project_id
        &&& self.template_id matches Some(tid) ==> t.template_id == tid
    }

    fn test(&self, t: &Task) -> (b: bool) {
        if t.project_id != self.project_id {
            return false;
        }
        match self.template_id {
            Some(tid) => t.template_id == tid,
            None => true,
        }
    }
}

/// The page of a task listing: the stored tasks (newest first) after the
/// first `params.offset`, those of the project (and template, if given), up
/// to the one that makes their number exceed `params.count`.
pub fn select_tasks(tasks: &Vec<Task>, project_id: i32, template_id: Option<i32>, params: &RetrieveQueryParams) -> (r: Vec<Task>)
    ensures
        r@ == paged(tasks@, params.offset as int, TaskScope { project_id, template_id }, params.count),
{
    take_page(tasks, &TaskScope { project_id, template_id }, params.offset, params.count)
}

/// The position of the first template with the given id.
pub open spec fn first_with_id(templates: Seq<Template>, id: i32) -> Option<int> {
    if exists|i: int| 0 <= i < templates.len() && templates[i].id == id {
        Some(choose|i: int| 0 <= i < templates.len() && templates[i].id == id
            && forall|j: int| 0 <= j < i ==> templates[j].id != id)
    } else {
        None
    }
}

/// The name under which a task of `project_id` shows its template: the
/// template's name where the template exists and belongs to the project,
/// else empty.
pub open spec fn template_name_of(templates: Seq<Template>, project_id: i32, template_id: i32) -> Seq<char> {
    match first_with_id(templates, template_id) {
        Some(i) => if templates[i].project_id == project_id { templates[i].name@ } else { Seq::empty() },
        None => Seq::empty(),
    }
}

/// The name of the template `template_id` as the tasks of `project_id` show it.
pub fn template_name(templates: &Vec<Template>, project_id: i32, template_id: i32) -> (r: String)
    ensures
        r@ == template_name_of(templates@, project_id, template_id),
{
    let mut i: usize = 0;
    while i < templates.len()
        invariant
            i <= templates@.len(),
            forall|j: int| 0 <= j < i ==> templates@[j].id != template_id,
        decreases templates.len() - i,
    {
        if templates[i].id == template_id {
            proof {
                let w = choose|k: int| 0 <= k < templates@.len() && templates@[k].id == template_id
                    && forall|j: int| 0 <= j < k ==> templates@[j].id != template_id;
                assert(0 <= i < templates@.len() && templates@[i as int].id == template_id
                    && forall|j: int| 0 <= j < i ==> templates@[j].id != template_id);
                if w < i {
                    assert(templates@[w].id != template_id);
                } else if w > i {
                    assert(templates@[i as int].id != template_id);
                }
                assert(w == i);
            }
            if templates[i].project_id == project_id {
                return templates[i].name.clone();
            } else {
                return String::new();
            }
        }
        i = i + 1;
    }
    String::new()
}

/// The tasks with the names of their templates, in the same order.
pub fn with_template_names(tasks: Vec<Task>, templates: &Vec<Template>, project_id: i32) -> (r: Vec<TaskWithTpl>)
    ensures
        r@.len() == tasks@.len(),
        forall|i: int| 0 <= i < r@.len() ==> {
            &&& (#[trigger] r@[i]).task == tasks@[i]
            &&& r@[i].template_name@ == template_name_of(templates@, project_id, tasks@[i].template_id)
            &&& r@[i].tpl_playbook is None && r@[i].tpl_type is None && r@[i].tpl_app is None
            &&& r@[i].user_name is None
        },
{
    let mut out: Vec<TaskWithTpl> = Vec::new();
    let mut i: usize = 0;
    while i < tasks.len()
        invariant
            i <= tasks@.len(),
            out@.len() == i,
            forall|k: int| 0 <= k < i ==> {
                &&& (#[trigger] out@[k]).task == tasks@[k]
                &&& out@[k].template_name@ == template_name_of(templates@, project_id, tasks@[k].template_id)
                &&& out@[k].tpl_playbook is None && out@[k].tpl_type is None && out@[k].tpl_app is None
                &&& out@[k].user_name is None
            },
        decreases tasks.len() - i,
    {
        let name = template_name(templates, project_id, tasks[i].template_id);
        out.push(TaskWithTpl {
            task: tasks[i].duplicate(),
            tpl_playbook: None,
            tpl_type: None,
            tpl_app: None,
            user_name: None,
            template_name: name,
        });
        i = i + 1;
    }
    out
}

/// The ids of the tasks a template no longer keeps when it keeps at most
/// `max_tasks`: none while the listing holds no more than that, else those
/// after the first `max_tasks`. The listing comes newest first, so the
/// newest `max_tasks` tasks stay and the older ones go, oldest last.
pub fn tasks_to_clear(tasks: &Vec<TaskWithTpl>, max_tasks: i32) -> (r: Vec<i32>)
    requires
        max_tasks > 0,
    ensures
        tasks@.len() <= max_tasks ==> r@.len() == 0,
        tasks@.len() > max_tasks ==> {
            &&& r@.len() == tasks@.len() - max_tasks
            &&& forall|i: int| 0 <= i < r@.len() ==> #[trigger] r@[i] == tasks@[max_tasks + i].task.id
        },
{
    let mut out: Vec<i32> = Vec::new();
    let keep = max_tasks as usize;
    if tasks.len() <= keep {
        return out;
    }
    let mut i: usize = keep;
    while i < tasks.len()
        invariant
            keep == max_tasks,
            keep <= i <= tasks@.len(),
            out@.len() == i - keep,
            forall|k: int| 0 <= k < out@.len() ==> #[trigger] out@[k] == tasks@[keep + k].task.id,
        decreases tasks.len() - i,
    {
        out.push(tasks[i].task.id);
        i = i + 1;
    }
    out
}

/// The page of a task's output: the stored lines (newest first) after the
/// first `params.offset`, up to the one that makes their number exceed
/// `params.count`.
pub fn select_outputs(outputs: &Vec<TaskOutput>, params: &RetrieveQueryParams) -> (r: Vec<TaskOutput>)
    ensures
        r@ == paged(outputs@, params.offset as int, AcceptAll, params.count),
{
    take_page(outputs, &AcceptAll, params.offset, params.count)
}

/// The stages as the stage listing shows them, in the same order.
pub fn stages_with_results(stages: &Vec<TaskStage>) -> (r: Vec<TaskStageWithResult>)
    ensures
        r@.len() == stages@.len(),
        forall|i: int| 0 <= i < r@.len() ==> {
            &&& (#[trigger] r@[i]).id == stages@[i].id
            &&& r@[i].task_id == stages@[i].task_id
            &&& r@[i].start == stages@[i].start
            &&& r@[i].end == stages@[i].end
            &&& r@[i].stage_type@ == stages@[i].stage_type@
        },
{
    let mut out: Vec<TaskStageWithResult> = Vec::new();
    let mut i: usize = 0;
    while i < stages.len()
        invariant
            i <= stages@.len(),
            out@.len() == i,
            forall|k: int| 0 <= k < i ==> {
                &&& (#[trigger] out@[k]).id == stages@[k].id
                &&& out@[k].task_id == stages@[k].task_id
                &&& out@[k].start == stages@[k].start
                &&& out@[k].end == stages@[k].end
                &&& out@[k].stage_type@ == stages@[k].stage_type@
            },
        decreases stages.len() - i,
    {
        let s = &stages[i];
        out.push(TaskStageWithResult {
            id: s.id,
            task_id: s.task_id,
            start: s.start,
            end: s.end,
            stage_type: s.stage_type.clone(),
        });
        i = i + 1;
    }
    out
}

/// The first stage with the given id, closed at `end`, or the error that
/// there is none.
pub fn close_stage(stages: &Vec<TaskStage>, stage_id: i32, end: Timestamp) -> (r: Result<TaskStage, DbError>)
    ensures
        match r {
            Ok(s) => exists|i: int| 0 <= i < stages@.len() && stages@[i].id == stage_id
                && (forall|j: int| 0 <= j < i ==> #[trigger] stages@[j].id != stage_id)
                && s == (TaskStage { end: Some(end), ..stages@[i] }),
            Err(e) => (e matches DbError::NotFound(m) && m@ == stage_missing())
                && forall|i: int| 0 <= i < stages@.len() ==> #[trigger] stages@[i].id != stage_id,
        },
{
    let mut i: usize = 0;
    while i < stages.len()
        invariant
            i <= stages@.len(),
            forall|j: int| 0 <= j < i ==> #[trigger] stages@[j].id != stage_id,
        decreases stages.len() - i,
    {
        if stages[i].id == stage_id {
            let s = stages[i].duplicate();
            return Ok(TaskStage { end: Some(end), ..s });
        }
        i = i + 1;
    }
    Err(not_found("Стадия не найдена"))
}

} // verus!
