//! Schedules in the sled store: new schedules, the schedules of a project
//! with or without commit checkers, those of a template, and their
//! template names.
use vstd::prelude::*;
use crate::bolt::sequence::{sequence_failed, took_sequence};
use crate::bolt::store::BoltStore;
use crate::bolt::tasks::first_with_id;
use crate::bolt::templates::template_missing;
use crate::error::{DbError, not_found};
use crate::model::{Schedule, ScheduleWithTpl, Template};
use crate::page::{Selector, keep_fn, take_page};
use crate::table::Duplicate;
use crate::time::now;

verus! {

/// The bucket of the schedules.
pub open spec fn schedules_bucket() -> Seq<char> {
    "schedules"@
}

/// The message for a schedule that does not exist.
pub open spec fn schedule_missing() -> Seq<char> {
    "Расписание не найдено"@
}

impl BoltStore {
    /// A new schedule as it is stored: created now, under the next number of
    /// the sequence of `schedules`.
    pub fn new_schedule(&mut self, schedule: Schedule) -> (r: Result<Schedule, DbError>)
        ensures
            final(self).counters() == old(self).counters(),
            final(self).path() == old(self).path(),
            match r {
                Ok(x) => took_sequence(old(self).buckets(), final(self).buckets(), schedules_bucket(), x.id)
                    && x == (Schedule { id: x.id, created: x.created, ..schedule }),
                Err(e) => sequence_failed(old(self).buckets(), final(self).buckets(), schedules_bucket(), e),
            },
    {
        let id = match self.next_sequence("schedules") {
            Ok(id) => id,
            Err(e) => { return Err(e); },
        };
        Ok(Schedule { id, created: now(), ..schedule })
    }
}

/// A schedule read by id is only given out within its own project.
pub fn schedule_of_project(schedule: Schedule, project_id: i32) -> (r: Result<Schedule, DbError>)
    ensures
        schedule.project_id == project_id ==> r == Ok::<Schedule, DbError>(schedule),
        schedule.project_id != project_id ==> (r matches Err(DbError::NotFound(m)) && m@ == schedule_missing()),
{
    if schedule.project_id == project_id {
        Ok(schedule)
    } else {
        Err(not_found("Расписание не найдено"))
    }
}

/// Keeps the schedules of a project: all of them, or, without commit
/// checkers, those not bound to a repository.
pub struct ProjectSchedules {
    pub project_id: i32,
    pub with_checkers: bool,
}

impl Selector<Schedule> for ProjectSchedules {
    open spec fn accepts(&self, s: Schedule) -> bool {
        s.project_id == self.project_id && (self.with_checkers || s.repository_id is None)
    }

    fn test(&self, s: &Schedule) -> (b: bool) {
        s.project_id == self.project_id && (self.with_checkers || s.repository_id.is_none())
    }
}

/// The schedules of a project, with or without the commit checkers, in
/// stored order.
pub fn select_schedules(schedules: &Vec<Schedule>, project_id: i32, with_commit_checkers: bool) -> (r: Vec<Schedule>)
    ensures
        r@ == schedules@.filter(keep_fn(ProjectSchedules { project_id, with_checkers: with_commit_checkers })),
{
    let r = take_page(schedules, &ProjectSchedules { project_id, with_checkers: with_commit_checkers }, 0, None);
    assert(schedules@.subrange(0, schedules@.len() as int) =~= schedules@);
    r
}

/// Keeps the schedules of a template, only those bound to a repository
/// where asked.
pub struct TemplateSchedules {
    pub template_id: i32,
    pub only_commit_checkers: bool,
}

impl Selector<Schedule> for TemplateSchedules {
    open spec fn accepts(&self, s: Schedule) -> bool {
        s.template_id == self.template_id && (!self.only_commit_checkers || s.repository_id is Some)
    }

    fn test(&self, s: &Schedule) -> (b: bool) {
        s.template_id == self.template_id && (!self.only_commit_checkers || s.repository_id.is_some())
    }
}

/// The schedules of a template, in stored order.
pub fn select_template_schedules(schedules: &Vec<Schedule>, template_id: i32, only_commit_checkers: bool) -> (r: Vec<Schedule>)
    ensures
        r@ == schedules@.filter(keep_fn(TemplateSchedules { template_id, only_commit_checkers })),
{
    let r = take_page(schedules, &TemplateSchedules { template_id, only_commit_checkers }, 0, None);
    assert(schedules@.subrange(0, schedules@.len() as int) =~= schedules@);
    r
}

/// Whether the template `template_id` can be read within `project_id`.
pub open spec fn template_readable(templates: Seq<Template>, project_id: i32, template_id: i32) -> bool {
    first_with_id(templates, template_id) matches Some(i) && templates[i].project_id == project_id
}

/// The schedules with the names of their templates, in the same order; the
/// error for a template that cannot be read within the project.
pub fn with_template_names(schedules: Vec<Schedule>, templates: &Vec<Template>, project_id: i32) -> (r: Result<Vec<ScheduleWithTpl>, DbError>)
    ensures
        match r {
            Ok(v) => {
                &&& v@.len() == schedules@.len()
                &&& forall|i: int| 0 <= i < v@.len() ==> {
                    &&& (#[trigger] v@[i]).schedule == schedules@[i]
                    &&& template_readable(templates@, project_id, schedules@[i].template_id)
                    &&& v@[i].template_name@ == templates@[first_with_id(templates@, schedules@[i].template_id)->0].name@
                }
            },
            Err(e) => (e matches DbError::NotFound(m) && m@ == template_missing())
                && exists|i: int| 0 <= i < schedules@.len()
                    && !template_readable(templates@, project_id, #[trigger] schedules@[i].template_id),
        },
{
    let mut out: Vec<ScheduleWithTpl> = Vec::new();
    let mut i: usize = 0;
    while i < schedules.len()
        invariant
            i <= schedules@.len(),
            out@.len() == i,
            forall|k: int| 0 <= k < i ==> {
                &&& (#[trigger] out@[k]).schedule == schedules@[k]
                &&& template_readable(templates@, project_id, schedules@[k].template_id)
                &&& out@[k].template_name@ == templates@[first_with_id(templates@, schedules@[k].template_id)->0].name@
            },
        decreases schedules.len() - i,
    {
        let tid = schedules[i].template_id;
        let mut j: usize = 0;
        while j < templates.len()
            invariant
                j <= templates@.len(),
                forall|k: int| 0 <= k < j ==> templates@[k].id != tid,
            ensures
                j <= templates@.len(),
                forall|k: int| 0 <= k < j ==> templates@[k].id != tid,
                j < templates@.len() ==> templates@[j as int].id == tid,
            decreases templates.len() - j,
        {
            if templates[j].id == tid {
                break;
            }
            j = j + 1;
        }
        proof {
            if j < templates@.len() {
                let w = choose|k: int| 0 <= k < templates@.len() && templates@[k].id == tid
                    && forall|m: int| 0 <= m < k ==> templates@[m].id != tid;
                assert(0 <= j < templates@.len() && templates@[j as int].id == tid
                    && forall|m: int| 0 <= m < j ==> templates@[m].id != tid);
                if w < j {
                    assert(templates@[w].id != tid);
                } else if w > j {
                    assert(templates@[j as int].id != tid);
                }
                assert(first_with_id(templates@, tid) == Some(j as int));
            }
        }
        if j == templates.len() || templates[j].project_id != project_id {
            return Err(not_found("Шаблон не найден"));
        }
        out.push(ScheduleWithTpl { schedule: schedules[i].duplicate(), template_name: templates[j].name.clone() });
        i = i + 1;
    }
    Ok(out)
}

} // verus!
