//! An in-memory store for tests: users, projects, templates and tasks are
//! kept in tables by id; every other kind of object is accepted and
//! forgotten.
use vstd::prelude::*;
use crate::error::{DbError, not_found, not_found_with_id};
use crate::model::{
    APIToken, Event, Project, ProjectUser, RetrieveQueryParams, Schedule, Session, Task, TaskOutput,
    TaskWithTpl, Template, User, UserTotp, copy_opt_totp,
};
use crate::table::{Duplicate, IdTable, Record, lists_exactly, unique_keys};
use crate::sql::audit_log::{AuditAction, AuditLevel, AuditLog, AuditLogFilter, AuditLogResult, AuditObjectType};
use crate::text::decimal_int;
use crate::time::Timestamp;

verus! {

/// An in-memory store for tests.
pub struct MockStore {
    users: IdTable<User>,
    projects: IdTable<Project>,
    tasks: IdTable<Task>,
    templates: IdTable<Template>,
}

/// Whether `r` lists, each once, the users of `m` that are administrators.
pub open spec fn lists_admins(r: Seq<User>, m: Map<i32, User>) -> bool {
    &&& unique_keys(r)
    &&& forall|i: int| 0 <= i < r.len() ==> m.contains_key(#[trigger] r[i].id) && m[r[i].id] == r[i] && r[i].admin
    &&& forall|k: i32| m.contains_key(k) && m[k].admin ==> exists|i: int| 0 <= i < r.len() && #[trigger] r[i].id == k
}

/// Whether a task belongs to the template asked for, if one is.
pub open spec fn of_template(t: Task, template_id: Option<i32>) -> bool {
    match template_id {
        Some(tid) => t.template_id == tid,
        None => true,
    }
}

/// Whether `r` lists, each once and without template details, the tasks of
/// `m` that belong to the template asked for.
pub open spec fn lists_tasks(r: Seq<TaskWithTpl>, m: Map<i32, Task>, template_id: Option<i32>) -> bool {
    &&& forall|i: int, j: int| 0 <= i < j < r.len() ==> r[i].task.id != r[j].task.id
    &&& forall|i: int| 0 <= i < r.len() ==> {
        &&& m.contains_key(#[trigger] r[i].task.id)
        &&& m[r[i].task.id] == r[i].task
        &&& of_template(r[i].task, template_id)
        &&& r[i].tpl_playbook is None
        &&& r[i].tpl_type is None
        &&& r[i].tpl_app is None
        &&& r[i].user_name is None
        &&& r[i].template_name@ == Seq::<char>::empty()
    }
    &&& forall|k: i32| m.contains_key(k) && of_template(m[k], template_id)
        ==> exists|i: int| 0 <= i < r.len() && #[trigger] r[i].task.id == k
}

/// The id a record gets when it is created: its own, or one more than the
/// number of stored records where it has none (id 0).
pub open spec fn assigned_id(id: i32, stored: nat) -> i32 {
    if id == 0 { (stored + 1) as i32 } else { id }
}

/// A task listed without template details.
fn bare_task(t: Task) -> (r: TaskWithTpl)
    ensures
        r.task == t,
        r.tpl_playbook is None,
        r.tpl_type is None,
        r.tpl_app is None,
        r.user_name is None,
        r.template_name@ == Seq::<char>::empty(),
{
    TaskWithTpl {
        task: t,
        tpl_playbook: None,
        tpl_type: None,
        tpl_app: None,
        user_name: None,
        template_name: String::new(),
    }
}

impl Default for MockStore {
    fn default() -> (s: Self)
        ensures
            s.users() == Map::<i32, User>::empty(),
            s.projects() == Map::<i32, Project>::empty(),
            s.tasks() == Map::<i32, Task>::empty(),
            s.templates() == Map::<i32, Template>::empty(),
    {
        Self::new()
    }
}

impl MockStore {
    /// The stored users by id.
    pub closed spec fn users(&self) -> Map<i32, User> {
        self.users.view()
    }

    /// The stored projects by id.
    pub closed spec fn projects(&self) -> Map<i32, Project> {
        self.projects.view()
    }

    /// The stored tasks by id.
    pub closed spec fn tasks(&self) -> Map<i32, Task> {
        self.tasks.view()
    }

    /// The stored templates by id.
    pub closed spec fn templates(&self) -> Map<i32, Template> {
        self.templates.view()
    }

    /// An empty store.
    pub fn new() -> (s: Self)
        ensures
            s.users() == Map::<i32, User>::empty(),
            s.projects() == Map::<i32, Project>::empty(),
            s.tasks() == Map::<i32, Task>::empty(),
            s.templates() == Map::<i32, Template>::empty(),
    {
        MockStore {
            users: IdTable::new(),
            projects: IdTable::new(),
            tasks: IdTable::new(),
            templates: IdTable::new(),
        }
    }

    // ---- connection and schema ----

    /// Connecting always succeeds.
    pub fn connect(&self) -> (r: Result<(), DbError>)
        ensures
            r is Ok,
    {
        Ok(())
    }

    /// Closing always succeeds.
    pub fn close(&self) -> (r: Result<(), DbError>)
        ensures
            r is Ok,
    {
        Ok(())
    }

    /// The store keeps its state for as long as it lives.
    pub fn is_permanent(&self) -> (r: bool)
        ensures
            r,
    {
        true
    }

    /// The dialect name `mock`.
    pub fn get_dialect(&self) -> (r: &'static str)
        ensures
            r@ == "mock"@,
    {
        "mock"
    }

    /// The store always counts as initialised.
    pub fn is_initialized(&self) -> (r: Result<bool, DbError>)
        ensures
            r == Ok::<bool, DbError>(true),
    {
        Ok(true)
    }

    /// Applying a migration is accepted and changes nothing.
    pub fn apply_migration(&self, version: i64, name: String) -> (r: Result<(), DbError>)
        ensures
            r is Ok,
    {
        Ok(())
    }

    /// Every migration counts as applied.
    pub fn is_migration_applied(&self, version: i64) -> (r: Result<bool, DbError>)
        ensures
            r == Ok::<bool, DbError>(true),
    {
        Ok(true)
    }

    // ---- options ----

    /// No options are stored.
    pub fn get_options(&self) -> (r: Result<Vec<(String, String)>, DbError>)
        ensures
            r matches Ok(v) && v@.len() == 0,
    {
        Ok(Vec::new())
    }

    /// No option has a value.
    pub fn get_option(&self, key: &str) -> (r: Result<Option<String>, DbError>)
        ensures
            r matches Ok(v) && v is None,
    {
        Ok(None)
    }

    /// Setting an option is accepted and forgotten.
    pub fn set_option(&self, key: &str, value: &str) -> (r: Result<(), DbError>)
        ensures
            r is Ok,
    {
        Ok(())
    }

    /// Deleting an option is accepted.
    pub fn delete_option(&self, key: &str) -> (r: Result<(), DbError>)
        ensures
            r is Ok,
    {
        Ok(())
    }

    // ---- users ----

    /// All users, each once, in no promised order.
    pub fn get_users(&self, params: RetrieveQueryParams) -> (r: Result<Vec<User>, DbError>)
        ensures
            r matches Ok(v) && lists_exactly(v@, self.users()),
    {
        Ok(self.users.values())
    }

    /// The user with the given id, or `User <id> not found`.
    pub fn get_user(&self, id: i32) -> (r: Result<User, DbError>)
        ensures
            match r {
                Ok(u) => self.users().contains_key(id) && u == self.users()[id],
                Err(e) => !self.users().contains_key(id)
                    && (e matches DbError::NotFound(m) && m@ == "User "@ + decimal_int(id as int) + " not found"@),
            },
    {
        match self.users.get(id) {
            Some(u) => Ok(u),
            None => Err(not_found_with_id("User ", id as i64, " not found")),
        }
    }

    /// A user whose name is `login` or whose e-mail is `email`, or `User not found`.
    pub fn get_user_by_login_or_email(&self, login: &str, email: &str) -> (r: Result<User, DbError>)
        ensures
            match r {
                Ok(u) => self.users().contains_key(u.id) && self.users()[u.id] == u
                    && (u.username@ == login@ || u.email@ == email@),
                Err(e) => (e matches DbError::NotFound(m) && m@ == "User not found"@)
                    && forall|k: i32| #[trigger] self.users().contains_key(k)
                        ==> !(self.users()[k].username@ == login@ || self.users()[k].email@ == email@),
            },
    {
        let all = self.users.values();
        let mut i: usize = 0;
        while i < all.len()
            invariant
                i <= all@.len(),
                lists_exactly(all@, self.users()),
                forall|j: int| 0 <= j < i ==> !(all@[j].username@ == login@ || all@[j].email@ == email@),
            decreases all.len() - i,
        {
            if crate::text::str_equal(all[i].username.as_str(), login)
                || crate::text::str_equal(all[i].email.as_str(), email) {
                assert(self.users().contains_key(all@[i as int].key()));
                return Ok(all[i].duplicate());
            }
            i = i + 1;
        }
        proof {
            assert forall|k: i32| #[trigger] self.users().contains_key(k)
                implies !(self.users()[k].username@ == login@ || self.users()[k].email@ == email@) by {
                let j = choose|j: int| 0 <= j < all@.len() && #[trigger] all@[j].key() == k;
                assert(self.users()[all@[j].key()] == all@[j]);
            }
        }
        Err(not_found("User not found"))
    }

    /// Stores the user under its id, replacing any user with that id.
    pub fn create_user(&mut self, user: User, password: &str) -> (r: Result<User, DbError>)
        ensures
            final(self).users() == old(self).users().insert(user.id, user),
            final(self).projects() == old(self).projects(),
            final(self).tasks() == old(self).tasks(),
            final(self).templates() == old(self).templates(),
            r == Ok::<User, DbError>(user),
    {
        let ret = user.duplicate();
        self.users.upsert(user);
        Ok(ret)
    }

    /// Stores the user under its id, replacing any user with that id.
    pub fn update_user(&mut self, user: User) -> (r: Result<(), DbError>)
        ensures
            final(self).users() == old(self).users().insert(user.id, user),
            final(self).projects() == old(self).projects(),
            final(self).tasks() == old(self).tasks(),
            final(self).templates() == old(self).templates(),
            r is Ok,
    {
        self.users.upsert(user);
        Ok(())
    }

    /// Removes the user with the given id, if any.
    pub fn delete_user(&mut self, id: i32) -> (r: Result<(), DbError>)
        ensures
            final(self).users() == old(self).users().remove(id),
            final(self).projects() == old(self).projects(),
            final(self).tasks() == old(self).tasks(),
            final(self).templates() == old(self).templates(),
            r is Ok,
    {
        self.users.remove(id);
        Ok(())
    }

    /// Passwords are not kept: the call is accepted and changes nothing.
    pub fn set_user_password(&self, user_id: i32, password: &str) -> (r: Result<(), DbError>)
        ensures
            r is Ok,
    {
        Ok(())
    }

    /// All users that are administrators, each once.
    pub fn get_all_admins(&self) -> (r: Result<Vec<User>, DbError>)
        ensures
            r matches Ok(v) && lists_admins(v@, self.users()),
    {
        let all = self.users.values();
        let mut out: Vec<User> = Vec::new();
        let mut i: usize = 0;
        while i < all.len()
            invariant
                i <= all@.len(),
                lists_exactly(all@, self.users()),
                unique_keys(out@),
                forall|j: int| 0 <= j < out@.len() ==> self.users().contains_key(#[trigger] out@[j].id)
                    && self.users()[out@[j].id] == out@[j] && out@[j].admin,
                forall|j: int| 0 <= j < out@.len() ==> exists|a: int| 0 <= a < i && all@[a].id == #[trigger] out@[j].id,
                forall|a: int| 0 <= a < i && #[trigger] all@[a].admin ==> exists|j: int| 0 <= j < out@.len() && out@[j].id == all@[a].id,
            decreases all.len() - i,
        {
            if all[i].admin {
                let ghost before = out@;
                out.push(all[i].duplicate());
                proof {
                    assert(self.users().contains_key(all@[i as int].key()));
                    assert forall|a: int, b: int| 0 <= a < b < out@.len() implies out@[a].key() != out@[b].key() by {
                        if b == out@.len() - 1 {
                            let w = choose|w: int| 0 <= w < i && all@[w].id == #[trigger] before[a].id;
                            assert(all@[w].key() != all@[i as int].key());
                        }
                    }
                    assert(out@[out@.len() - 1].id == all@[i as int].id);
                    assert forall|a: int| 0 <= a < i + 1 && #[trigger] all@[a].admin
                        implies exists|j: int| 0 <= j < out@.len() && out@[j].id == all@[a].id by {
                        if a == i {
                            assert(out@[out@.len() - 1].id == all@[a].id);
                        } else {
                            let j = choose|j: int| 0 <= j < before.len() && before[j].id == all@[a].id;
                            assert(out@[j] == before[j]);
                        }
                    }
                    assert forall|j: int| 0 <= j < out@.len()
                        implies exists|a: int| 0 <= a < i + 1 && all@[a].id == #[trigger] out@[j].id by {
                        if j < before.len() {
                            assert(out@[j] == before[j]);
                            let a = choose|a: int| 0 <= a < i && all@[a].id == #[trigger] before[j].id;
                        } else {
                            assert(all@[i as int].id == out@[j].id);
                        }
                    }
                }
            }
            i = i + 1;
        }
        proof {
            assert forall|k: i32| self.users().contains_key(k) && self.users()[k].admin
                implies exists|j: int| 0 <= j < out@.len() && #[trigger] out@[j].id == k by {
                let a = choose|a: int| 0 <= a < all@.len() && #[trigger] all@[a].key() == k;
                assert(all@[a].admin);
            }
        }
        Ok(out)
    }

    /// The number of stored users.
    pub fn get_user_count(&self) -> (r: Result<usize, DbError>)
        ensures
            r matches Ok(n) && n == self.users().len(),
    {
        Ok(self.users.len())
    }

    /// Project memberships are not kept: always none.
    pub fn get_project_users(&self, project_id: i32, params: RetrieveQueryParams) -> (r: Result<Vec<ProjectUser>, DbError>)
        ensures
            r matches Ok(v) && v@.len() == 0,
    {
        Ok(Vec::new())
    }

    /// The second factor of the given user, none where the user or the factor is missing.
    pub fn get_user_totp(&self, user_id: i32) -> (r: Result<Option<UserTotp>, DbError>)
        ensures
            r == Ok::<Option<UserTotp>, DbError>(
                if self.users().contains_key(user_id) { self.users()[user_id].totp } else { None }),
    {
        match self.users.get(user_id) {
            Some(u) => Ok(copy_opt_totp(&u.totp)),
            None => Ok(None),
        }
    }

    /// Gives the user a second factor; nothing changes where the user is missing.
    pub fn set_user_totp(&mut self, user_id: i32, totp: &UserTotp) -> (r: Result<(), DbError>)
        ensures
            r is Ok,
            final(self).users() == if old(self).users().contains_key(user_id) {
                old(self).users().insert(user_id, (User { totp: Some(*totp), ..old(self).users()[user_id] }))
            } else {
                old(self).users()
            },
            final(self).projects() == old(self).projects(),
            final(self).tasks() == old(self).tasks(),
            final(self).templates() == old(self).templates(),
    {
        match self.users.get(user_id) {
            Some(u) => {
                let mut u = u;
                u.totp = Some(totp.duplicate());
                self.users.upsert(u);
            },
            None => {},
        }
        Ok(())
    }

    /// Takes away the user's second factor; nothing changes where the user is missing.
    pub fn delete_user_totp(&mut self, user_id: i32) -> (r: Result<(), DbError>)
        ensures
            r is Ok,
            final(self).users() == if old(self).users().contains_key(user_id) {
                old(self).users().insert(user_id, (User { totp: None, ..old(self).users()[user_id] }))
            } else {
                old(self).users()
            },
            final(self).projects() == old(self).projects(),
            final(self).tasks() == old(self).tasks(),
            final(self).templates() == old(self).templates(),
    {
        match self.users.get(user_id) {
            Some(u) => {
                let mut u = u;
                u.totp = None;
                self.users.upsert(u);
            },
            None => {},
        }
        Ok(())
    }

    // ---- projects ----

    /// All projects, each once, whoever asks.
    pub fn get_projects(&self, user_id: Option<i32>) -> (r: Result<Vec<Project>, DbError>)
        ensures
            r matches Ok(v) && lists_exactly(v@, self.projects()),
    {
        Ok(self.projects.values())
    }

    /// The project with the given id, or `Project <id> not found`.
    pub fn get_project(&self, project_id: i32) -> (r: Result<Project, DbError>)
        ensures
            match r {
                Ok(p) => self.projects().contains_key(project_id) && p == self.projects()[project_id],
                Err(e) => !self.projects().contains_key(project_id)
                    && (e matches DbError::NotFound(m) && m@ == "Project "@ + decimal_int(project_id as int) + " not found"@),
            },
    {
        match self.projects.get(project_id) {
            Some(p) => Ok(p),
            None => Err(not_found_with_id("Project ", project_id as i64, " not found")),
        }
    }

    /// Stores the project; one without an id (0) gets one more than the
    /// number of stored projects.
    pub fn create_project(&mut self, project: Project) -> (r: Result<Project, DbError>)
        requires
            old(self).projects().len() < i32::MAX,
        ensures
            r matches Ok(p) && p == (Project { id: assigned_id(project.id, old(self).projects().len()), ..project })
                && final(self).projects() == old(self).projects().insert(p.id, p),
            final(self).users() == old(self).users(),
            final(self).tasks() == old(self).tasks(),
            final(self).templates() == old(self).templates(),
    {
        let mut project = project;
        if project.id == 0 {
            project.id = (self.projects.len() as i32) + 1;
        }
        let ret = project.duplicate();
        self.projects.upsert(project);
        Ok(ret)
    }

    /// Stores the project under its id, replacing any project with that id.
    pub fn update_project(&mut self, project: Project) -> (r: Result<(), DbError>)
        ensures
            final(self).projects() == old(self).projects().insert(project.id, project),
            final(self).users() == old(self).users(),
            final(self).tasks() == old(self).tasks(),
            final(self).templates() == old(self).templates(),
            r is Ok,
    {
        self.projects.upsert(project);
        Ok(())
    }

    /// Removes the project with the given id, if any.
    pub fn delete_project(&mut self, project_id: i32) -> (r: Result<(), DbError>)
        ensures
            final(self).projects() == old(self).projects().remove(project_id),
            final(self).users() == old(self).users(),
            final(self).tasks() == old(self).tasks(),
            final(self).templates() == old(self).templates(),
            r is Ok,
    {
        self.projects.remove(project_id);
        Ok(())
    }

    /// Project memberships are not kept: the call is accepted.
    pub fn create_project_user(&self, project_user: ProjectUser) -> (r: Result<(), DbError>)
        ensures
            r is Ok,
    {
        Ok(())
    }

    /// Project memberships are not kept: the call is accepted.
    pub fn delete_project_user(&self, project_id: i32, user_id: i32) -> (r: Result<(), DbError>)
        ensures
            r is Ok,
    {
        Ok(())
    }

    // ---- templates ----

    /// All templates, each once, of whichever project.
    pub fn get_templates(&self, project_id: i32) -> (r: Result<Vec<Template>, DbError>)
        ensures
            r matches Ok(v) && lists_exactly(v@, self.templates()),
    {
        Ok(self.templates.values())
    }

    /// The template with the given id if it belongs to the project, else
    /// `Template <id> not found`.
    pub fn get_template(&self, project_id: i32, template_id: i32) -> (r: Result<Template, DbError>)
        ensures
            match r {
                Ok(t) => self.templates().contains_key(template_id) && t == self.templates()[template_id]
                    && t.project_id == project_id,
                Err(e) => !(self.templates().contains_key(template_id)
                        && self.templates()[template_id].project_id == project_id)
                    && (e matches DbError::NotFound(m) && m@ == "Template "@ + decimal_int(template_id as int) + " not found"@),
            },
    {
        match self.templates.get(template_id) {
            Some(t) => {
                if t.project_id == project_id {
                    Ok(t)
                } else {
                    Err(not_found_with_id("Template ", template_id as i64, " not found"))
                }
            },
            None => Err(not_found_with_id("Template ", template_id as i64, " not found")),
        }
    }

    /// Stores the template; one without an id (0) gets one more than the
    /// number of stored templates.
    pub fn create_template(&mut self, template: Template) -> (r: Result<Template, DbError>)
        requires
            old(self).templates().len() < i32::MAX,
        ensures
            r matches Ok(t) && t == (Template { id: assigned_id(template.id, old(self).templates().len()), ..template })
                && final(self).templates() == old(self).templates().insert(t.id, t),
            final(self).users() == old(self).users(),
            final(self).projects() == old(self).projects(),
            final(self).tasks() == old(self).tasks(),
    {
        let mut template = template;
        if template.id == 0 {
            template.id = (self.templates.len() as i32) + 1;
        }
        let ret = template.duplicate();
        self.templates.upsert(template);
        Ok(ret)
    }

    /// Stores the template under its id, replacing any template with that id.
    pub fn update_template(&mut self, template: Template) -> (r: Result<(), DbError>)
        ensures
            final(self).templates() == old(self).templates().insert(template.id, template),
            final(self).users() == old(self).users(),
            final(self).projects() == old(self).projects(),
            final(self).tasks() == old(self).tasks(),
            r is Ok,
    {
        self.templates.upsert(template);
        Ok(())
    }

    /// Removes the template with the given id, whatever its project.
    pub fn delete_template(&mut self, project_id: i32, template_id: i32) -> (r: Result<(), DbError>)
        ensures
            final(self).templates() == old(self).templates().remove(template_id),
            final(self).users() == old(self).users(),
            final(self).projects() == old(self).projects(),
            final(self).tasks() == old(self).tasks(),
            r is Ok,
    {
        self.templates.remove(template_id);
        Ok(())
    }

    // ---- tasks ----

    /// Lists stored tasks, each once, without template details.
    fn list_tasks(&self, template_id: Option<i32>) -> (r: Vec<TaskWithTpl>)
        ensures
            lists_tasks(r@, self.tasks(), template_id),
    {
        let all = self.tasks.values();
        let mut out: Vec<TaskWithTpl> = Vec::new();
        let mut i: usize = 0;
        while i < all.len()
            invariant
                i <= all@.len(),
                lists_exactly(all@, self.tasks()),
                forall|a: int, b: int| 0 <= a < b < out@.len() ==> out@[a].task.id != out@[b].task.id,
                forall|j: int| 0 <= j < out@.len() ==> {
                    &&& self.tasks().contains_key(#[trigger] out@[j].task.id)
                    &&& self.tasks()[out@[j].task.id] == out@[j].task
                    &&& of_template(out@[j].task, template_id)
                    &&& out@[j].tpl_playbook is None
                    &&& out@[j].tpl_type is None
                    &&& out@[j].tpl_app is None
                    &&& out@[j].user_name is None
                    &&& out@[j].template_name@ == Seq::<char>::empty()
                },
                forall|j: int| 0 <= j < out@.len() ==> exists|a: int| 0 <= a < i && all@[a].id == #[trigger] out@[j].task.id,
                forall|a: int| 0 <= a < i && of_template(#[trigger] all@[a], template_id)
                    ==> exists|j: int| 0 <= j < out@.len() && out@[j].task.id == all@[a].id,
            decreases all.len() - i,
        {
            let keep = match template_id {
                Some(tid) => all[i].template_id == tid,
                None => true,
            };
            if keep {
                let ghost before = out@;
                out.push(bare_task(all[i].duplicate()));
                proof {
                    assert(self.tasks().contains_key(all@[i as int].key()));
                    assert forall|a: int, b: int| 0 <= a < b < out@.len() implies out@[a].task.id != out@[b].task.id by {
                        if b == out@.len() - 1 {
                            let w = choose|w: int| 0 <= w < i && all@[w].id == #[trigger] before[a].task.id;
                            assert(all@[w].key() != all@[i as int].key());
                        }
                    }
                    assert(out@[out@.len() - 1].task.id == all@[i as int].id);
                    assert forall|a: int| 0 <= a < i + 1 && of_template(#[trigger] all@[a], template_id)
                        implies exists|j: int| 0 <= j < out@.len() && out@[j].task.id == all@[a].id by {
                        if a == i {
                            assert(out@[out@.len() - 1].task.id == all@[a].id);
                        } else {
                            let j = choose|j: int| 0 <= j < before.len() && before[j].task.id == all@[a].id;
                            assert(out@[j] == before[j]);
                        }
                    }
                    assert forall|j: int| 0 <= j < out@.len()
                        implies exists|a: int| 0 <= a < i + 1 && all@[a].id == #[trigger] out@[j].task.id by {
                        if j < before.len() {
                            assert(out@[j] == before[j]);
                            let a = choose|a: int| 0 <= a < i && all@[a].id == #[trigger] before[j].task.id;
                        } else {
                            assert(all@[i as int].id == out@[j].task.id);
                        }
                    }
                }
            }
            i = i + 1;
        }
        proof {
            assert forall|k: i32| self.tasks().contains_key(k) && of_template(self.tasks()[k], template_id)
                implies exists|j: int| 0 <= j < out@.len() && #[trigger] out@[j].task.id == k by {
                let a = choose|a: int| 0 <= a < all@.len() && #[trigger] all@[a].key() == k;
                assert(of_template(all@[a], template_id));
            }
        }
        out
    }

    /// The stored tasks of the given template (all tasks without one), each
    /// once, without template details, whatever their project.
    pub fn get_tasks(&self, project_id: i32, template_id: Option<i32>) -> (r: Result<Vec<TaskWithTpl>, DbError>)
        ensures
            r matches Ok(v) && lists_tasks(v@, self.tasks(), template_id),
    {
        Ok(self.list_tasks(template_id))
    }

    /// The task with the given id, whatever its project, or `Task <id> not found`.
    pub fn get_task(&self, project_id: i32, task_id: i32) -> (r: Result<Task, DbError>)
        ensures
            match r {
                Ok(t) => self.tasks().contains_key(task_id) && t == self.tasks()[task_id],
                Err(e) => !self.tasks().contains_key(task_id)
                    && (e matches DbError::NotFound(m) && m@ == "Task "@ + decimal_int(task_id as int) + " not found"@),
            },
    {
        match self.tasks.get(task_id) {
            Some(t) => Ok(t),
            None => Err(not_found_with_id("Task ", task_id as i64, " not found")),
        }
    }

    /// Stores the task; one without an id (0) gets one more than the number
    /// of stored tasks.
    pub fn create_task(&mut self, task: Task) -> (r: Result<Task, DbError>)
        requires
            old(self).tasks().len() < i32::MAX,
        ensures
            r matches Ok(t) && t == (Task { id: assigned_id(task.id, old(self).tasks().len()), ..task })
                && final(self).tasks() == old(self).tasks().insert(t.id, t),
            final(self).users() == old(self).users(),
            final(self).projects() == old(self).projects(),
            final(self).templates() == old(self).templates(),
    {
        let mut task = task;
        if task.id == 0 {
            task.id = (self.tasks.len() as i32) + 1;
        }
        let ret = task.duplicate();
        self.tasks.upsert(task);
        Ok(ret)
    }

    /// Stores the task under its id, replacing any task with that id.
    pub fn update_task(&mut self, task: Task) -> (r: Result<(), DbError>)
        ensures
            final(self).tasks() == old(self).tasks().insert(task.id, task),
            final(self).users() == old(self).users(),
            final(self).projects() == old(self).projects(),
            final(self).templates() == old(self).templates(),
            r is Ok,
    {
        self.tasks.upsert(task);
        Ok(())
    }

    /// Removes the task with the given id, whatever its project.
    pub fn delete_task(&mut self, project_id: i32, task_id: i32) -> (r: Result<(), DbError>)
        ensures
            final(self).tasks() == old(self).tasks().remove(task_id),
            final(self).users() == old(self).users(),
            final(self).projects() == old(self).projects(),
            final(self).templates() == old(self).templates(),
            r is Ok,
    {
        self.tasks.remove(task_id);
        Ok(())
    }

    /// Task output is not kept: always none.
    pub fn get_task_outputs(&self, task_id: i32) -> (r: Result<Vec<TaskOutput>, DbError>)
        ensures
            r matches Ok(v) && v@.len() == 0,
    {
        Ok(Vec::new())
    }

    /// Task output is not kept: the output is handed back.
    pub fn create_task_output(&self, output: TaskOutput) -> (r: Result<TaskOutput, DbError>)
        ensures
            r == Ok::<TaskOutput, DbError>(output),
    {
        Ok(output)
    }

    /// Status changes are accepted and forgotten.
    pub fn update_task_status(&self, project_id: i32, task_id: i32, status: &str) -> (r: Result<(), DbError>)
        ensures
            r is Ok,
    {
        Ok(())
    }

    /// All stored tasks, each once, without template details; the status
    /// filter and limit are not applied.
    pub fn get_global_tasks(&self, status_filter: Option<Vec<String>>, limit: Option<i32>) -> (r: Result<Vec<TaskWithTpl>, DbError>)
        ensures
            r matches Ok(v) && lists_tasks(v@, self.tasks(), None),
    {
        Ok(self.list_tasks(None))
    }

    // ---- schedules ----

    /// Schedules are not kept: always none.
    pub fn get_schedules(&self, project_id: i32) -> (r: Result<Vec<Schedule>, DbError>)
        ensures
            r matches Ok(v) && v@.len() == 0,
    {
        Ok(Vec::new())
    }

    /// Schedules are not kept: always none.
    pub fn get_all_schedules(&self) -> (r: Result<Vec<Schedule>, DbError>)
        ensures
            r matches Ok(v) && v@.len() == 0,
    {
        Ok(Vec::new())
    }

    /// Schedules are not kept: always `Schedule <id> not found`.
    pub fn get_schedule(&self, project_id: i32, schedule_id: i32) -> (r: Result<Schedule, DbError>)
        ensures
            r matches Err(DbError::NotFound(m)) && m@ == "Schedule "@ + decimal_int(schedule_id as int) + " not found"@,
    {
        Err(not_found_with_id("Schedule ", schedule_id as i64, " not found"))
    }

    /// Schedules are not kept: the schedule is handed back.
    pub fn create_schedule(&self, schedule: Schedule) -> (r: Result<Schedule, DbError>)
        ensures
            r == Ok::<Schedule, DbError>(schedule),
    {
        Ok(schedule)
    }

    /// Schedules are not kept: the call is accepted.
    pub fn update_schedule(&self, schedule: Schedule) -> (r: Result<(), DbError>)
        ensures
            r is Ok,
    {
        Ok(())
    }

    /// Schedules are not kept: the call is accepted.
    pub fn delete_schedule(&self, project_id: i32, schedule_id: i32) -> (r: Result<(), DbError>)
        ensures
            r is Ok,
    {
        Ok(())
    }

    /// Schedules are not kept: the call is accepted.
    pub fn set_schedule_active(&self, project_id: i32, schedule_id: i32, active: bool) -> (r: Result<(), DbError>)
        ensures
            r is Ok,
    {
        Ok(())
    }

    /// Schedules are not kept: the call is accepted.
    pub fn set_schedule_commit_hash(&self, project_id: i32, schedule_id: i32, hash: &str) -> (r: Result<(), DbError>)
        ensures
            r is Ok,
    {
        Ok(())
    }

    // ---- sessions and tokens ----

    /// Sessions are not kept: always `Session <id> not found`.
    pub fn get_session(&self, user_id: i32, session_id: i32) -> (r: Result<Session, DbError>)
        ensures
            r matches Err(DbError::NotFound(m)) && m@ == "Session "@ + decimal_int(session_id as int) + " not found"@,
    {
        Err(not_found_with_id("Session ", session_id as i64, " not found"))
    }

    /// Sessions are not kept: the session is handed back.
    pub fn create_session(&self, session: Session) -> (r: Result<Session, DbError>)
        ensures
            r == Ok::<Session, DbError>(session),
    {
        Ok(session)
    }

    /// Sessions are not kept: the call is accepted.
    pub fn expire_session(&self, user_id: i32, session_id: i32) -> (r: Result<(), DbError>)
        ensures
            r is Ok,
    {
        Ok(())
    }

    /// Sessions are not kept: the call is accepted.
    pub fn verify_session(&self, user_id: i32, session_id: i32) -> (r: Result<(), DbError>)
        ensures
            r is Ok,
    {
        Ok(())
    }

    /// Sessions are not kept: the call is accepted.
    pub fn touch_session(&self, user_id: i32, session_id: i32) -> (r: Result<(), DbError>)
        ensures
            r is Ok,
    {
        Ok(())
    }

    /// Tokens are not kept: always none.
    pub fn get_api_tokens(&self, user_id: i32) -> (r: Result<Vec<APIToken>, DbError>)
        ensures
            r matches Ok(v) && v@.len() == 0,
    {
        Ok(Vec::new())
    }

    /// Tokens are not kept: the token is handed back.
    pub fn create_api_token(&self, token: APIToken) -> (r: Result<APIToken, DbError>)
        ensures
            r == Ok::<APIToken, DbError>(token),
    {
        Ok(token)
    }

    /// Tokens are not kept: always `Token <id> not found`.
    pub fn get_api_token(&self, token_id: i32) -> (r: Result<APIToken, DbError>)
        ensures
            r matches Err(DbError::NotFound(m)) && m@ == "Token "@ + decimal_int(token_id as int) + " not found"@,
    {
        Err(not_found_with_id("Token ", token_id as i64, " not found"))
    }

    /// Tokens are not kept: the call is accepted.
    pub fn expire_api_token(&self, user_id: i32, token_id: i32) -> (r: Result<(), DbError>)
        ensures
            r is Ok,
    {
        Ok(())
    }

    /// Tokens are not kept: the call is accepted.
    pub fn delete_api_token(&self, user_id: i32, token_id: i32) -> (r: Result<(), DbError>)
        ensures
            r is Ok,
    {
        Ok(())
    }

    // ---- events ----

    /// Events are not kept: always none.
    pub fn get_events(&self, project_id: Option<i32>, limit: usize) -> (r: Result<Vec<Event>, DbError>)
        ensures
            r matches Ok(v) && v@.len() == 0,
    {
        Ok(Vec::new())
    }

    /// Events are not kept: the event is handed back.
    pub fn create_event(&self, event: Event) -> (r: Result<Event, DbError>)
        ensures
            r == Ok::<Event, DbError>(event),
    {
        Ok(event)
    }

    // ---- audit log ----

    /// The audit log is not kept: recording an event reports `AuditLog not found`.
    #[allow(clippy::too_many_arguments)]
    pub fn create_audit_log(
        &self,
        project_id: Option<i64>,
        user_id: Option<i64>,
        username: Option<String>,
        action: &AuditAction,
        object_type: &AuditObjectType,
        object_id: Option<i64>,
        object_name: Option<String>,
        description: String,
        level: &AuditLevel,
        ip_address: Option<String>,
        user_agent: Option<String>,
        details: Option<serde_json::Value>,
    ) -> (r: Result<AuditLog, DbError>)
        ensures
            r matches Err(DbError::NotFound(m)) && m@ == "AuditLog not found"@,
    {
        Err(not_found("AuditLog not found"))
    }

    /// The audit log is not kept: no record is found.
    pub fn get_audit_log(&self, id: i64) -> (r: Result<AuditLog, DbError>)
        ensures
            r matches Err(DbError::NotFound(m)) && m@ == "AuditLog not found"@,
    {
        Err(not_found("AuditLog not found"))
    }

    /// The audit log is not kept: every search is empty, with limit and offset 0.
    pub fn search_audit_logs(&self, filter: &AuditLogFilter) -> (r: Result<AuditLogResult, DbError>)
        ensures
            r matches Ok(res) && res.records@.len() == 0 && res.total == 0 && res.limit == 0 && res.offset == 0,
    {
        Ok(AuditLogResult { records: Vec::new(), total: 0, limit: 0, offset: 0 })
    }

    /// The audit log is not kept: no records.
    pub fn get_audit_logs_by_project(&self, project_id: i64, limit: i64, offset: i64) -> (r: Result<Vec<AuditLog>, DbError>)
        ensures
            r matches Ok(v) && v@.len() == 0,
    {
        Ok(Vec::new())
    }

    /// The audit log is not kept: no records.
    pub fn get_audit_logs_by_user(&self, user_id: i64, limit: i64, offset: i64) -> (r: Result<Vec<AuditLog>, DbError>)
        ensures
            r matches Ok(v) && v@.len() == 0,
    {
        Ok(Vec::new())
    }

    /// The audit log is not kept: no records.
    pub fn get_audit_logs_by_action(&self, action: &AuditAction, limit: i64, offset: i64) -> (r: Result<Vec<AuditLog>, DbError>)
        ensures
            r matches Ok(v) && v@.len() == 0,
    {
        Ok(Vec::new())
    }

    /// The audit log is not kept: nothing is removed.
    pub fn delete_audit_logs_before(&self, before: Timestamp) -> (r: Result<u64, DbError>)
        ensures
            r == Ok::<u64, DbError>(0),
    {
        Ok(0)
    }

    /// The audit log is not kept: nothing is removed.
    pub fn clear_audit_log(&self) -> (r: Result<u64, DbError>)
        ensures
            r == Ok::<u64, DbError>(0),
    {
        Ok(0)
    }
}

/// What `create_user` or `update_user` stores is what `get_user` then gives
/// for its id, and every other user reads as before.
pub proof fn law_user_read_after_write(before: MockStore, after: MockStore, user: User, other: i32)
    requires
        after.users() == before.users().insert(user.id, user),
    ensures
        after.users().contains_key(user.id),
        after.users()[user.id] == user,
        other != user.id ==> {
            &&& after.users().contains_key(other) == before.users().contains_key(other)
            &&& before.users().contains_key(other) ==> after.users()[other] == before.users()[other]
        },
{
}

/// After `delete_user`, `get_user` reports the id as not found, and every
/// other user reads as before.
pub proof fn law_user_gone_after_delete(before: MockStore, after: MockStore, id: i32, other: i32)
    requires
        after.users() == before.users().remove(id),
    ensures
        !after.users().contains_key(id),
        other != id ==> {
            &&& after.users().contains_key(other) == before.users().contains_key(other)
            &&& before.users().contains_key(other) ==> after.users()[other] == before.users()[other]
        },
{
}

/// What `create_task` or `update_task` stores is what `get_task` then gives
/// for its id, and after `delete_task` the id is not found.
pub proof fn law_task_read_after_write(before: MockStore, task: Task)
    ensures
        before.tasks().insert(task.id, task).contains_key(task.id),
        before.tasks().insert(task.id, task)[task.id] == task,
        !before.tasks().insert(task.id, task).remove(task.id).contains_key(task.id),
{
}

/// A template is given out only within its own project: after it is stored,
/// `get_template` finds it in that project and in no other.
pub proof fn law_template_scoped(before: MockStore, template: Template, project_id: i32)
    ensures
        ({
            let m = before.templates().insert(template.id, template);
            (m.contains_key(template.id) && m[template.id].project_id == project_id) <==> template.project_id == project_id
        }),
{
}

/// Creating a project without an id (0) gives it one more than the number
/// of projects stored, and `get_project` then finds it under that id.
pub proof fn law_project_created_id(before: MockStore, project: Project)
    requires
        project.id == 0,
        before.projects().len() < i32::MAX,
    ensures
        ({
            let id = assigned_id(project.id, before.projects().len());
            let p = Project { id, ..project };
            &&& id == before.projects().len() + 1
            &&& before.projects().insert(id, p).contains_key(id)
            &&& before.projects().insert(id, p)[id] == p
        }),
{
}

} // verus!
