//! The entities kept by the stores.
use vstd::prelude::*;
use crate::table::{Duplicate, Record};
use crate::time::Timestamp;

verus! {

/// An equal copy of an optional string.
pub fn copy_opt_string(o: &Option<String>) -> (r: Option<String>)
    ensures
        r == *o,
{
    match o {
        Some(s) => Some(s.clone()),
        None => None,
    }
}

/// The second factor of a user's login.
pub struct UserTotp {
    pub id: i32,
    pub user_id: i32,
    pub url: String,
    pub recovery_hash: String,
    pub created: Timestamp,
}

impl UserTotp {
    /// An equal copy.
    pub fn duplicate(&self) -> (r: Self)
        ensures
            r == *self,
    {
        UserTotp {
            id: self.id,
            user_id: self.user_id,
            url: self.url.clone(),
            recovery_hash: self.recovery_hash.clone(),
            created: self.created,
        }
    }
}

/// An equal copy of an optional second factor.
pub fn copy_opt_totp(o: &Option<UserTotp>) -> (r: Option<UserTotp>)
    ensures
        r == *o,
{
    match o {
        Some(t) => Some(t.duplicate()),
        None => None,
    }
}

/// A user account.
pub struct User {
    pub id: i32,
    pub created: Timestamp,
    pub username: String,
    pub name: String,
    pub email: String,
    /// The bcrypt hash of the password; empty for external users.
    pub password: String,
    pub admin: bool,
    pub external: bool,
    pub alert: bool,
    pub pro: bool,
    pub totp: Option<UserTotp>,
    pub email_otp: Option<String>,
}

impl Record for User {
    open spec fn key(&self) -> i32 {
        self.id
    }

    fn id(&self) -> (r: i32) {
        self.id
    }
}

impl Duplicate for User {
    fn duplicate(&self) -> (r: Self) {
        User {
            id: self.id,
            created: self.created,
            username: self.username.clone(),
            name: self.name.clone(),
            email: self.email.clone(),
            password: self.password.clone(),
            admin: self.admin,
            external: self.external,
            alert: self.alert,
            pro: self.pro,
            totp: copy_opt_totp(&self.totp),
            email_otp: copy_opt_string(&self.email_otp),
        }
    }
}

/// A user's membership in a project.
pub struct ProjectUser {
    pub id: i32,
    pub project_id: i32,
    pub user_id: i32,
    pub role: String,
}

/// A project grouping templates, tasks and their resources.
pub struct Project {
    pub id: i32,
    pub created: Timestamp,
    pub name: String,
    pub alert: bool,
    pub alert_chat: Option<String>,
    pub max_parallel_tasks: i32,
    pub project_type: String,
    pub default_secret_storage_id: Option<i32>,
}

impl Record for Project {
    open spec fn key(&self) -> i32 {
        self.id
    }

    fn id(&self) -> (r: i32) {
        self.id
    }
}

impl Duplicate for Project {
    fn duplicate(&self) -> (r: Self) {
        Project {
            id: self.id,
            created: self.created,
            name: self.name.clone(),
            alert: self.alert,
            alert_chat: copy_opt_string(&self.alert_chat),
            max_parallel_tasks: self.max_parallel_tasks,
            project_type: self.project_type.clone(),
            default_secret_storage_id: self.default_secret_storage_id,
        }
    }
}

/// A task template of a project.
pub struct Template {
    pub id: i32,
    pub created: Timestamp,
    pub project_id: i32,
    pub name: String,
    pub playbook: String,
    pub description: Option<String>,
    pub arguments: Option<String>,
    pub template_type: String,
    pub inventory_id: Option<i32>,
    pub repository_id: Option<i32>,
    pub environment_id: Option<i32>,
    pub view_id: Option<i32>,
}

impl Record for Template {
    open spec fn key(&self) -> i32 {
        self.id
    }

    fn id(&self) -> (r: i32) {
        self.id
    }
}

impl Duplicate for Template {
    fn duplicate(&self) -> (r: Self) {
        Template {
            id: self.id,
            created: self.created,
            project_id: self.project_id,
            name: self.name.clone(),
            playbook: self.playbook.clone(),
            description: copy_opt_string(&self.description),
            arguments: copy_opt_string(&self.arguments),
            template_type: self.template_type.clone(),
            inventory_id: self.inventory_id,
            repository_id: self.repository_id,
            environment_id: self.environment_id,
            view_id: self.view_id,
        }
    }
}

/// One run of a template.
pub struct Task {
    pub id: i32,
    pub created: Timestamp,
    pub project_id: i32,
    pub template_id: i32,
    pub status: String,
    pub message: String,
    pub commit_hash: Option<String>,
    pub commit_message: Option<String>,
    pub version: Option<String>,
    pub inventory_id: Option<i32>,
    pub repository_id: Option<i32>,
    pub environment_id: Option<i32>,
    pub user_id: Option<i32>,
}

impl Record for Task {
    open spec fn key(&self) -> i32 {
        self.id
    }

    fn id(&self) -> (r: i32) {
        self.id
    }
}

impl Duplicate for Task {
    fn duplicate(&self) -> (r: Self) {
        Task {
            id: self.id,
            created: self.created,
            project_id: self.project_id,
            template_id: self.template_id,
            status: self.status.clone(),
            message: self.message.clone(),
            commit_hash: copy_opt_string(&self.commit_hash),
            commit_message: copy_opt_string(&self.commit_message),
            version: copy_opt_string(&self.version),
            inventory_id: self.inventory_id,
            repository_id: self.repository_id,
            environment_id: self.environment_id,
            user_id: self.user_id,
        }
    }
}

/// A task together with what its listing shows of its template.
pub struct TaskWithTpl {
    pub task: Task,
    pub tpl_playbook: Option<String>,
    pub tpl_type: Option<String>,
    pub tpl_app: Option<String>,
    pub user_name: Option<String>,
    /// The template's name; empty where the template is unknown.
    pub template_name: String,
}

/// An event of the activity log.
pub struct Event {
    pub id: i32,
    pub object_type: String,
    pub object_id: i32,
    pub project_id: Option<i32>,
    pub project_name: Option<String>,
    pub user_id: Option<i32>,
    pub description: String,
    pub created: Timestamp,
}

/// A line of a task's output.
pub struct TaskOutput {
    pub id: i32,
    pub task_id: i32,
    pub output: String,
    pub time: Timestamp,
    pub stage_id: Option<i32>,
}

/// A stage of a task's run.
pub struct TaskStage {
    pub id: i32,
    pub task_id: i32,
    pub start: Option<Timestamp>,
    pub end: Option<Timestamp>,
    pub stage_type: String,
}

/// A stage of a task's run as the stage listing shows it.
pub struct TaskStageWithResult {
    pub id: i32,
    pub task_id: i32,
    pub start: Option<Timestamp>,
    pub end: Option<Timestamp>,
    pub stage_type: String,
}

/// A cron schedule that starts a template.
pub struct Schedule {
    pub id: i32,
    pub created: Timestamp,
    pub project_id: i32,
    pub template_id: i32,
    pub cron_format: String,
    pub active: bool,
    pub last_commit_hash: Option<String>,
    pub repository_id: Option<i32>,
}

/// How a session's second factor is checked.
#[derive(Clone, Copy, Debug, PartialEq, Eq, Structural)]
pub enum SessionVerificationMethod {
    Disabled,
    Totp,
    EmailOtp,
}

/// A login session of a user.
pub struct Session {
    pub id: i32,
    pub user_id: i32,
    pub created: Timestamp,
    pub last_active: Timestamp,
    pub ip: String,
    pub user_agent: String,
    pub expired: bool,
    pub verification_method: SessionVerificationMethod,
    pub verified: bool,
}

/// An API token of a user.
pub struct APIToken {
    pub id: String,
    pub user_id: i32,
    pub created: Timestamp,
    pub expired: bool,
}

impl Duplicate for Event {
    fn duplicate(&self) -> (r: Self) {
        Event {
            id: self.id,
            object_type: self.object_type.clone(),
            object_id: self.object_id,
            project_id: self.project_id,
            project_name: copy_opt_string(&self.project_name),
            user_id: self.user_id,
            description: self.description.clone(),
            created: self.created,
        }
    }
}

impl Duplicate for TaskOutput {
    fn duplicate(&self) -> (r: Self) {
        TaskOutput {
            id: self.id,
            task_id: self.task_id,
            output: self.output.clone(),
            time: self.time,
            stage_id: self.stage_id,
        }
    }
}

impl Duplicate for TaskStage {
    fn duplicate(&self) -> (r: Self) {
        TaskStage {
            id: self.id,
            task_id: self.task_id,
            start: self.start,
            end: self.end,
            stage_type: self.stage_type.clone(),
        }
    }
}

impl Duplicate for Schedule {
    fn duplicate(&self) -> (r: Self) {
        Schedule {
            id: self.id,
            created: self.created,
            project_id: self.project_id,
            template_id: self.template_id,
            cron_format: self.cron_format.clone(),
            active: self.active,
            last_commit_hash: copy_opt_string(&self.last_commit_hash),
            repository_id: self.repository_id,
        }
    }
}

/// A schedule together with the name of the template it starts.
pub struct ScheduleWithTpl {
    pub schedule: Schedule,
    pub template_name: String,
}

impl Duplicate for Session {
    fn duplicate(&self) -> (r: Self) {
        Session {
            id: self.id,
            user_id: self.user_id,
            created: self.created,
            last_active: self.last_active,
            ip: self.ip.clone(),
            user_agent: self.user_agent.clone(),
            expired: self.expired,
            verification_method: self.verification_method,
            verified: self.verified,
        }
    }
}

impl Duplicate for APIToken {
    fn duplicate(&self) -> (r: Self) {
        APIToken { id: self.id.clone(), user_id: self.user_id, created: self.created, expired: self.expired }
    }
}

/// Paging and filtering of a listing.
pub struct RetrieveQueryParams {
    /// How many stored records are passed over before the listing starts.
    pub offset: usize,
    /// The listing stops once it holds more than this many records; no limit when absent.
    pub count: Option<usize>,
    pub filter: Option<String>,
    pub sort_by: Option<String>,
    pub sort_inverted: bool,
}

/// A restriction of a template listing to one view.
pub struct TemplateFilter {
    pub view_id: Option<i32>,
}

} // verus!
