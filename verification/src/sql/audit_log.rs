//! The audit log: the names its enumerations are stored under, the
//! conversion of stored rows and the queries of a filtered search.
use vstd::prelude::*;
use crate::error::DbError;
use crate::text::{append_chars, chars_equal, chars_of, contains_seq, decimal_int, double_quotes, join_chars, join_with, lowercase, occurs_at, push_doubling_quotes, push_int, str_equal, string_of, to_lowercase};
use crate::time::{Timestamp, format_utc_timestamp, utc_timestamp_text};

verus! {

/// What an audited event did.
#[derive(Clone, Copy, Debug, PartialEq, Eq, Structural)]
pub enum AuditAction {
    Login,
    Logout,
    LoginFailed,
    PasswordChanged,
    PasswordResetRequested,
    TwoFactorEnabled,
    TwoFactorDisabled,
    UserCreated,
    UserUpdated,
    UserDeleted,
    UserJoinedProject,
    UserLeftProject,
    UserRoleChanged,
    ProjectCreated,
    ProjectUpdated,
    ProjectDeleted,
    TaskCreated,
    TaskStarted,
    TaskCompleted,
    TaskFailed,
    TaskStopped,
    TaskDeleted,
    TemplateCreated,
    TemplateUpdated,
    TemplateDeleted,
    TemplateRun,
    InventoryCreated,
    InventoryUpdated,
    InventoryDeleted,
    RepositoryCreated,
    RepositoryUpdated,
    RepositoryDeleted,
    EnvironmentCreated,
    EnvironmentUpdated,
    EnvironmentDeleted,
    AccessKeyCreated,
    AccessKeyUpdated,
    AccessKeyDeleted,
    IntegrationCreated,
    IntegrationUpdated,
    IntegrationDeleted,
    WebhookTriggered,
    ScheduleCreated,
    ScheduleUpdated,
    ScheduleDeleted,
    ScheduleTriggered,
    RunnerCreated,
    RunnerUpdated,
    RunnerDeleted,
    RunnerConnected,
    RunnerDisconnected,
    ConfigChanged,
    BackupCreated,
    RestorePerformed,
    MigrationApplied,
    Other,
}

/// The text under which a action is stored.
pub open spec fn action_name(x: AuditAction) -> Seq<char> {
    match x {
        AuditAction::Login => "login"@,
        AuditAction::Logout => "logout"@,
        AuditAction::LoginFailed => "login_failed"@,
        AuditAction::PasswordChanged => "password_changed"@,
        AuditAction::PasswordResetRequested => "password_reset_requested"@,
        AuditAction::TwoFactorEnabled => "two_factor_enabled"@,
        AuditAction::TwoFactorDisabled => "two_factor_disabled"@,
        AuditAction::UserCreated => "user_created"@,
        AuditAction::UserUpdated => "user_updated"@,
        AuditAction::UserDeleted => "user_deleted"@,
        AuditAction::UserJoinedProject => "user_joined_project"@,
        AuditAction::UserLeftProject => "user_left_project"@,
        AuditAction::UserRoleChanged => "user_role_changed"@,
        AuditAction::ProjectCreated => "project_created"@,
        AuditAction::ProjectUpdated => "project_updated"@,
        AuditAction::ProjectDeleted => "project_deleted"@,
        AuditAction::TaskCreated => "task_created"@,
        AuditAction::TaskStarted => "task_started"@,
        AuditAction::TaskCompleted => "task_completed"@,
        AuditAction::TaskFailed => "task_failed"@,
        AuditAction::TaskStopped => "task_stopped"@,
        AuditAction::TaskDeleted => "task_deleted"@,
        AuditAction::TemplateCreated => "template_created"@,
        AuditAction::TemplateUpdated => "template_updated"@,
        AuditAction::TemplateDeleted => "template_deleted"@,
        AuditAction::TemplateRun => "template_run"@,
        AuditAction::InventoryCreated => "inventory_created"@,
        AuditAction::InventoryUpdated => "inventory_updated"@,
        AuditAction::InventoryDeleted => "inventory_deleted"@,
        AuditAction::RepositoryCreated => "repository_created"@,
        AuditAction::RepositoryUpdated => "repository_updated"@,
        AuditAction::RepositoryDeleted => "repository_deleted"@,
        AuditAction::EnvironmentCreated => "environment_created"@,
        AuditAction::EnvironmentUpdated => "environment_updated"@,
        AuditAction::EnvironmentDeleted => "environment_deleted"@,
        AuditAction::AccessKeyCreated => "access_key_created"@,
        AuditAction::AccessKeyUpdated => "access_key_updated"@,
        AuditAction::AccessKeyDeleted => "access_key_deleted"@,
        AuditAction::IntegrationCreated => "integration_created"@,
        AuditAction::IntegrationUpdated => "integration_updated"@,
        AuditAction::IntegrationDeleted => "integration_deleted"@,
        AuditAction::WebhookTriggered => "webhook_triggered"@,
        AuditAction::ScheduleCreated => "schedule_created"@,
        AuditAction::ScheduleUpdated => "schedule_updated"@,
        AuditAction::ScheduleDeleted => "schedule_deleted"@,
        AuditAction::ScheduleTriggered => "schedule_triggered"@,
        AuditAction::RunnerCreated => "runner_created"@,
        AuditAction::RunnerUpdated => "runner_updated"@,
        AuditAction::RunnerDeleted => "runner_deleted"@,
        AuditAction::RunnerConnected => "runner_connected"@,
        AuditAction::RunnerDisconnected => "runner_disconnected"@,
        AuditAction::ConfigChanged => "config_changed"@,
        AuditAction::BackupCreated => "backup_created"@,
        AuditAction::RestorePerformed => "restore_performed"@,
        AuditAction::MigrationApplied => "migration_applied"@,
        AuditAction::Other => "other"@,
    }
}

/// The action that stored text denotes; unknown text gives `Other`.
pub open spec fn action_from_name(s: Seq<char>) -> AuditAction {
    if s == "login"@ {
        AuditAction::Login
    } else if s == "logout"@ {
        AuditAction::Logout
    } else if s == "login_failed"@ {
        AuditAction::LoginFailed
    } else if s == "password_changed"@ {
        AuditAction::PasswordChanged
    } else if s == "password_reset_requested"@ {
        AuditAction::PasswordResetRequested
    } else if s == "two_factor_enabled"@ {
        AuditAction::TwoFactorEnabled
    } else if s == "two_factor_disabled"@ {
        AuditAction::TwoFactorDisabled
    } else if s == "user_created"@ {
        AuditAction::UserCreated
    } else if s == "user_updated"@ {
        AuditAction::UserUpdated
    } else if s == "user_deleted"@ {
        AuditAction::UserDeleted
    } else if s == "user_joined_project"@ {
        AuditAction::UserJoinedProject
    } else if s == "user_left_project"@ {
        AuditAction::UserLeftProject
    } else if s == "user_role_changed"@ {
        AuditAction::UserRoleChanged
    } else if s == "project_created"@ {
        AuditAction::ProjectCreated
    } else if s == "project_updated"@ {
        AuditAction::ProjectUpdated
    } else if s == "project_deleted"@ {
        AuditAction::ProjectDeleted
    } else if s == "task_created"@ {
        AuditAction::TaskCreated
    } else if s == "task_started"@ {
        AuditAction::TaskStarted
    } else if s == "task_completed"@ {
        AuditAction::TaskCompleted
    } else if s == "task_failed"@ {
        AuditAction::TaskFailed
    } else if s == "task_stopped"@ {
        AuditAction::TaskStopped
    } else if s == "task_deleted"@ {
        AuditAction::TaskDeleted
    } else if s == "template_created"@ {
        AuditAction::TemplateCreated
    } else if s == "template_updated"@ {
        AuditAction::TemplateUpdated
    } else if s == "template_deleted"@ {
        AuditAction::TemplateDeleted
    } else if s == "template_run"@ {
        AuditAction::TemplateRun
    } else if s == "inventory_created"@ {
        AuditAction::InventoryCreated
    } else if s == "inventory_updated"@ {
        AuditAction::InventoryUpdated
    } else if s == "inventory_deleted"@ {
        AuditAction::InventoryDeleted
    } else if s == "repository_created"@ {
        AuditAction::RepositoryCreated
    } else if s == "repository_updated"@ {
        AuditAction::RepositoryUpdated
    } else if s == "repository_deleted"@ {
        AuditAction::RepositoryDeleted
    } else if s == "environment_created"@ {
        AuditAction::EnvironmentCreated
    } else if s == "environment_updated"@ {
        AuditAction::EnvironmentUpdated
    } else if s == "environment_deleted"@ {
        AuditAction::EnvironmentDeleted
    } else if s == "access_key_created"@ {
        AuditAction::AccessKeyCreated
    } else if s == "access_key_updated"@ {
        AuditAction::AccessKeyUpdated
    } else if s == "access_key_deleted"@ {
        AuditAction::AccessKeyDeleted
    } else if s == "integration_created"@ {
        AuditAction::IntegrationCreated
    } else if s == "integration_updated"@ {
        AuditAction::IntegrationUpdated
    } else if s == "integration_deleted"@ {
        AuditAction::IntegrationDeleted
    } else if s == "webhook_triggered"@ {
        AuditAction::WebhookTriggered
    } else if s == "schedule_created"@ {
        AuditAction::ScheduleCreated
    } else if s == "schedule_updated"@ {
        AuditAction::ScheduleUpdated
    } else if s == "schedule_deleted"@ {
        AuditAction::ScheduleDeleted
    } else if s == "schedule_triggered"@ {
        AuditAction::ScheduleTriggered
    } else if s == "runner_created"@ {
        AuditAction::RunnerCreated
    } else if s == "runner_updated"@ {
        AuditAction::RunnerUpdated
    } else if s == "runner_deleted"@ {
        AuditAction::RunnerDeleted
    } else if s == "runner_connected"@ {
        AuditAction::RunnerConnected
    } else if s == "runner_disconnected"@ {
        AuditAction::RunnerDisconnected
    } else if s == "config_changed"@ {
        AuditAction::ConfigChanged
    } else if s == "backup_created"@ {
        AuditAction::BackupCreated
    } else if s == "restore_performed"@ {
        AuditAction::RestorePerformed
    } else if s == "migration_applied"@ {
        AuditAction::MigrationApplied
    } else {
        AuditAction::Other
    }
}

impl AuditAction {
    /// The text under which this action is stored.
    pub fn name(&self) -> (s: &'static str)
        ensures
            s@ == action_name(*self),
    {
        match self {
            AuditAction::Login => "login",
            AuditAction::Logout => "logout",
            AuditAction::LoginFailed => "login_failed",
            AuditAction::PasswordChanged => "password_changed",
            AuditAction::PasswordResetRequested => "password_reset_requested",
            AuditAction::TwoFactorEnabled => "two_factor_enabled",
            AuditAction::TwoFactorDisabled => "two_factor_disabled",
            AuditAction::UserCreated => "user_created",
            AuditAction::UserUpdated => "user_updated",
            AuditAction::UserDeleted => "user_deleted",
            AuditAction::UserJoinedProject => "user_joined_project",
            AuditAction::UserLeftProject => "user_left_project",
            AuditAction::UserRoleChanged => "user_role_changed",
            AuditAction::ProjectCreated => "project_created",
            AuditAction::ProjectUpdated => "project_updated",
            AuditAction::ProjectDeleted => "project_deleted",
            AuditAction::TaskCreated => "task_created",
            AuditAction::TaskStarted => "task_started",
            AuditAction::TaskCompleted => "task_completed",
            AuditAction::TaskFailed => "task_failed",
            AuditAction::TaskStopped => "task_stopped",
            AuditAction::TaskDeleted => "task_deleted",
            AuditAction::TemplateCreated => "template_created",
            AuditAction::TemplateUpdated => "template_updated",
            AuditAction::TemplateDeleted => "template_deleted",
            AuditAction::TemplateRun => "template_run",
            AuditAction::InventoryCreated => "inventory_created",
            AuditAction::InventoryUpdated => "inventory_updated",
            AuditAction::InventoryDeleted => "inventory_deleted",
            AuditAction::RepositoryCreated => "repository_created",
            AuditAction::RepositoryUpdated => "repository_updated",
            AuditAction::RepositoryDeleted => "repository_deleted",
            AuditAction::EnvironmentCreated => "environment_created",
            AuditAction::EnvironmentUpdated => "environment_updated",
            AuditAction::EnvironmentDeleted => "environment_deleted",
            AuditAction::AccessKeyCreated => "access_key_created",
            AuditAction::AccessKeyUpdated => "access_key_updated",
            AuditAction::AccessKeyDeleted => "access_key_deleted",
            AuditAction::IntegrationCreated => "integration_created",
            AuditAction::IntegrationUpdated => "integration_updated",
            AuditAction::IntegrationDeleted => "integration_deleted",
            AuditAction::WebhookTriggered => "webhook_triggered",
            AuditAction::ScheduleCreated => "schedule_created",
            AuditAction::ScheduleUpdated => "schedule_updated",
            AuditAction::ScheduleDeleted => "schedule_deleted",
            AuditAction::ScheduleTriggered => "schedule_triggered",
            AuditAction::RunnerCreated => "runner_created",
            AuditAction::RunnerUpdated => "runner_updated",
            AuditAction::RunnerDeleted => "runner_deleted",
            AuditAction::RunnerConnected => "runner_connected",
            AuditAction::RunnerDisconnected => "runner_disconnected",
            AuditAction::ConfigChanged => "config_changed",
            AuditAction::BackupCreated => "backup_created",
            AuditAction::RestorePerformed => "restore_performed",
            AuditAction::MigrationApplied => "migration_applied",
            AuditAction::Other => "other",
        }
    }

    /// The action that stored text denotes; unknown text gives `Other`.
    pub fn from_name(s: &str) -> (r: AuditAction)
        ensures
            r == action_from_name(s@),
    {
        let c = chars_of(s);
        if chars_equal(&c, &chars_of("login")) {
            AuditAction::Login
        } else if chars_equal(&c, &chars_of("logout")) {
            AuditAction::Logout
        } else if chars_equal(&c, &chars_of("login_failed")) {
            AuditAction::LoginFailed
        } else if chars_equal(&c, &chars_of("password_changed")) {
            AuditAction::PasswordChanged
        } else if chars_equal(&c, &chars_of("password_reset_requested")) {
            AuditAction::PasswordResetRequested
        } else if chars_equal(&c, &chars_of("two_factor_enabled")) {
            AuditAction::TwoFactorEnabled
        } else if chars_equal(&c, &chars_of("two_factor_disabled")) {
            AuditAction::TwoFactorDisabled
        } else if chars_equal(&c, &chars_of("user_created")) {
            AuditAction::UserCreated
        } else if chars_equal(&c, &chars_of("user_updated")) {
            AuditAction::UserUpdated
        } else if chars_equal(&c, &chars_of("user_deleted")) {
            AuditAction::UserDeleted
        } else if chars_equal(&c, &chars_of("user_joined_project")) {
            AuditAction::UserJoinedProject
        } else if chars_equal(&c, &chars_of("user_left_project")) {
            AuditAction::UserLeftProject
        } else if chars_equal(&c, &chars_of("user_role_changed")) {
            AuditAction::UserRoleChanged
        } else if chars_equal(&c, &chars_of("project_created")) {
            AuditAction::ProjectCreated
        } else if chars_equal(&c, &chars_of("project_updated")) {
            AuditAction::ProjectUpdated
        } else if chars_equal(&c, &chars_of("project_deleted")) {
            AuditAction::ProjectDeleted
        } else if chars_equal(&c, &chars_of("task_created")) {
            AuditAction::TaskCreated
        } else if chars_equal(&c, &chars_of("task_started")) {
            AuditAction::TaskStarted
        } else if chars_equal(&c, &chars_of("task_completed")) {
            AuditAction::TaskCompleted
        } else if chars_equal(&c, &chars_of("task_failed")) {
            AuditAction::TaskFailed
        } else if chars_equal(&c, &chars_of("task_stopped")) {
            AuditAction::TaskStopped
        } else if chars_equal(&c, &chars_of("task_deleted")) {
            AuditAction::TaskDeleted
        } else if chars_equal(&c, &chars_of("template_created")) {
            AuditAction::TemplateCreated
        } else if chars_equal(&c, &chars_of("template_updated")) {
            AuditAction::TemplateUpdated
        } else if chars_equal(&c, &chars_of("template_deleted")) {
            AuditAction::TemplateDeleted
        } else if chars_equal(&c, &chars_of("template_run")) {
            AuditAction::TemplateRun
        } else if chars_equal(&c, &chars_of("inventory_created")) {
            AuditAction::InventoryCreated
        } else if chars_equal(&c, &chars_of("inventory_updated")) {
            AuditAction::InventoryUpdated
        } else if chars_equal(&c, &chars_of("inventory_deleted")) {
            AuditAction::InventoryDeleted
        } else if chars_equal(&c, &chars_of("repository_created")) {
            AuditAction::RepositoryCreated
        } else if chars_equal(&c, &chars_of("repository_updated")) {
            AuditAction::RepositoryUpdated
        } else if chars_equal(&c, &chars_of("repository_deleted")) {
            AuditAction::RepositoryDeleted
        } else if chars_equal(&c, &chars_of("environment_created")) {
            AuditAction::EnvironmentCreated
        } else if chars_equal(&c, &chars_of("environment_updated")) {
            AuditAction::EnvironmentUpdated
        } else if chars_equal(&c, &chars_of("environment_deleted")) {
            AuditAction::EnvironmentDeleted
        } else if chars_equal(&c, &chars_of("access_key_created")) {
            AuditAction::AccessKeyCreated
        } else if chars_equal(&c, &chars_of("access_key_updated")) {
            AuditAction::AccessKeyUpdated
        } else if chars_equal(&c, &chars_of("access_key_deleted")) {
            AuditAction::AccessKeyDeleted
        } else if chars_equal(&c, &chars_of("integration_created")) {
            AuditAction::IntegrationCreated
        } else if chars_equal(&c, &chars_of("integration_updated")) {
            AuditAction::IntegrationUpdated
        } else if chars_equal(&c, &chars_of("integration_deleted")) {
            AuditAction::IntegrationDeleted
        } else if chars_equal(&c, &chars_of("webhook_triggered")) {
            AuditAction::WebhookTriggered
        } else if chars_equal(&c, &chars_of("schedule_created")) {
            AuditAction::ScheduleCreated
        } else if chars_equal(&c, &chars_of("schedule_updated")) {
            AuditAction::ScheduleUpdated
        } else if chars_equal(&c, &chars_of("schedule_deleted")) {
            AuditAction::ScheduleDeleted
        } else if chars_equal(&c, &chars_of("schedule_triggered")) {
            AuditAction::ScheduleTriggered
        } else if chars_equal(&c, &chars_of("runner_created")) {
            AuditAction::RunnerCreated
        } else if chars_equal(&c, &chars_of("runner_updated")) {
            AuditAction::RunnerUpdated
        } else if chars_equal(&c, &chars_of("runner_deleted")) {
            AuditAction::RunnerDeleted
        } else if chars_equal(&c, &chars_of("runner_connected")) {
            AuditAction::RunnerConnected
        } else if chars_equal(&c, &chars_of("runner_disconnected")) {
            AuditAction::RunnerDisconnected
        } else if chars_equal(&c, &chars_of("config_changed")) {
            AuditAction::ConfigChanged
        } else if chars_equal(&c, &chars_of("backup_created")) {
            AuditAction::BackupCreated
        } else if chars_equal(&c, &chars_of("restore_performed")) {
            AuditAction::RestorePerformed
        } else if chars_equal(&c, &chars_of("migration_applied")) {
            AuditAction::MigrationApplied
        } else {
            AuditAction::Other
        }
    }
}

/// The kind of object an audited event concerns.
#[derive(Clone, Copy, Debug, PartialEq, Eq, Structural)]
pub enum AuditObjectType {
    User,
    Project,
    Task,
    Template,
    Inventory,
    Repository,
    Environment,
    AccessKey,
    Integration,
    Schedule,
    Runner,
    View,
    Secret,
    System,
    Other,
}

/// The text under which a object_type is stored.
pub open spec fn object_type_name(x: AuditObjectType) -> Seq<char> {
    match x {
        AuditObjectType::User => "user"@,
        AuditObjectType::Project => "project"@,
        AuditObjectType::Task => "task"@,
        AuditObjectType::Template => "template"@,
        AuditObjectType::Inventory => "inventory"@,
        AuditObjectType::Repository => "repository"@,
        AuditObjectType::Environment => "environment"@,
        AuditObjectType::AccessKey => "access_key"@,
        AuditObjectType::Integration => "integration"@,
        AuditObjectType::Schedule => "schedule"@,
        AuditObjectType::Runner => "runner"@,
        AuditObjectType::View => "view"@,
        AuditObjectType::Secret => "secret"@,
        AuditObjectType::System => "system"@,
        AuditObjectType::Other => "other"@,
    }
}

/// The object_type that stored text denotes; unknown text gives `Other`.
pub open spec fn object_type_from_name(s: Seq<char>) -> AuditObjectType {
    if s == "user"@ {
        AuditObjectType::User
    } else if s == "project"@ {
        AuditObjectType::Project
    } else if s == "task"@ {
        AuditObjectType::Task
    } else if s == "template"@ {
        AuditObjectType::Template
    } else if s == "inventory"@ {
        AuditObjectType::Inventory
    } else if s == "repository"@ {
        AuditObjectType::Repository
    } else if s == "environment"@ {
        AuditObjectType::Environment
    } else if s == "access_key"@ {
        AuditObjectType::AccessKey
    } else if s == "integration"@ {
        AuditObjectType::Integration
    } else if s == "schedule"@ {
        AuditObjectType::Schedule
    } else if s == "runner"@ {
        AuditObjectType::Runner
    } else if s == "view"@ {
        AuditObjectType::View
    } else if s == "secret"@ {
        AuditObjectType::Secret
    } else if s == "system"@ {
        AuditObjectType::System
    } else {
        AuditObjectType::Other
    }
}

impl AuditObjectType {
    /// The text under which this object_type is stored.
    pub fn name(&self) -> (s: &'static str)
        ensures
            s@ == object_type_name(*self),
    {
        match self {
            AuditObjectType::User => "user",
            AuditObjectType::Project => "project",
            AuditObjectType::Task => "task",
            AuditObjectType::Template => "template",
            AuditObjectType::Inventory => "inventory",
            AuditObjectType::Repository => "repository",
            AuditObjectType::Environment => "environment",
            AuditObjectType::AccessKey => "access_key",
            AuditObjectType::Integration => "integration",
            AuditObjectType::Schedule => "schedule",
            AuditObjectType::Runner => "runner",
            AuditObjectType::View => "view",
            AuditObjectType::Secret => "secret",
            AuditObjectType::System => "system",
            AuditObjectType::Other => "other",
        }
    }

    /// The object_type that stored text denotes; unknown text gives `Other`.
    pub fn from_name(s: &str) -> (r: AuditObjectType)
        ensures
            r == object_type_from_name(s@),
    {
        let c = chars_of(s);
        if chars_equal(&c, &chars_of("user")) {
            AuditObjectType::User
        } else if chars_equal(&c, &chars_of("project")) {
            AuditObjectType::Project
        } else if chars_equal(&c, &chars_of("task")) {
            AuditObjectType::Task
        } else if chars_equal(&c, &chars_of("template")) {
            AuditObjectType::Template
        } else if chars_equal(&c, &chars_of("inventory")) {
            AuditObjectType::Inventory
        } else if chars_equal(&c, &chars_of("repository")) {
            AuditObjectType::Repository
        } else if chars_equal(&c, &chars_of("environment")) {
            AuditObjectType::Environment
        } else if chars_equal(&c, &chars_of("access_key")) {
            AuditObjectType::AccessKey
        } else if chars_equal(&c, &chars_of("integration")) {
            AuditObjectType::Integration
        } else if chars_equal(&c, &chars_of("schedule")) {
            AuditObjectType::Schedule
        } else if chars_equal(&c, &chars_of("runner")) {
            AuditObjectType::Runner
        } else if chars_equal(&c, &chars_of("view")) {
            AuditObjectType::View
        } else if chars_equal(&c, &chars_of("secret")) {
            AuditObjectType::Secret
        } else if chars_equal(&c, &chars_of("system")) {
            AuditObjectType::System
        } else {
            AuditObjectType::Other
        }
    }
}

/// How serious an audited event is.
#[derive(Clone, Copy, Debug, PartialEq, Eq, Structural)]
pub enum AuditLevel {
    Info,
    Warning,
    Error,
    Critical,
}

/// The text under which a level is stored.
pub open spec fn level_name(x: AuditLevel) -> Seq<char> {
    match x {
        AuditLevel::Info => "info"@,
        AuditLevel::Warning => "warning"@,
        AuditLevel::Error => "error"@,
        AuditLevel::Critical => "critical"@,
    }
}

/// The level that stored text denotes; unknown text gives `Info`.
pub open spec fn level_from_name(s: Seq<char>) -> AuditLevel {
    if s == "info"@ {
        AuditLevel::Info
    } else if s == "warning"@ {
        AuditLevel::Warning
    } else if s == "error"@ {
        AuditLevel::Error
    } else if s == "critical"@ {
        AuditLevel::Critical
    } else {
        AuditLevel::Info
    }
}

impl AuditLevel {
    /// The text under which this level is stored.
    pub fn name(&self) -> (s: &'static str)
        ensures
            s@ == level_name(*self),
    {
        match self {
            AuditLevel::Info => "info",
            AuditLevel::Warning => "warning",
            AuditLevel::Error => "error",
            AuditLevel::Critical => "critical",
        }
    }

    /// The level that stored text denotes; unknown text gives `Info`.
    pub fn from_name(s: &str) -> (r: AuditLevel)
        ensures
            r == level_from_name(s@),
    {
        let c = chars_of(s);
        if chars_equal(&c, &chars_of("info")) {
            AuditLevel::Info
        } else if chars_equal(&c, &chars_of("warning")) {
            AuditLevel::Warning
        } else if chars_equal(&c, &chars_of("error")) {
            AuditLevel::Error
        } else if chars_equal(&c, &chars_of("critical")) {
            AuditLevel::Critical
        } else {
            AuditLevel::Info
        }
    }
}

/// A JSON document carried through unchanged.
#[verifier::external_type_specification]
#[verifier::external_body]
pub struct ExJsonValue(serde_json::Value);

/// An audit-log row as the database stores it, with its enumerations as text.
pub struct SqlAuditLog {
    pub id: i64,
    pub project_id: Option<i64>,
    pub user_id: Option<i64>,
    pub username: Option<String>,
    pub action: String,
    pub object_type: String,
    pub object_id: Option<i64>,
    pub object_name: Option<String>,
    pub description: String,
    pub level: String,
    pub ip_address: Option<String>,
    pub user_agent: Option<String>,
    pub details: Option<serde_json::Value>,
    pub created: Timestamp,
}

/// An audit-log record.
pub struct AuditLog {
    pub id: i64,
    pub project_id: Option<i64>,
    pub user_id: Option<i64>,
    pub username: Option<String>,
    pub action: AuditAction,
    pub object_type: AuditObjectType,
    pub object_id: Option<i64>,
    pub object_name: Option<String>,
    pub description: String,
    pub level: AuditLevel,
    pub ip_address: Option<String>,
    pub user_agent: Option<String>,
    pub details: Option<serde_json::Value>,
    pub created: Timestamp,
}

/// Turns a stored row into a record: the texts of the action, object type
/// and level are read back into their enumerations, everything else is kept.
pub fn convert_sql_audit_log(sql: SqlAuditLog) -> (r: AuditLog)
    ensures
        r.id == sql.id,
        r.project_id == sql.project_id,
        r.user_id == sql.user_id,
        r.username == sql.username,
        r.action == action_from_name(sql.action@),
        r.object_type == object_type_from_name(sql.object_type@),
        r.object_id == sql.object_id,
        r.object_name == sql.object_name,
        r.description == sql.description,
        r.level == level_from_name(sql.level@),
        r.ip_address == sql.ip_address,
        r.user_agent == sql.user_agent,
        r.details == sql.details,
        r.created == sql.created,
{
    let action = AuditAction::from_name(sql.action.as_str());
    let object_type = AuditObjectType::from_name(sql.object_type.as_str());
    let level = AuditLevel::from_name(sql.level.as_str());
    AuditLog {
        id: sql.id,
        project_id: sql.project_id,
        user_id: sql.user_id,
        username: sql.username,
        action,
        object_type,
        object_id: sql.object_id,
        object_name: sql.object_name,
        description: sql.description,
        level,
        ip_address: sql.ip_address,
        user_agent: sql.user_agent,
        details: sql.details,
        created: sql.created,
    }
}

/// Converts each stored row, keeping their order.
pub fn convert_sql_audit_logs(rows: Vec<SqlAuditLog>) -> (r: Vec<AuditLog>)
    ensures
        r@.len() == rows@.len(),
        forall|i: int| 0 <= i < r@.len() ==> converted_from(#[trigger] r@[i], rows@[i]),
{
    let mut rows = rows;
    let ghost orig = rows@;
    let mut out: Vec<AuditLog> = Vec::new();
    let n = rows.len();
    let mut i: usize = 0;
    while i < n
        invariant
            n == orig.len(),
            i <= n,
            rows@ == orig.subrange(0, n - i),
            out@.len() == i,
            forall|k: int| 0 <= k < i ==> converted_from(#[trigger] out@[k], orig[n - 1 - k]),
        decreases n - i,
    {
        let row = rows.pop().unwrap();
        out.push(convert_sql_audit_log(row));
        i = i + 1;
        assert(rows@ =~= orig.subrange(0, n - i));
    }
    let mut res: Vec<AuditLog> = Vec::new();
    let mut j: usize = 0;
    let ghost rev = out@;
    while j < n
        invariant
            n == orig.len(),
            j <= n,
            out@ == rev.subrange(0, n - j),
            rev.len() == n,
            forall|k: int| 0 <= k < n ==> converted_from(#[trigger] rev[k], orig[n - 1 - k]),
            res@.len() == j,
            forall|k: int| 0 <= k < j ==> converted_from(#[trigger] res@[k], orig[k]),
        decreases n - j,
    {
        let rec = out.pop().unwrap();
        assert(rec == rev[n - 1 - j]);
        res.push(rec);
        j = j + 1;
        assert(out@ =~= rev.subrange(0, n - j));
    }
    res
}

/// Whether `r` is what [`convert_sql_audit_log`] makes of `sql`.
pub open spec fn converted_from(r: AuditLog, sql: SqlAuditLog) -> bool {
    &&& r.id == sql.id
    &&& r.project_id == sql.project_id
    &&& r.user_id == sql.user_id
    &&& r.username == sql.username
    &&& r.action == action_from_name(sql.action@)
    &&& r.object_type == object_type_from_name(sql.object_type@)
    &&& r.object_id == sql.object_id
    &&& r.object_name == sql.object_name
    &&& r.description == sql.description
    &&& r.level == level_from_name(sql.level@)
    &&& r.ip_address == sql.ip_address
    &&& r.user_agent == sql.user_agent
    &&& r.details == sql.details
    &&& r.created == sql.created
}


/// Every action is read back from the text it is stored under.
pub proof fn lemma_action_name_round_trip(x: AuditAction)
    ensures
        action_from_name(action_name(x)) == x,
{
    reveal_strlit("login");
    assert("login"@.len() == 5);
    reveal_strlit("logout");
    assert("logout"@.len() == 6);
    reveal_strlit("login_failed");
    assert("login_failed"@.len() == 12);
    reveal_strlit("password_changed");
    assert("password_changed"@.len() == 16);
    reveal_strlit("password_reset_requested");
    assert("password_reset_requested"@.len() == 24);
    reveal_strlit("two_factor_enabled");
    assert("two_factor_enabled"@.len() == 18);
    reveal_strlit("two_factor_disabled");
    assert("two_factor_disabled"@.len() == 19);
    reveal_strlit("user_created");
    assert("user_created"@.len() == 12);
    reveal_strlit("user_updated");
    assert("user_updated"@.len() == 12);
    reveal_strlit("user_deleted");
    assert("user_deleted"@.len() == 12);
    reveal_strlit("user_joined_project");
    assert("user_joined_project"@.len() == 19);
    reveal_strlit("user_left_project");
    assert("user_left_project"@.len() == 17);
    reveal_strlit("user_role_changed");
    assert("user_role_changed"@.len() == 17);
    reveal_strlit("project_created");
    assert("project_created"@.len() == 15);
    reveal_strlit("project_updated");
    assert("project_updated"@.len() == 15);
    reveal_strlit("project_deleted");
    assert("project_deleted"@.len() == 15);
    reveal_strlit("task_created");
    assert("task_created"@.len() == 12);
    reveal_strlit("task_started");
    assert("task_started"@.len() == 12);
    reveal_strlit("task_completed");
    assert("task_completed"@.len() == 14);
    reveal_strlit("task_failed");
    assert("task_failed"@.len() == 11);
    reveal_strlit("task_stopped");
    assert("task_stopped"@.len() == 12);
    reveal_strlit("task_deleted");
    assert("task_deleted"@.len() == 12);
    reveal_strlit("template_created");
    assert("template_created"@.len() == 16);
    reveal_strlit("template_updated");
    assert("template_updated"@.len() == 16);
    reveal_strlit("template_deleted");
    assert("template_deleted"@.len() == 16);
    reveal_strlit("template_run");
    assert("template_run"@.len() == 12);
    reveal_strlit("inventory_created");
    assert("inventory_created"@.len() == 17);
    reveal_strlit("inventory_updated");
    assert("inventory_updated"@.len() == 17);
    reveal_strlit("inventory_deleted");
    assert("inventory_deleted"@.len() == 17);
    reveal_strlit("repository_created");
    assert("repository_created"@.len() == 18);
    reveal_strlit("repository_updated");
    assert("repository_updated"@.len() == 18);
    reveal_strlit("repository_deleted");
    assert("repository_deleted"@.len() == 18);
    reveal_strlit("environment_created");
    assert("environment_created"@.len() == 19);
    reveal_strlit("environment_updated");
    assert("environment_updated"@.len() == 19);
    reveal_strlit("environment_deleted");
    assert("environment_deleted"@.len() == 19);
    reveal_strlit("access_key_created");
    assert("access_key_created"@.len() == 18);
    reveal_strlit("access_key_updated");
    assert("access_key_updated"@.len() == 18);
    reveal_strlit("access_key_deleted");
    assert("access_key_deleted"@.len() == 18);
    reveal_strlit("integration_created");
    assert("integration_created"@.len() == 19);
    reveal_strlit("integration_updated");
    assert("integration_updated"@.len() == 19);
    reveal_strlit("integration_deleted");
    assert("integration_deleted"@.len() == 19);
    reveal_strlit("webhook_triggered");
    assert("webhook_triggered"@.len() == 17);
    reveal_strlit("schedule_created");
    assert("schedule_created"@.len() == 16);
    reveal_strlit("schedule_updated");
    assert("schedule_updated"@.len() == 16);
    reveal_strlit("schedule_deleted");
    assert("schedule_deleted"@.len() == 16);
    reveal_strlit("schedule_triggered");
    assert("schedule_triggered"@.len() == 18);
    reveal_strlit("runner_created");
    assert("runner_created"@.len() == 14);
    reveal_strlit("runner_updated");
    assert("runner_updated"@.len() == 14);
    reveal_strlit("runner_deleted");
    assert("runner_deleted"@.len() == 14);
    reveal_strlit("runner_connected");
    assert("runner_connected"@.len() == 16);
    reveal_strlit("runner_disconnected");
    assert("runner_disconnected"@.len() == 19);
    reveal_strlit("config_changed");
    assert("config_changed"@.len() == 14);
    reveal_strlit("backup_created");
    assert("backup_created"@.len() == 14);
    reveal_strlit("restore_performed");
    assert("restore_performed"@.len() == 17);
    reveal_strlit("migration_applied");
    assert("migration_applied"@.len() == 17);
    reveal_strlit("other");
    assert("other"@.len() == 5);
    match x {
        AuditAction::Login => {
        },
        AuditAction::Logout => {
        },
        AuditAction::LoginFailed => {
        },
        AuditAction::PasswordChanged => {
        },
        AuditAction::PasswordResetRequested => {
        },
        AuditAction::TwoFactorEnabled => {
        },
        AuditAction::TwoFactorDisabled => {
        },
        AuditAction::UserCreated => {
            assert("user_created"@[0] != "login_failed"@[0]);
        },
        AuditAction::UserUpdated => {
            assert("user_updated"@[0] != "login_failed"@[0]);
            assert("user_updated"@[5] != "user_created"@[5]);
        },
        AuditAction::UserDeleted => {
            assert("user_deleted"@[0] != "login_failed"@[0]);
            assert("user_deleted"@[5] != "user_created"@[5]);
            assert("user_deleted"@[5] != "user_updated"@[5]);
        },
        AuditAction::UserJoinedProject => {
            assert("user_joined_project"@[0] != "two_factor_disabled"@[0]);
        },
        AuditAction::UserLeftProject => {
        },
        AuditAction::UserRoleChanged => {
            assert("user_role_changed"@[5] != "user_left_project"@[5]);
        },
        AuditAction::ProjectCreated => {
        },
        AuditAction::ProjectUpdated => {
            assert("project_updated"@[8] != "project_created"@[8]);
        },
        AuditAction::ProjectDeleted => {
            assert("project_deleted"@[8] != "project_created"@[8]);
            assert("project_deleted"@[8] != "project_updated"@[8]);
        },
        AuditAction::TaskCreated => {
            assert("task_created"@[0] != "login_failed"@[0]);
            assert("task_created"@[0] != "user_created"@[0]);
            assert("task_created"@[0] != "user_updated"@[0]);
            assert("task_created"@[0] != "user_deleted"@[0]);
        },
        AuditAction::TaskStarted => {
            assert("task_started"@[0] != "login_failed"@[0]);
            assert("task_started"@[0] != "user_created"@[0]);
            assert("task_started"@[0] != "user_updated"@[0]);
            assert("task_started"@[0] != "user_deleted"@[0]);
            assert("task_started"@[5] != "task_created"@[5]);
        },
        AuditAction::TaskCompleted => {
        },
        AuditAction::TaskFailed => {
        },
        AuditAction::TaskStopped => {
            assert("task_stopped"@[0] != "login_failed"@[0]);
            assert("task_stopped"@[0] != "user_created"@[0]);
            assert("task_stopped"@[0] != "user_updated"@[0]);
            assert("task_stopped"@[0] != "user_deleted"@[0]);
            assert("task_stopped"@[5] != "task_created"@[5]);
            assert("task_stopped"@[7] != "task_started"@[7]);
        },
        AuditAction::TaskDeleted => {
            assert("task_deleted"@[0] != "login_failed"@[0]);
            assert("task_deleted"@[0] != "user_created"@[0]);
            assert("task_deleted"@[0] != "user_updated"@[0]);
            assert("task_deleted"@[0] != "user_deleted"@[0]);
            assert("task_deleted"@[5] != "task_created"@[5]);
            assert("task_deleted"@[5] != "task_started"@[5]);
            assert("task_deleted"@[5] != "task_stopped"@[5]);
        },
        AuditAction::TemplateCreated => {
            assert("template_created"@[0] != "password_changed"@[0]);
        },
        AuditAction::TemplateUpdated => {
            assert("template_updated"@[0] != "password_changed"@[0]);
            assert("template_updated"@[9] != "template_created"@[9]);
        },
        AuditAction::TemplateDeleted => {
            assert("template_deleted"@[0] != "password_changed"@[0]);
            assert("template_deleted"@[9] != "template_created"@[9]);
            assert("template_deleted"@[9] != "template_updated"@[9]);
        },
        AuditAction::TemplateRun => {
            assert("template_run"@[0] != "login_failed"@[0]);
            assert("template_run"@[0] != "user_created"@[0]);
            assert("template_run"@[0] != "user_updated"@[0]);
            assert("template_run"@[0] != "user_deleted"@[0]);
            assert("template_run"@[1] != "task_created"@[1]);
            assert("template_run"@[1] != "task_started"@[1]);
            assert("template_run"@[1] != "task_stopped"@[1]);
            assert("template_run"@[1] != "task_deleted"@[1]);
        },
        AuditAction::InventoryCreated => {
            assert("inventory_created"@[0] != "user_left_project"@[0]);
            assert("inventory_created"@[0] != "user_role_changed"@[0]);
        },
        AuditAction::InventoryUpdated => {
            assert("inventory_updated"@[0] != "user_left_project"@[0]);
            assert("inventory_updated"@[0] != "user_role_changed"@[0]);
            assert("inventory_updated"@[10] != "inventory_created"@[10]);
        },
        AuditAction::InventoryDeleted => {
            assert("inventory_deleted"@[0] != "user_left_project"@[0]);
            assert("inventory_deleted"@[0] != "user_role_changed"@[0]);
            assert("inventory_deleted"@[10] != "inventory_created"@[10]);
            assert("inventory_deleted"@[10] != "inventory_updated"@[10]);
        },
        AuditAction::RepositoryCreated => {
            assert("repository_created"@[0] != "two_factor_enabled"@[0]);
        },
        AuditAction::RepositoryUpdated => {
            assert("repository_updated"@[0] != "two_factor_enabled"@[0]);
            assert("repository_updated"@[11] != "repository_created"@[11]);
        },
        AuditAction::RepositoryDeleted => {
            assert("repository_deleted"@[0] != "two_factor_enabled"@[0]);
            assert("repository_deleted"@[11] != "repository_created"@[11]);
            assert("repository_deleted"@[11] != "repository_updated"@[11]);
        },
        AuditAction::EnvironmentCreated => {
            assert("environment_created"@[0] != "two_factor_disabled"@[0]);
            assert("environment_created"@[0] != "user_joined_project"@[0]);
        },
        AuditAction::EnvironmentUpdated => {
            assert("environment_updated"@[0] != "two_factor_disabled"@[0]);
            assert("environment_updated"@[0] != "user_joined_project"@[0]);
            assert("environment_updated"@[12] != "environment_created"@[12]);
        },
        AuditAction::EnvironmentDeleted => {
            assert("environment_deleted"@[0] != "two_factor_disabled"@[0]);
            assert("environment_deleted"@[0] != "user_joined_project"@[0]);
            assert("environment_deleted"@[12] != "environment_created"@[12]);
            assert("environment_deleted"@[12] != "environment_updated"@[12]);
        },
        AuditAction::AccessKeyCreated => {
            assert("access_key_created"@[0] != "two_factor_enabled"@[0]);
            assert("access_key_created"@[0] != "repository_created"@[0]);
            assert("access_key_created"@[0] != "repository_updated"@[0]);
            assert("access_key_created"@[0] != "repository_deleted"@[0]);
        },
        AuditAction::AccessKeyUpdated => {
            assert("access_key_updated"@[0] != "two_factor_enabled"@[0]);
            assert("access_key_updated"@[0] != "repository_created"@[0]);
            assert("access_key_updated"@[0] != "repository_updated"@[0]);
            assert("access_key_updated"@[0] != "repository_deleted"@[0]);
            assert("access_key_updated"@[11] != "access_key_created"@[11]);
        },
        AuditAction::AccessKeyDeleted => {
            assert("access_key_deleted"@[0] != "two_factor_enabled"@[0]);
            assert("access_key_deleted"@[0] != "repository_created"@[0]);
            assert("access_key_deleted"@[0] != "repository_updated"@[0]);
            assert("access_key_deleted"@[0] != "repository_deleted"@[0]);
            assert("access_key_deleted"@[11] != "access_key_created"@[11]);
            assert("access_key_deleted"@[11] != "access_key_updated"@[11]);
        },
        AuditAction::IntegrationCreated => {
            assert("integration_created"@[0] != "two_factor_disabled"@[0]);
            assert("integration_created"@[0] != "user_joined_project"@[0]);
            assert("integration_created"@[0] != "environment_created"@[0]);
            assert("integration_created"@[0] != "environment_updated"@[0]);
            assert("integration_created"@[0] != "environment_deleted"@[0]);
        },
        AuditAction::IntegrationUpdated => {
            assert("integration_updated"@[0] != "two_factor_disabled"@[0]);
            assert("integration_updated"@[0] != "user_joined_project"@[0]);
            assert("integration_updated"@[0] != "environment_created"@[0]);
            assert("integration_updated"@[0] != "environment_updated"@[0]);
            assert("integration_updated"@[0] != "environment_deleted"@[0]);
            assert("integration_updated"@[12] != "integration_created"@[12]);
        },
        AuditAction::IntegrationDeleted => {
            assert("integration_deleted"@[0] != "two_factor_disabled"@[0]);
            assert("integration_deleted"@[0] != "user_joined_project"@[0]);
            assert("integration_deleted"@[0] != "environment_created"@[0]);
            assert("integration_deleted"@[0] != "environment_updated"@[0]);
            assert("integration_deleted"@[0] != "environment_deleted"@[0]);
            assert("integration_deleted"@[12] != "integration_created"@[12]);
            assert("integration_deleted"@[12] != "integration_updated"@[12]);
        },
        AuditAction::WebhookTriggered => {
            assert("webhook_triggered"@[0] != "user_left_project"@[0]);
            assert("webhook_triggered"@[0] != "user_role_changed"@[0]);
            assert("webhook_triggered"@[0] != "inventory_created"@[0]);
            assert("webhook_triggered"@[0] != "inventory_updated"@[0]);
            assert("webhook_triggered"@[0] != "inventory_deleted"@[0]);
        },
        AuditAction::ScheduleCreated => {
            assert("schedule_created"@[0] != "password_changed"@[0]);
            assert("schedule_created"@[0] != "template_created"@[0]);
            assert("schedule_created"@[0] != "template_updated"@[0]);
            assert("schedule_created"@[0] != "template_deleted"@[0]);
        },
        AuditAction::ScheduleUpdated => {
            assert("schedule_updated"@[0] != "password_changed"@[0]);
            assert("schedule_updated"@[0] != "template_created"@[0]);
            assert("schedule_updated"@[0] != "template_updated"@[0]);
            assert("schedule_updated"@[0] != "template_deleted"@[0]);
            assert("schedule_updated"@[9] != "schedule_created"@[9]);
        },
        AuditAction::ScheduleDeleted => {
            assert("schedule_deleted"@[0] != "password_changed"@[0]);
            assert("schedule_deleted"@[0] != "template_created"@[0]);
            assert("schedule_deleted"@[0] != "template_updated"@[0]);
            assert("schedule_deleted"@[0] != "template_deleted"@[0]);
            assert("schedule_deleted"@[9] != "schedule_created"@[9]);
            assert("schedule_deleted"@[9] != "schedule_updated"@[9]);
        },
        AuditAction::ScheduleTriggered => {
            assert("schedule_triggered"@[0] != "two_factor_enabled"@[0]);
            assert("schedule_triggered"@[0] != "repository_created"@[0]);
            assert("schedule_triggered"@[0] != "repository_updated"@[0]);
            assert("schedule_triggered"@[0] != "repository_deleted"@[0]);
            assert("schedule_triggered"@[0] != "access_key_created"@[0]);
            assert("schedule_triggered"@[0] != "access_key_updated"@[0]);
            assert("schedule_triggered"@[0] != "access_key_deleted"@[0]);
        },
        AuditAction::RunnerCreated => {
            assert("runner_created"@[0] != "task_completed"@[0]);
        },
        AuditAction::RunnerUpdated => {
            assert("runner_updated"@[0] != "task_completed"@[0]);
            assert("runner_updated"@[7] != "runner_created"@[7]);
        },
        AuditAction::RunnerDeleted => {
            assert("runner_deleted"@[0] != "task_completed"@[0]);
            assert("runner_deleted"@[7] != "runner_created"@[7]);
            assert("runner_deleted"@[7] != "runner_updated"@[7]);
        },
        AuditAction::RunnerConnected => {
            assert("runner_connected"@[0] != "password_changed"@[0]);
            assert("runner_connected"@[0] != "template_created"@[0]);
            assert("runner_connected"@[0] != "template_updated"@[0]);
            assert("runner_connected"@[0] != "template_deleted"@[0]);
            assert("runner_connected"@[0] != "schedule_created"@[0]);
            assert("runner_connected"@[0] != "schedule_updated"@[0]);
            assert("runner_connected"@[0] != "schedule_deleted"@[0]);
        },
        AuditAction::RunnerDisconnected => {
            assert("runner_disconnected"@[0] != "two_factor_disabled"@[0]);
            assert("runner_disconnected"@[0] != "user_joined_project"@[0]);
            assert("runner_disconnected"@[0] != "environment_created"@[0]);
            assert("runner_disconnected"@[0] != "environment_updated"@[0]);
            assert("runner_disconnected"@[0] != "environment_deleted"@[0]);
            assert("runner_disconnected"@[0] != "integration_created"@[0]);
            assert("runner_disconnected"@[0] != "integration_updated"@[0]);
            assert("runner_disconnected"@[0] != "integration_deleted"@[0]);
        },
        AuditAction::ConfigChanged => {
            assert("config_changed"@[0] != "task_completed"@[0]);
            assert("config_changed"@[0] != "runner_created"@[0]);
            assert("config_changed"@[0] != "runner_updated"@[0]);
            assert("config_changed"@[0] != "runner_deleted"@[0]);
        },
        AuditAction::BackupCreated => {
            assert("backup_created"@[0] != "task_completed"@[0]);
            assert("backup_created"@[0] != "runner_created"@[0]);
            assert("backup_created"@[0] != "runner_updated"@[0]);
            assert("backup_created"@[0] != "runner_deleted"@[0]);
            assert("backup_created"@[0] != "config_changed"@[0]);
        },
        AuditAction::RestorePerformed => {
            assert("restore_performed"@[0] != "user_left_project"@[0]);
            assert("restore_performed"@[0] != "user_role_changed"@[0]);
            assert("restore_performed"@[0] != "inventory_created"@[0]);
            assert("restore_performed"@[0] != "inventory_updated"@[0]);
            assert("restore_performed"@[0] != "inventory_deleted"@[0]);
            assert("restore_performed"@[0] != "webhook_triggered"@[0]);
        },
        AuditAction::MigrationApplied => {
            assert("migration_applied"@[0] != "user_left_project"@[0]);
            assert("migration_applied"@[0] != "user_role_changed"@[0]);
            assert("migration_applied"@[0] != "inventory_created"@[0]);
            assert("migration_applied"@[0] != "inventory_updated"@[0]);
            assert("migration_applied"@[0] != "inventory_deleted"@[0]);
            assert("migration_applied"@[0] != "webhook_triggered"@[0]);
            assert("migration_applied"@[0] != "restore_performed"@[0]);
        },
        AuditAction::Other => {
            assert("other"@[0] != "login"@[0]);
        },
    }
}

/// Every object type is read back from the text it is stored under.
pub proof fn lemma_object_type_name_round_trip(x: AuditObjectType)
    ensures
        object_type_from_name(object_type_name(x)) == x,
{
    reveal_strlit("user");
    assert("user"@.len() == 4);
    reveal_strlit("project");
    assert("project"@.len() == 7);
    reveal_strlit("task");
    assert("task"@.len() == 4);
    reveal_strlit("template");
    assert("template"@.len() == 8);
    reveal_strlit("inventory");
    assert("inventory"@.len() == 9);
    reveal_strlit("repository");
    assert("repository"@.len() == 10);
    reveal_strlit("environment");
    assert("environment"@.len() == 11);
    reveal_strlit("access_key");
    assert("access_key"@.len() == 10);
    reveal_strlit("integration");
    assert("integration"@.len() == 11);
    reveal_strlit("schedule");
    assert("schedule"@.len() == 8);
    reveal_strlit("runner");
    assert("runner"@.len() == 6);
    reveal_strlit("view");
    assert("view"@.len() == 4);
    reveal_strlit("secret");
    assert("secret"@.len() == 6);
    reveal_strlit("system");
    assert("system"@.len() == 6);
    reveal_strlit("other");
    assert("other"@.len() == 5);
    match x {
        AuditObjectType::User => {
        },
        AuditObjectType::Project => {
        },
        AuditObjectType::Task => {
            assert("task"@[0] != "user"@[0]);
        },
        AuditObjectType::Template => {
        },
        AuditObjectType::Inventory => {
        },
        AuditObjectType::Repository => {
        },
        AuditObjectType::Environment => {
        },
        AuditObjectType::AccessKey => {
            assert("access_key"@[0] != "repository"@[0]);
        },
        AuditObjectType::Integration => {
            assert("integration"@[0] != "environment"@[0]);
        },
        AuditObjectType::Schedule => {
            assert("schedule"@[0] != "template"@[0]);
        },
        AuditObjectType::Runner => {
        },
        AuditObjectType::View => {
            assert("view"@[0] != "user"@[0]);
            assert("view"@[0] != "task"@[0]);
        },
        AuditObjectType::Secret => {
            assert("secret"@[0] != "runner"@[0]);
        },
        AuditObjectType::System => {
            assert("system"@[0] != "runner"@[0]);
            assert("system"@[1] != "secret"@[1]);
        },
        AuditObjectType::Other => {
        },
    }
}

/// Every level is read back from the text it is stored under.
pub proof fn lemma_level_name_round_trip(x: AuditLevel)
    ensures
        level_from_name(level_name(x)) == x,
{
    reveal_strlit("info");
    assert("info"@.len() == 4);
    reveal_strlit("warning");
    assert("warning"@.len() == 7);
    reveal_strlit("error");
    assert("error"@.len() == 5);
    reveal_strlit("critical");
    assert("critical"@.len() == 8);
    match x {
        AuditLevel::Info => {
        },
        AuditLevel::Warning => {
        },
        AuditLevel::Error => {
        },
        AuditLevel::Critical => {
        },
    }
}


/// The criteria, order and page of an audit-log search.
pub struct AuditLogFilter {
    pub project_id: Option<i64>,
    pub user_id: Option<i64>,
    pub username: Option<String>,
    pub action: Option<AuditAction>,
    pub object_type: Option<AuditObjectType>,
    pub object_id: Option<i64>,
    pub level: Option<AuditLevel>,
    pub search: Option<String>,
    pub date_from: Option<Timestamp>,
    pub date_to: Option<Timestamp>,
    pub sort: String,
    pub order: String,
    pub limit: i64,
    pub offset: i64,
}

/// One page of search results with the number of all matching records.
pub struct AuditLogResult {
    pub records: Vec<AuditLog>,
    pub total: i64,
    pub limit: i64,
    pub offset: i64,
}

/// The condition `col = n`, if a number is given.
pub open spec fn number_condition(col: Seq<char>, v: Option<i64>) -> Seq<Seq<char>> {
    match v {
        Some(n) => seq![col + " = "@ + decimal_int(n as int)],
        None => seq![],
    }
}

/// The condition `head'text'` with quotes in the text doubled, if a text is given.
pub open spec fn text_condition(head: Seq<char>, v: Option<Seq<char>>) -> Seq<Seq<char>> {
    match v {
        Some(t) => seq![head + seq!['\''] + double_quotes(t) + seq!['\'']],
        None => seq![],
    }
}

/// The condition `head'YYYY-MM-DD HH:MM:SS'`, if a time is given and chrono can write it.
pub open spec fn time_condition(head: Seq<char>, v: Option<Timestamp>) -> Seq<Seq<char>> {
    match v {
        Some(t) => match utc_timestamp_text(t.secs, t.nanos) {
            Some(txt) => seq![head + seq!['\''] + txt + seq!['\'']],
            None => seq![],
        },
        None => seq![],
    }
}

/// Whether chrono can write every time that the filter gives.
pub open spec fn filter_times_writable(f: &AuditLogFilter) -> bool {
    &&& (f.date_from matches Some(t) ==> utc_timestamp_text(t.secs, t.nanos) is Some)
    &&& (f.date_to matches Some(t) ==> utc_timestamp_text(t.secs, t.nanos) is Some)
}

/// The text of an optional string.
pub open spec fn opt_view(v: Option<String>) -> Option<Seq<char>> {
    match v {
        Some(s) => Some(s@),
        None => None,
    }
}

/// The conditions of a search, in the order they are written.
pub open spec fn audit_conditions(f: &AuditLogFilter) -> Seq<Seq<char>> {
    number_condition("project_id"@, f.project_id)
        + number_condition("user_id"@, f.user_id)
        + text_condition("username LIKE "@, opt_view(f.username))
        + text_condition("action = "@, match f.action { Some(a) => Some(action_name(a)), None => None })
        + text_condition("object_type = "@, match f.object_type { Some(o) => Some(object_type_name(o)), None => None })
        + number_condition("object_id"@, f.object_id)
        + text_condition("level = "@, match f.level { Some(l) => Some(level_name(l)), None => None })
        + text_condition("description LIKE "@, opt_view(f.search))
        + time_condition("created >= "@, f.date_from)
        + time_condition("created <= "@, f.date_to)
}

/// The `WHERE` clause of a search: empty without conditions, else the
/// conditions joined with ` AND `.
pub open spec fn audit_where_clause_spec(f: &AuditLogFilter) -> Seq<char> {
    let c = audit_conditions(f);
    if c.len() == 0 {
        seq![]
    } else {
        "WHERE "@ + join_with(c, " AND "@)
    }
}

/// The column a search is sorted by: one of the allowed columns, else `created`.
pub open spec fn audit_sort_column_spec(sort: Seq<char>) -> Seq<char> {
    if sort == "created"@ || sort == "user_id"@ || sort == "project_id"@ || sort == "action"@
        || sort == "object_type"@ || sort == "level"@ {
        sort
    } else {
        "created"@
    }
}

/// The direction of a search: `ASC` when the order reads `asc` in lower case, else `DESC`.
pub open spec fn audit_sort_order_spec(order: Seq<char>) -> Seq<char> {
    if lowercase(order) == "asc"@ {
        "ASC"@
    } else {
        "DESC"@
    }
}

fn push_number_condition(col: &str, v: Option<i64>, out: &mut Vec<Vec<char>>)
    ensures
        final(out)@.map_values(|c: Vec<char>| c@) == old(out)@.map_values(|c: Vec<char>| c@)
            + number_condition(col@, v),
{
    let ghost before = out@.map_values(|c: Vec<char>| c@);
    match v {
        Some(n) => {
            let mut c = chars_of(col);
            append_chars(&mut c, &chars_of(" = "));
            push_int(n, &mut c);
            out.push(c);
        },
        None => {},
    }
    assert(out@.map_values(|c: Vec<char>| c@) =~= before + number_condition(col@, v));
}

fn push_text_condition(head: &str, v: Option<&str>, out: &mut Vec<Vec<char>>)
    ensures
        final(out)@.map_values(|c: Vec<char>| c@) == old(out)@.map_values(|c: Vec<char>| c@)
            + text_condition(head@, match v { Some(s) => Some(s@), None => None }),
{
    let ghost before = out@.map_values(|c: Vec<char>| c@);
    match v {
        Some(t) => {
            let mut c = chars_of(head);
            c.push('\'');
            push_doubling_quotes(&chars_of(t), &mut c);
            c.push('\'');
            assert(c@ =~= head@ + seq!['\''] + double_quotes(t@) + seq!['\'']);
            out.push(c);
        },
        None => {},
    }
    assert(out@.map_values(|c: Vec<char>| c@) =~= before + text_condition(head@, match v { Some(s) => Some(s@), None => None }));
}

fn push_time_condition(head: &str, v: Option<Timestamp>, out: &mut Vec<Vec<char>>) -> (ok: bool)
    ensures
        ok == (v matches Some(t) ==> utc_timestamp_text(t.secs, t.nanos) is Some),
        final(out)@.map_values(|c: Vec<char>| c@) == old(out)@.map_values(|c: Vec<char>| c@)
            + time_condition(head@, v),
{
    let ghost before = out@.map_values(|c: Vec<char>| c@);
    let mut ok = true;
    match v {
        Some(t) => {
            match format_utc_timestamp(t) {
                Some(txt) => {
                    let mut c = chars_of(head);
                    c.push('\'');
                    append_chars(&mut c, &chars_of(txt.as_str()));
                    c.push('\'');
                    assert(c@ =~= head@ + seq!['\''] + txt@ + seq!['\'']);
                    out.push(c);
                },
                None => {
                    ok = false;
                },
            }
        },
        None => {},
    }
    assert(out@.map_values(|c: Vec<char>| c@) =~= before + time_condition(head@, v));
    ok
}

fn opt_str(v: &Option<String>) -> (r: Option<&str>)
    ensures
        match r { Some(s) => Some(s@), None => None } == opt_view(*v),
{
    match v {
        Some(s) => Some(s.as_str()),
        None => None,
    }
}

/// The `WHERE` clause of a search, or an error where the filter gives a time
/// that chrono cannot write.
pub fn audit_where_clause(f: &AuditLogFilter) -> (r: Result<String, DbError>)
    ensures
        match r {
            Ok(s) => filter_times_writable(f) && s@ == audit_where_clause_spec(f),
            Err(e) => !filter_times_writable(f) && (e matches DbError::Other(m) && m@ == "timestamp out of range"@),
        },
{
    let mut conds: Vec<Vec<char>> = Vec::new();
    assert(conds@.map_values(|c: Vec<char>| c@) =~= Seq::<Seq<char>>::empty());
    push_number_condition("project_id", f.project_id, &mut conds);
    push_number_condition("user_id", f.user_id, &mut conds);
    push_text_condition("username LIKE ", opt_str(&f.username), &mut conds);
    let action_text: Option<&str> = match f.action { Some(a) => Some(a.name()), None => None };
    push_text_condition("action = ", action_text, &mut conds);
    let object_text: Option<&str> = match f.object_type { Some(o) => Some(o.name()), None => None };
    push_text_condition("object_type = ", object_text, &mut conds);
    push_number_condition("object_id", f.object_id, &mut conds);
    let level_text: Option<&str> = match f.level { Some(l) => Some(l.name()), None => None };
    push_text_condition("level = ", level_text, &mut conds);
    push_text_condition("description LIKE ", opt_str(&f.search), &mut conds);
    let ok_from = push_time_condition("created >= ", f.date_from, &mut conds);
    let ok_to = push_time_condition("created <= ", f.date_to, &mut conds);
    assert(conds@.map_values(|c: Vec<char>| c@) =~= audit_conditions(f));
    if !ok_from || !ok_to {
        return Err(DbError::Other("timestamp out of range".to_owned()));
    }
    if conds.len() == 0 {
        return Ok(String::new());
    }
    let mut out = chars_of("WHERE ");
    let joined = join_chars(&conds, &chars_of(" AND "));
    append_chars(&mut out, &joined);
    Ok(string_of(&out))
}

/// The column a search is sorted by.
pub fn audit_sort_column(sort: &str) -> (r: String)
    ensures
        r@ == audit_sort_column_spec(sort@),
{
    let s = chars_of(sort);
    if chars_equal(&s, &chars_of("created")) || chars_equal(&s, &chars_of("user_id"))
        || chars_equal(&s, &chars_of("project_id")) || chars_equal(&s, &chars_of("action"))
        || chars_equal(&s, &chars_of("object_type")) || chars_equal(&s, &chars_of("level")) {
        string_of(&s)
    } else {
        "created".to_owned()
    }
}

/// The direction of a search.
pub fn audit_sort_order(order: &str) -> (r: &'static str)
    ensures
        r@ == audit_sort_order_spec(order@),
{
    let low = to_lowercase(order);
    if str_equal(low.as_str(), "asc") {
        "ASC"
    } else {
        "DESC"
    }
}

/// The query counting the records a search matches.
pub open spec fn audit_count_query_spec(f: &AuditLogFilter) -> Seq<char> {
    "SELECT COUNT(*) FROM audit_log "@ + audit_where_clause_spec(f)
}

/// The query reading one page of the records a search matches; the page's
/// limit and offset are bound as `$1` and `$2`.
pub open spec fn audit_data_query_spec(f: &AuditLogFilter) -> Seq<char> {
    "SELECT * FROM audit_log "@ + audit_where_clause_spec(f) + " ORDER BY "@
        + audit_sort_column_spec(f.sort@) + " "@ + audit_sort_order_spec(f.order@)
        + " LIMIT $1 OFFSET $2"@
}

/// The two queries of a search: the count of matching records and one page of them.
pub fn audit_search_queries(f: &AuditLogFilter) -> (r: Result<(String, String), DbError>)
    ensures
        match r {
            Ok((count, data)) => filter_times_writable(f)
                && count@ == audit_count_query_spec(f)
                && data@ == audit_data_query_spec(f),
            Err(e) => !filter_times_writable(f) && (e matches DbError::Other(m) && m@ == "timestamp out of range"@),
        },
{
    let where_clause = match audit_where_clause(f) {
        Ok(w) => w,
        Err(e) => { return Err(e); },
    };
    let w = chars_of(where_clause.as_str());
    let mut count = chars_of("SELECT COUNT(*) FROM audit_log ");
    append_chars(&mut count, &w);
    let mut data = chars_of("SELECT * FROM audit_log ");
    append_chars(&mut data, &w);
    append_chars(&mut data, &chars_of(" ORDER BY "));
    append_chars(&mut data, &chars_of(audit_sort_column(f.sort.as_str()).as_str()));
    append_chars(&mut data, &chars_of(" "));
    append_chars(&mut data, &chars_of(audit_sort_order(f.order.as_str())));
    append_chars(&mut data, &chars_of(" LIMIT $1 OFFSET $2"));
    Ok((string_of(&count), string_of(&data)))
}

/// The result of a search: the converted rows of the page, the number of
/// all matching records, and the page's limit and offset.
pub fn audit_search_result(total: i64, rows: Vec<SqlAuditLog>, f: &AuditLogFilter) -> (r: AuditLogResult)
    ensures
        r.total == total,
        r.limit == f.limit,
        r.offset == f.offset,
        r.records@.len() == rows@.len(),
        forall|i: int| 0 <= i < r.records@.len() ==> converted_from(#[trigger] r.records@[i], rows@[i]),
{
    AuditLogResult { records: convert_sql_audit_logs(rows), total, limit: f.limit, offset: f.offset }
}

/// Each action is stored under its own snake_case name, and that name reads
/// back as the same action.
#[verifier::rlimit(100)]
pub proof fn law_action_names()
    ensures
        action_name(AuditAction::Login) == "login"@ && action_from_name("login"@) == AuditAction::Login,
        action_name(AuditAction::Logout) == "logout"@ && action_from_name("logout"@) == AuditAction::Logout,
        action_name(AuditAction::LoginFailed) == "login_failed"@ && action_from_name("login_failed"@) == AuditAction::LoginFailed,
        action_name(AuditAction::PasswordChanged) == "password_changed"@ && action_from_name("password_changed"@) == AuditAction::PasswordChanged,
        action_name(AuditAction::PasswordResetRequested) == "password_reset_requested"@ && action_from_name("password_reset_requested"@) == AuditAction::PasswordResetRequested,
        action_name(AuditAction::TwoFactorEnabled) == "two_factor_enabled"@ && action_from_name("two_factor_enabled"@) == AuditAction::TwoFactorEnabled,
        action_name(AuditAction::TwoFactorDisabled) == "two_factor_disabled"@ && action_from_name("two_factor_disabled"@) == AuditAction::TwoFactorDisabled,
        action_name(AuditAction::UserCreated) == "user_created"@ && action_from_name("user_created"@) == AuditAction::UserCreated,
        action_name(AuditAction::UserUpdated) == "user_updated"@ && action_from_name("user_updated"@) == AuditAction::UserUpdated,
        action_name(AuditAction::UserDeleted) == "user_deleted"@ && action_from_name("user_deleted"@) == AuditAction::UserDeleted,
        action_name(AuditAction::UserJoinedProject) == "user_joined_project"@ && action_from_name("user_joined_project"@) == AuditAction::UserJoinedProject,
        action_name(AuditAction::UserLeftProject) == "user_left_project"@ && action_from_name("user_left_project"@) == AuditAction::UserLeftProject,
        action_name(AuditAction::UserRoleChanged) == "user_role_changed"@ && action_from_name("user_role_changed"@) == AuditAction::UserRoleChanged,
        action_name(AuditAction::ProjectCreated) == "project_created"@ && action_from_name("project_created"@) == AuditAction::ProjectCreated,
        action_name(AuditAction::ProjectUpdated) == "project_updated"@ && action_from_name("project_updated"@) == AuditAction::ProjectUpdated,
        action_name(AuditAction::ProjectDeleted) == "project_deleted"@ && action_from_name("project_deleted"@) == AuditAction::ProjectDeleted,
        action_name(AuditAction::TaskCreated) == "task_created"@ && action_from_name("task_created"@) == AuditAction::TaskCreated,
        action_name(AuditAction::TaskStarted) == "task_started"@ && action_from_name("task_started"@) == AuditAction::TaskStarted,
        action_name(AuditAction::TaskCompleted) == "task_completed"@ && action_from_name("task_completed"@) == AuditAction::TaskCompleted,
        action_name(AuditAction::TaskFailed) == "task_failed"@ && action_from_name("task_failed"@) == AuditAction::TaskFailed,
        action_name(AuditAction::TaskStopped) == "task_stopped"@ && action_from_name("task_stopped"@) == AuditAction::TaskStopped,
        action_name(AuditAction::TaskDeleted) == "task_deleted"@ && action_from_name("task_deleted"@) == AuditAction::TaskDeleted,
        action_name(AuditAction::TemplateCreated) == "template_created"@ && action_from_name("template_created"@) == AuditAction::TemplateCreated,
        action_name(AuditAction::TemplateUpdated) == "template_updated"@ && action_from_name("template_updated"@) == AuditAction::TemplateUpdated,
        action_name(AuditAction::TemplateDeleted) == "template_deleted"@ && action_from_name("template_deleted"@) == AuditAction::TemplateDeleted,
        action_name(AuditAction::TemplateRun) == "template_run"@ && action_from_name("template_run"@) == AuditAction::TemplateRun,
        action_name(AuditAction::InventoryCreated) == "inventory_created"@ && action_from_name("inventory_created"@) == AuditAction::InventoryCreated,
        action_name(AuditAction::InventoryUpdated) == "inventory_updated"@ && action_from_name("inventory_updated"@) == AuditAction::InventoryUpdated,
        action_name(AuditAction::InventoryDeleted) == "inventory_deleted"@ && action_from_name("inventory_deleted"@) == AuditAction::InventoryDeleted,
        action_name(AuditAction::RepositoryCreated) == "repository_created"@ && action_from_name("repository_created"@) == AuditAction::RepositoryCreated,
        action_name(AuditAction::RepositoryUpdated) == "repository_updated"@ && action_from_name("repository_updated"@) == AuditAction::RepositoryUpdated,
        action_name(AuditAction::RepositoryDeleted) == "repository_deleted"@ && action_from_name("repository_deleted"@) == AuditAction::RepositoryDeleted,
        action_name(AuditAction::EnvironmentCreated) == "environment_created"@ && action_from_name("environment_created"@) == AuditAction::EnvironmentCreated,
        action_name(AuditAction::EnvironmentUpdated) == "environment_updated"@ && action_from_name("environment_updated"@) == AuditAction::EnvironmentUpdated,
        action_name(AuditAction::EnvironmentDeleted) == "environment_deleted"@ && action_from_name("environment_deleted"@) == AuditAction::EnvironmentDeleted,
        action_name(AuditAction::AccessKeyCreated) == "access_key_created"@ && action_from_name("access_key_created"@) == AuditAction::AccessKeyCreated,
        action_name(AuditAction::AccessKeyUpdated) == "access_key_updated"@ && action_from_name("access_key_updated"@) == AuditAction::AccessKeyUpdated,
        action_name(AuditAction::AccessKeyDeleted) == "access_key_deleted"@ && action_from_name("access_key_deleted"@) == AuditAction::AccessKeyDeleted,
        action_name(AuditAction::IntegrationCreated) == "integration_created"@ && action_from_name("integration_created"@) == AuditAction::IntegrationCreated,
        action_name(AuditAction::IntegrationUpdated) == "integration_updated"@ && action_from_name("integration_updated"@) == AuditAction::IntegrationUpdated,
        action_name(AuditAction::IntegrationDeleted) == "integration_deleted"@ && action_from_name("integration_deleted"@) == AuditAction::IntegrationDeleted,
        action_name(AuditAction::WebhookTriggered) == "webhook_triggered"@ && action_from_name("webhook_triggered"@) == AuditAction::WebhookTriggered,
        action_name(AuditAction::ScheduleCreated) == "schedule_created"@ && action_from_name("schedule_created"@) == AuditAction::ScheduleCreated,
        action_name(AuditAction::ScheduleUpdated) == "schedule_updated"@ && action_from_name("schedule_updated"@) == AuditAction::ScheduleUpdated,
        action_name(AuditAction::ScheduleDeleted) == "schedule_deleted"@ && action_from_name("schedule_deleted"@) == AuditAction::ScheduleDeleted,
        action_name(AuditAction::ScheduleTriggered) == "schedule_triggered"@ && action_from_name("schedule_triggered"@) == AuditAction::ScheduleTriggered,
        action_name(AuditAction::RunnerCreated) == "runner_created"@ && action_from_name("runner_created"@) == AuditAction::RunnerCreated,
        action_name(AuditAction::RunnerUpdated) == "runner_updated"@ && action_from_name("runner_updated"@) == AuditAction::RunnerUpdated,
        action_name(AuditAction::RunnerDeleted) == "runner_deleted"@ && action_from_name("runner_deleted"@) == AuditAction::RunnerDeleted,
        action_name(AuditAction::RunnerConnected) == "runner_connected"@ && action_from_name("runner_connected"@) == AuditAction::RunnerConnected,
        action_name(AuditAction::RunnerDisconnected) == "runner_disconnected"@ && action_from_name("runner_disconnected"@) == AuditAction::RunnerDisconnected,
        action_name(AuditAction::ConfigChanged) == "config_changed"@ && action_from_name("config_changed"@) == AuditAction::ConfigChanged,
        action_name(AuditAction::BackupCreated) == "backup_created"@ && action_from_name("backup_created"@) == AuditAction::BackupCreated,
        action_name(AuditAction::RestorePerformed) == "restore_performed"@ && action_from_name("restore_performed"@) == AuditAction::RestorePerformed,
        action_name(AuditAction::MigrationApplied) == "migration_applied"@ && action_from_name("migration_applied"@) == AuditAction::MigrationApplied,
        action_name(AuditAction::Other) == "other"@ && action_from_name("other"@) == AuditAction::Other,
{
    lemma_action_name_round_trip(AuditAction::Login);
    lemma_action_name_round_trip(AuditAction::Logout);
    lemma_action_name_round_trip(AuditAction::LoginFailed);
    lemma_action_name_round_trip(AuditAction::PasswordChanged);
    lemma_action_name_round_trip(AuditAction::PasswordResetRequested);
    lemma_action_name_round_trip(AuditAction::TwoFactorEnabled);
    lemma_action_name_round_trip(AuditAction::TwoFactorDisabled);
    lemma_action_name_round_trip(AuditAction::UserCreated);
    lemma_action_name_round_trip(AuditAction::UserUpdated);
    lemma_action_name_round_trip(AuditAction::UserDeleted);
    lemma_action_name_round_trip(AuditAction::UserJoinedProject);
    lemma_action_name_round_trip(AuditAction::UserLeftProject);
    lemma_action_name_round_trip(AuditAction::UserRoleChanged);
    lemma_action_name_round_trip(AuditAction::ProjectCreated);
    lemma_action_name_round_trip(AuditAction::ProjectUpdated);
    lemma_action_name_round_trip(AuditAction::ProjectDeleted);
    lemma_action_name_round_trip(AuditAction::TaskCreated);
    lemma_action_name_round_trip(AuditAction::TaskStarted);
    lemma_action_name_round_trip(AuditAction::TaskCompleted);
    lemma_action_name_round_trip(AuditAction::TaskFailed);
    lemma_action_name_round_trip(AuditAction::TaskStopped);
    lemma_action_name_round_trip(AuditAction::TaskDeleted);
    lemma_action_name_round_trip(AuditAction::TemplateCreated);
    lemma_action_name_round_trip(AuditAction::TemplateUpdated);
    lemma_action_name_round_trip(AuditAction::TemplateDeleted);
    lemma_action_name_round_trip(AuditAction::TemplateRun);
    lemma_action_name_round_trip(AuditAction::InventoryCreated);
    lemma_action_name_round_trip(AuditAction::InventoryUpdated);
    lemma_action_name_round_trip(AuditAction::InventoryDeleted);
    lemma_action_name_round_trip(AuditAction::RepositoryCreated);
    lemma_action_name_round_trip(AuditAction::RepositoryUpdated);
    lemma_action_name_round_trip(AuditAction::RepositoryDeleted);
    lemma_action_name_round_trip(AuditAction::EnvironmentCreated);
    lemma_action_name_round_trip(AuditAction::EnvironmentUpdated);
    lemma_action_name_round_trip(AuditAction::EnvironmentDeleted);
    lemma_action_name_round_trip(AuditAction::AccessKeyCreated);
    lemma_action_name_round_trip(AuditAction::AccessKeyUpdated);
    lemma_action_name_round_trip(AuditAction::AccessKeyDeleted);
    lemma_action_name_round_trip(AuditAction::IntegrationCreated);
    lemma_action_name_round_trip(AuditAction::IntegrationUpdated);
    lemma_action_name_round_trip(AuditAction::IntegrationDeleted);
    lemma_action_name_round_trip(AuditAction::WebhookTriggered);
    lemma_action_name_round_trip(AuditAction::ScheduleCreated);
    lemma_action_name_round_trip(AuditAction::ScheduleUpdated);
    lemma_action_name_round_trip(AuditAction::ScheduleDeleted);
    lemma_action_name_round_trip(AuditAction::ScheduleTriggered);
    lemma_action_name_round_trip(AuditAction::RunnerCreated);
    lemma_action_name_round_trip(AuditAction::RunnerUpdated);
    lemma_action_name_round_trip(AuditAction::RunnerDeleted);
    lemma_action_name_round_trip(AuditAction::RunnerConnected);
    lemma_action_name_round_trip(AuditAction::RunnerDisconnected);
    lemma_action_name_round_trip(AuditAction::ConfigChanged);
    lemma_action_name_round_trip(AuditAction::BackupCreated);
    lemma_action_name_round_trip(AuditAction::RestorePerformed);
    lemma_action_name_round_trip(AuditAction::MigrationApplied);
    lemma_action_name_round_trip(AuditAction::Other);
}

/// Each object type is stored under its own snake_case name, and that name reads
/// back as the same object type.
pub proof fn law_object_type_names()
    ensures
        object_type_name(AuditObjectType::User) == "user"@ && object_type_from_name("user"@) == AuditObjectType::User,
        object_type_name(AuditObjectType::Project) == "project"@ && object_type_from_name("project"@) == AuditObjectType::Project,
        object_type_name(AuditObjectType::Task) == "task"@ && object_type_from_name("task"@) == AuditObjectType::Task,
        object_type_name(AuditObjectType::Template) == "template"@ && object_type_from_name("template"@) == AuditObjectType::Template,
        object_type_name(AuditObjectType::Inventory) == "inventory"@ && object_type_from_name("inventory"@) == AuditObjectType::Inventory,
        object_type_name(AuditObjectType::Repository) == "repository"@ && object_type_from_name("repository"@) == AuditObjectType::Repository,
        object_type_name(AuditObjectType::Environment) == "environment"@ && object_type_from_name("environment"@) == AuditObjectType::Environment,
        object_type_name(AuditObjectType::AccessKey) == "access_key"@ && object_type_from_name("access_key"@) == AuditObjectType::AccessKey,
        object_type_name(AuditObjectType::Integration) == "integration"@ && object_type_from_name("integration"@) == AuditObjectType::Integration,
        object_type_name(AuditObjectType::Schedule) == "schedule"@ && object_type_from_name("schedule"@) == AuditObjectType::Schedule,
        object_type_name(AuditObjectType::Runner) == "runner"@ && object_type_from_name("runner"@) == AuditObjectType::Runner,
        object_type_name(AuditObjectType::View) == "view"@ && object_type_from_name("view"@) == AuditObjectType::View,
        object_type_name(AuditObjectType::Secret) == "secret"@ && object_type_from_name("secret"@) == AuditObjectType::Secret,
        object_type_name(AuditObjectType::System) == "system"@ && object_type_from_name("system"@) == AuditObjectType::System,
        object_type_name(AuditObjectType::Other) == "other"@ && object_type_from_name("other"@) == AuditObjectType::Other,
{
    lemma_object_type_name_round_trip(AuditObjectType::User);
    lemma_object_type_name_round_trip(AuditObjectType::Project);
    lemma_object_type_name_round_trip(AuditObjectType::Task);
    lemma_object_type_name_round_trip(AuditObjectType::Template);
    lemma_object_type_name_round_trip(AuditObjectType::Inventory);
    lemma_object_type_name_round_trip(AuditObjectType::Repository);
    lemma_object_type_name_round_trip(AuditObjectType::Environment);
    lemma_object_type_name_round_trip(AuditObjectType::AccessKey);
    lemma_object_type_name_round_trip(AuditObjectType::Integration);
    lemma_object_type_name_round_trip(AuditObjectType::Schedule);
    lemma_object_type_name_round_trip(AuditObjectType::Runner);
    lemma_object_type_name_round_trip(AuditObjectType::View);
    lemma_object_type_name_round_trip(AuditObjectType::Secret);
    lemma_object_type_name_round_trip(AuditObjectType::System);
    lemma_object_type_name_round_trip(AuditObjectType::Other);
}

/// Each level is stored under its own snake_case name, and that name reads
/// back as the same level.
pub proof fn law_level_names()
    ensures
        level_name(AuditLevel::Info) == "info"@ && level_from_name("info"@) == AuditLevel::Info,
        level_name(AuditLevel::Warning) == "warning"@ && level_from_name("warning"@) == AuditLevel::Warning,
        level_name(AuditLevel::Error) == "error"@ && level_from_name("error"@) == AuditLevel::Error,
        level_name(AuditLevel::Critical) == "critical"@ && level_from_name("critical"@) == AuditLevel::Critical,
{
    lemma_level_name_round_trip(AuditLevel::Info);
    lemma_level_name_round_trip(AuditLevel::Warning);
    lemma_level_name_round_trip(AuditLevel::Error);
    lemma_level_name_round_trip(AuditLevel::Critical);
}

/// A search is sorted by the column asked for whenever it is one of
/// `created`, `user_id`, `project_id`, `action`, `object_type` and `level`,
/// and by `created` for any other name; the page query sorts by that column.
pub proof fn law_sort_column(f: &AuditLogFilter)
    ensures
        ({
            let s = f.sort@;
            let allowed = s == "created"@ || s == "user_id"@ || s == "project_id"@ || s == "action"@
                || s == "object_type"@ || s == "level"@;
            &&& allowed ==> audit_sort_column_spec(s) == s
            &&& !allowed ==> audit_sort_column_spec(s) == "created"@
            &&& audit_data_query_spec(f) == "SELECT * FROM audit_log "@ + audit_where_clause_spec(f) + " ORDER BY "@
                + audit_sort_column_spec(s) + " "@ + audit_sort_order_spec(f.order@) + " LIMIT $1 OFFSET $2"@
        }),
{
}

/// Each part of a joined text occurs in it.
proof fn lemma_join_contains(parts: Seq<Seq<char>>, sep: Seq<char>, i: int)
    requires
        0 <= i < parts.len(),
    ensures
        contains_seq(join_with(parts, sep), parts[i]),
    decreases parts.len(),
{
    let j = join_with(parts, sep);
    if parts.len() == 1 {
        assert(j.subrange(0, parts[0].len() as int) =~= parts[0]);
        assert(occurs_at(j, parts[i], 0));
    } else {
        let head = join_with(parts.drop_last(), sep) + sep;
        assert(j == head + parts.last());
        if i == parts.len() - 1 {
            assert(j.subrange(head.len() as int, (head.len() + parts.last().len()) as int) =~= parts.last());
            assert(occurs_at(j, parts[i], head.len() as int));
        } else {
            lemma_join_contains(parts.drop_last(), sep, i);
            let inner = join_with(parts.drop_last(), sep);
            assert(parts.drop_last()[i] == parts[i]);
            let w = choose|w: int| occurs_at(inner, parts[i], w);
            assert(j.subrange(w, w + parts[i].len()) =~= inner.subrange(w, w + parts[i].len()));
            assert(occurs_at(j, parts[i], w));
        }
    }
}

/// Every condition of a search stands in its `WHERE` clause.
proof fn lemma_condition_in_clause(f: &AuditLogFilter, i: int)
    requires
        0 <= i < audit_conditions(f).len(),
    ensures
        contains_seq(audit_where_clause_spec(f), audit_conditions(f)[i]),
{
    let c = audit_conditions(f);
    let parts = join_with(c, " AND "@);
    lemma_join_contains(c, " AND "@, i);
    let w = choose|w: int| occurs_at(parts, c[i], w);
    let clause = "WHERE "@ + parts;
    let n = "WHERE "@.len() as int;
    assert(clause.subrange(n + w, n + w + c[i].len()) =~= parts.subrange(w, w + c[i].len()));
    assert(occurs_at(clause, c[i], n + w));
}

/// The `project_id` criterion of a search stands in its `WHERE` clause.
proof fn lemma_where_has_project_id(f: &AuditLogFilter)
    ensures
        f.project_id matches Some(n) ==> contains_seq(audit_where_clause_spec(f), "project_id = "@ + decimal_int(n as int)),
{
    let p0 = number_condition("project_id"@, f.project_id);
    let p1 = p0 + number_condition("user_id"@, f.user_id);
    let p2 = p1 + text_condition("username LIKE "@, opt_view(f.username));
    let p3 = p2 + text_condition("action = "@, match f.action { Some(a) => Some(action_name(a)), None => None });
    let p4 = p3 + text_condition("object_type = "@, match f.object_type { Some(o) => Some(object_type_name(o)), None => None });
    let p5 = p4 + number_condition("object_id"@, f.object_id);
    let p6 = p5 + text_condition("level = "@, match f.level { Some(l) => Some(level_name(l)), None => None });
    let p7 = p6 + text_condition("description LIKE "@, opt_view(f.search));
    let p8 = p7 + time_condition("created >= "@, f.date_from);
    let c = p8 + time_condition("created <= "@, f.date_to);
    assert(c == audit_conditions(f));
    if let Some(n) = f.project_id {
        reveal_strlit("project_id");
        reveal_strlit("project_id = ");
        reveal_strlit(" = ");
        let k = 0;
        assert(c[k] == p0[k]);
        assert(c[k] =~= "project_id = "@ + decimal_int(n as int));
        lemma_condition_in_clause(f, k);
    }
}

/// The `user_id` criterion of a search stands in its `WHERE` clause.
proof fn lemma_where_has_user_id(f: &AuditLogFilter)
    ensures
        f.user_id matches Some(n) ==> contains_seq(audit_where_clause_spec(f), "user_id = "@ + decimal_int(n as int)),
{
    let p0 = number_condition("project_id"@, f.project_id);
    let p1 = p0 + number_condition("user_id"@, f.user_id);
    let p2 = p1 + text_condition("username LIKE "@, opt_view(f.username));
    let p3 = p2 + text_condition("action = "@, match f.action { Some(a) => Some(action_name(a)), None => None });
    let p4 = p3 + text_condition("object_type = "@, match f.object_type { Some(o) => Some(object_type_name(o)), None => None });
    let p5 = p4 + number_condition("object_id"@, f.object_id);
    let p6 = p5 + text_condition("level = "@, match f.level { Some(l) => Some(level_name(l)), None => None });
    let p7 = p6 + text_condition("description LIKE "@, opt_view(f.search));
    let p8 = p7 + time_condition("created >= "@, f.date_from);
    let c = p8 + time_condition("created <= "@, f.date_to);
    assert(c == audit_conditions(f));
    if let Some(n) = f.user_id {
        reveal_strlit("user_id");
        reveal_strlit("user_id = ");
        reveal_strlit(" = ");
        let k = p0.len() as int;
        assert(c[k] == p1[k]);
        assert(c[k] =~= "user_id = "@ + decimal_int(n as int));
        lemma_condition_in_clause(f, k);
    }
}

/// The `username` criterion of a search stands in its `WHERE` clause.
proof fn lemma_where_has_username(f: &AuditLogFilter)
    ensures
        f.username matches Some(u) ==> contains_seq(audit_where_clause_spec(f), "username LIKE '"@ + double_quotes(u@) + "'"@),
{
    let p0 = number_condition("project_id"@, f.project_id);
    let p1 = p0 + number_condition("user_id"@, f.user_id);
    let p2 = p1 + text_condition("username LIKE "@, opt_view(f.username));
    let p3 = p2 + text_condition("action = "@, match f.action { Some(a) => Some(action_name(a)), None => None });
    let p4 = p3 + text_condition("object_type = "@, match f.object_type { Some(o) => Some(object_type_name(o)), None => None });
    let p5 = p4 + number_condition("object_id"@, f.object_id);
    let p6 = p5 + text_condition("level = "@, match f.level { Some(l) => Some(level_name(l)), None => None });
    let p7 = p6 + text_condition("description LIKE "@, opt_view(f.search));
    let p8 = p7 + time_condition("created >= "@, f.date_from);
    let c = p8 + time_condition("created <= "@, f.date_to);
    assert(c == audit_conditions(f));
    if let Some(u) = f.username {
        reveal_strlit("username LIKE ");
        reveal_strlit("username LIKE '");
        reveal_strlit("'");
        let k = p1.len() as int;
        assert(c[k] == p2[k]);
        assert(c[k] =~= "username LIKE '"@ + double_quotes(u@) + "'"@);
        lemma_condition_in_clause(f, k);
    }
}

/// The `action` criterion of a search stands in its `WHERE` clause.
proof fn lemma_where_has_action(f: &AuditLogFilter)
    ensures
        f.action matches Some(a) ==> contains_seq(audit_where_clause_spec(f), "action = '"@ + double_quotes(action_name(a)) + "'"@),
{
    let p0 = number_condition("project_id"@, f.project_id);
    let p1 = p0 + number_condition("user_id"@, f.user_id);
    let p2 = p1 + text_condition("username LIKE "@, opt_view(f.username));
    let p3 = p2 + text_condition("action = "@, match f.action { Some(a) => Some(action_name(a)), None => None });
    let p4 = p3 + text_condition("object_type = "@, match f.object_type { Some(o) => Some(object_type_name(o)), None => None });
    let p5 = p4 + number_condition("object_id"@, f.object_id);
    let p6 = p5 + text_condition("level = "@, match f.level { Some(l) => Some(level_name(l)), None => None });
    let p7 = p6 + text_condition("description LIKE "@, opt_view(f.search));
    let p8 = p7 + time_condition("created >= "@, f.date_from);
    let c = p8 + time_condition("created <= "@, f.date_to);
    assert(c == audit_conditions(f));
    if let Some(a) = f.action {
        reveal_strlit("action = ");
        reveal_strlit("action = '");
        reveal_strlit("'");
        let k = p2.len() as int;
        assert(c[k] == p3[k]);
        assert(c[k] =~= "action = '"@ + double_quotes(action_name(a)) + "'"@);
        lemma_condition_in_clause(f, k);
    }
}

/// The `object_type` criterion of a search stands in its `WHERE` clause.
proof fn lemma_where_has_object_type(f: &AuditLogFilter)
    ensures
        f.object_type matches Some(o) ==> contains_seq(audit_where_clause_spec(f), "object_type = '"@ + double_quotes(object_type_name(o)) + "'"@),
{
    let p0 = number_condition("project_id"@, f.project_id);
    let p1 = p0 + number_condition("user_id"@, f.user_id);
    let p2 = p1 + text_condition("username LIKE "@, opt_view(f.username));
    let p3 = p2 + text_condition("action = "@, match f.action { Some(a) => Some(action_name(a)), None => None });
    let p4 = p3 + text_condition("object_type = "@, match f.object_type { Some(o) => Some(object_type_name(o)), None => None });
    let p5 = p4 + number_condition("object_id"@, f.object_id);
    let p6 = p5 + text_condition("level = "@, match f.level { Some(l) => Some(level_name(l)), None => None });
    let p7 = p6 + text_condition("description LIKE "@, opt_view(f.search));
    let p8 = p7 + time_condition("created >= "@, f.date_from);
    let c = p8 + time_condition("created <= "@, f.date_to);
    assert(c == audit_conditions(f));
    if let Some(o) = f.object_type {
        reveal_strlit("object_type = ");
        reveal_strlit("object_type = '");
        reveal_strlit("'");
        let k = p3.len() as int;
        assert(c[k] == p4[k]);
        assert(c[k] =~= "object_type = '"@ + double_quotes(object_type_name(o)) + "'"@);
        lemma_condition_in_clause(f, k);
    }
}

/// The `object_id` criterion of a search stands in its `WHERE` clause.
proof fn lemma_where_has_object_id(f: &AuditLogFilter)
    ensures
        f.object_id matches Some(n) ==> contains_seq(audit_where_clause_spec(f), "object_id = "@ + decimal_int(n as int)),
{
    let p0 = number_condition("project_id"@, f.project_id);
    let p1 = p0 + number_condition("user_id"@, f.user_id);
    let p2 = p1 + text_condition("username LIKE "@, opt_view(f.username));
    let p3 = p2 + text_condition("action = "@, match f.action { Some(a) => Some(action_name(a)), None => None });
    let p4 = p3 + text_condition("object_type = "@, match f.object_type { Some(o) => Some(object_type_name(o)), None => None });
    let p5 = p4 + number_condition("object_id"@, f.object_id);
    let p6 = p5 + text_condition("level = "@, match f.level { Some(l) => Some(level_name(l)), None => None });
    let p7 = p6 + text_condition("description LIKE "@, opt_view(f.search));
    let p8 = p7 + time_condition("created >= "@, f.date_from);
    let c = p8 + time_condition("created <= "@, f.date_to);
    assert(c == audit_conditions(f));
    if let Some(n) = f.object_id {
        reveal_strlit("object_id");
        reveal_strlit("object_id = ");
        reveal_strlit(" = ");
        let k = p4.len() as int;
        assert(c[k] == p5[k]);
        assert(c[k] =~= "object_id = "@ + decimal_int(n as int));
        lemma_condition_in_clause(f, k);
    }
}

/// The `level` criterion of a search stands in its `WHERE` clause.
proof fn lemma_where_has_level(f: &AuditLogFilter)
    ensures
        f.level matches Some(l) ==> contains_seq(audit_where_clause_spec(f), "level = '"@ + double_quotes(level_name(l)) + "'"@),
{
    let p0 = number_condition("project_id"@, f.project_id);
    let p1 = p0 + number_condition("user_id"@, f.user_id);
    let p2 = p1 + text_condition("username LIKE "@, opt_view(f.username));
    let p3 = p2 + text_condition("action = "@, match f.action { Some(a) => Some(action_name(a)), None => None });
    let p4 = p3 + text_condition("object_type = "@, match f.object_type { Some(o) => Some(object_type_name(o)), None => None });
    let p5 = p4 + number_condition("object_id"@, f.object_id);
    let p6 = p5 + text_condition("level = "@, match f.level { Some(l) => Some(level_name(l)), None => None });
    let p7 = p6 + text_condition("description LIKE "@, opt_view(f.search));
    let p8 = p7 + time_condition("created >= "@, f.date_from);
    let c = p8 + time_condition("created <= "@, f.date_to);
    assert(c == audit_conditions(f));
    if let Some(l) = f.level {
        reveal_strlit("level = ");
        reveal_strlit("level = '");
        reveal_strlit("'");
        let k = p5.len() as int;
        assert(c[k] == p6[k]);
        assert(c[k] =~= "level = '"@ + double_quotes(level_name(l)) + "'"@);
        lemma_condition_in_clause(f, k);
    }
}

/// The `search` criterion of a search stands in its `WHERE` clause.
proof fn lemma_where_has_search(f: &AuditLogFilter)
    ensures
        f.search matches Some(t) ==> contains_seq(audit_where_clause_spec(f), "description LIKE '"@ + double_quotes(t@) + "'"@),
{
    let p0 = number_condition("project_id"@, f.project_id);
    let p1 = p0 + number_condition("user_id"@, f.user_id);
    let p2 = p1 + text_condition("username LIKE "@, opt_view(f.username));
    let p3 = p2 + text_condition("action = "@, match f.action { Some(a) => Some(action_name(a)), None => None });
    let p4 = p3 + text_condition("object_type = "@, match f.object_type { Some(o) => Some(object_type_name(o)), None => None });
    let p5 = p4 + number_condition("object_id"@, f.object_id);
    let p6 = p5 + text_condition("level = "@, match f.level { Some(l) => Some(level_name(l)), None => None });
    let p7 = p6 + text_condition("description LIKE "@, opt_view(f.search));
    let p8 = p7 + time_condition("created >= "@, f.date_from);
    let c = p8 + time_condition("created <= "@, f.date_to);
    assert(c == audit_conditions(f));
    if let Some(t) = f.search {
        reveal_strlit("description LIKE ");
        reveal_strlit("description LIKE '");
        reveal_strlit("'");
        let k = p6.len() as int;
        assert(c[k] == p7[k]);
        assert(c[k] =~= "description LIKE '"@ + double_quotes(t@) + "'"@);
        lemma_condition_in_clause(f, k);
    }
}

/// The `date_from` criterion of a search stands in its `WHERE` clause.
proof fn lemma_where_has_date_from(f: &AuditLogFilter)
    ensures
        f.date_from matches Some(t) ==> (utc_timestamp_text(t.secs, t.nanos) matches Some(x)
            ==> contains_seq(audit_where_clause_spec(f), "created >= '"@ + x + "'"@)),
{
    let p0 = number_condition("project_id"@, f.project_id);
    let p1 = p0 + number_condition("user_id"@, f.user_id);
    let p2 = p1 + text_condition("username LIKE "@, opt_view(f.username));
    let p3 = p2 + text_condition("action = "@, match f.action { Some(a) => Some(action_name(a)), None => None });
    let p4 = p3 + text_condition("object_type = "@, match f.object_type { Some(o) => Some(object_type_name(o)), None => None });
    let p5 = p4 + number_condition("object_id"@, f.object_id);
    let p6 = p5 + text_condition("level = "@, match f.level { Some(l) => Some(level_name(l)), None => None });
    let p7 = p6 + text_condition("description LIKE "@, opt_view(f.search));
    let p8 = p7 + time_condition("created >= "@, f.date_from);
    let c = p8 + time_condition("created <= "@, f.date_to);
    assert(c == audit_conditions(f));
    if let Some(t) = f.date_from {
        if let Some(x) = utc_timestamp_text(t.secs, t.nanos) {
            reveal_strlit("created >= ");
            reveal_strlit("created >= '");
            reveal_strlit("'");
            let k = p7.len() as int;
            assert(c[k] == p8[k]);
            assert(c[k] =~= "created >= '"@ + x + "'"@);
            lemma_condition_in_clause(f, k);
        }
    }
}

/// The `date_to` criterion of a search stands in its `WHERE` clause.
proof fn lemma_where_has_date_to(f: &AuditLogFilter)
    ensures
        f.date_to matches Some(t) ==> (utc_timestamp_text(t.secs, t.nanos) matches Some(x)
            ==> contains_seq(audit_where_clause_spec(f), "created <= '"@ + x + "'"@)),
{
    let p0 = number_condition("project_id"@, f.project_id);
    let p1 = p0 + number_condition("user_id"@, f.user_id);
    let p2 = p1 + text_condition("username LIKE "@, opt_view(f.username));
    let p3 = p2 + text_condition("action = "@, match f.action { Some(a) => Some(action_name(a)), None => None });
    let p4 = p3 + text_condition("object_type = "@, match f.object_type { Some(o) => Some(object_type_name(o)), None => None });
    let p5 = p4 + number_condition("object_id"@, f.object_id);
    let p6 = p5 + text_condition("level = "@, match f.level { Some(l) => Some(level_name(l)), None => None });
    let p7 = p6 + text_condition("description LIKE "@, opt_view(f.search));
    let p8 = p7 + time_condition("created >= "@, f.date_from);
    let c = p8 + time_condition("created <= "@, f.date_to);
    assert(c == audit_conditions(f));
    if let Some(t) = f.date_to {
        if let Some(x) = utc_timestamp_text(t.secs, t.nanos) {
            reveal_strlit("created <= ");
            reveal_strlit("created <= '");
            reveal_strlit("'");
            let k = p8.len() as int;
            assert(c[k] =~= "created <= '"@ + x + "'"@);
            lemma_condition_in_clause(f, k);
        }
    }
}

/// Every criterion a search sets stands in its `WHERE` clause, written as
/// the condition on its column: numbers in decimal, texts and stored names
/// of enumerations in single quotes with quotes doubled, times as
/// `YYYY-MM-DD HH:MM:SS` (where chrono can write them).
pub proof fn law_where_clause_criteria(f: &AuditLogFilter)
    ensures
        f.project_id matches Some(n) ==> contains_seq(audit_where_clause_spec(f), "project_id = "@ + decimal_int(n as int)),
        f.user_id matches Some(n) ==> contains_seq(audit_where_clause_spec(f), "user_id = "@ + decimal_int(n as int)),
        f.username matches Some(u) ==> contains_seq(audit_where_clause_spec(f), "username LIKE '"@ + double_quotes(u@) + "'"@),
        f.action matches Some(a) ==> contains_seq(audit_where_clause_spec(f), "action = '"@ + double_quotes(action_name(a)) + "'"@),
        f.object_type matches Some(o) ==> contains_seq(audit_where_clause_spec(f), "object_type = '"@ + double_quotes(object_type_name(o)) + "'"@),
        f.object_id matches Some(n) ==> contains_seq(audit_where_clause_spec(f), "object_id = "@ + decimal_int(n as int)),
        f.level matches Some(l) ==> contains_seq(audit_where_clause_spec(f), "level = '"@ + double_quotes(level_name(l)) + "'"@),
        f.search matches Some(t) ==> contains_seq(audit_where_clause_spec(f), "description LIKE '"@ + double_quotes(t@) + "'"@),
        f.date_from matches Some(t) ==> (utc_timestamp_text(t.secs, t.nanos) matches Some(x)
            ==> contains_seq(audit_where_clause_spec(f), "created >= '"@ + x + "'"@)),
        f.date_to matches Some(t) ==> (utc_timestamp_text(t.secs, t.nanos) matches Some(x)
            ==> contains_seq(audit_where_clause_spec(f), "created <= '"@ + x + "'"@)),
{
    lemma_where_has_project_id(f);
    lemma_where_has_user_id(f);
    lemma_where_has_username(f);
    lemma_where_has_action(f);
    lemma_where_has_object_type(f);
    lemma_where_has_object_id(f);
    lemma_where_has_level(f);
    lemma_where_has_search(f);
    lemma_where_has_date_from(f);
    lemma_where_has_date_to(f);
}

/// A search that sets no criterion has no `WHERE` clause, and one whose only
/// criterion is a single column's value is filtered by that condition alone.
pub proof fn law_where_clause_minimal(f: &AuditLogFilter)
    ensures
        ({
            let none_set = f.project_id is None && f.user_id is None && f.username is None
                && f.action is None && f.object_type is None && f.level is None && f.search is None
                && f.date_from is None && f.date_to is None;
            &&& (none_set && f.object_id is None) ==> audit_where_clause_spec(f) == Seq::<char>::empty()
            &&& none_set ==> (f.object_id matches Some(n) ==> audit_where_clause_spec(f)
                == "WHERE object_id = "@ + decimal_int(n as int))
        }),
{
    reveal_strlit("object_id");
    reveal_strlit("object_id = ");
    reveal_strlit("WHERE object_id = ");
    reveal_strlit("WHERE ");
    reveal_strlit(" = ");
    let c = audit_conditions(f);
    if f.project_id is None && f.user_id is None && f.username is None && f.action is None
        && f.object_type is None && f.level is None && f.search is None && f.date_from is None
        && f.date_to is None {
        match f.object_id {
            None => {
                assert(c =~= Seq::<Seq<char>>::empty());
            },
            Some(n) => {
                let x = "object_id = "@ + decimal_int(n as int);
                assert("object_id"@ + " = "@ + decimal_int(n as int) =~= x);
                assert(number_condition("object_id"@, f.object_id) =~= seq![x]);
                assert(c =~= seq![x]);
                assert(join_with(c, " AND "@) =~= "object_id = "@ + decimal_int(n as int));
                assert(audit_where_clause_spec(f) =~= "WHERE object_id = "@ + decimal_int(n as int));
            },
        }
    }
}

} // verus!
