use semaphore_db::error::DbError;
use semaphore_db::mock::MockStore;
use semaphore_db::model::{Project, RetrieveQueryParams, Task, Template, User};
use semaphore_db::time::Timestamp;

fn t0() -> Timestamp {
    Timestamp { secs: 0, nanos: 0 }
}

fn user(id: i32, username: &str, admin: bool) -> User {
    User {
        id,
        created: t0(),
        username: username.to_string(),
        name: username.to_string(),
        email: format!("{}@example.com", username),
        password: String::new(),
        admin,
        external: false,
        alert: false,
        pro: false,
        totp: None,
        email_otp: None,
    }
}

fn params() -> RetrieveQueryParams {
    RetrieveQueryParams { offset: 0, count: None, filter: None, sort_by: None, sort_inverted: false }
}

#[test]
fn mock_users_read_after_write() {
    let mut store = MockStore::new();
    store.create_user(user(1, "ann", false), "pw").unwrap();
    store.create_user(user(2, "ben", true), "pw").unwrap();
    assert_eq!(store.get_user(1).unwrap().username, "ann");
    let mut u = store.get_user(2).unwrap();
    u.name = "Benjamin".to_string();
    store.update_user(u).unwrap();
    assert_eq!(store.get_user(2).unwrap().name, "Benjamin");
    assert_eq!(store.get_users(params()).unwrap().len(), 2);
    assert_eq!(store.get_user_count().unwrap(), 2);
    let admins = store.get_all_admins().unwrap();
    assert_eq!(admins.len(), 1);
    assert_eq!(admins[0].id, 2);
    assert_eq!(store.get_user_by_login_or_email("x", "ann@example.com").unwrap().id, 1);
    store.delete_user(1).unwrap();
    match store.get_user(1) {
        Err(DbError::NotFound(m)) => assert_eq!(m, "User 1 not found"),
        _ => panic!("user 1 was deleted"),
    }
    match store.get_user_by_login_or_email("ann", "x") {
        Err(DbError::NotFound(m)) => assert_eq!(m, "User not found"),
        _ => panic!("ann was deleted"),
    }
}

fn project(id: i32, name: &str) -> Project {
    Project {
        id,
        created: t0(),
        name: name.to_string(),
        alert: false,
        alert_chat: None,
        max_parallel_tasks: 0,
        project_type: String::new(),
        default_secret_storage_id: None,
    }
}

#[test]
fn mock_projects_get_ids() {
    let mut store = MockStore::default();
    let p = store.create_project(project(0, "first")).unwrap();
    assert_eq!(p.id, 1);
    let q = store.create_project(project(0, "second")).unwrap();
    assert_eq!(q.id, 2);
    let r = store.create_project(project(10, "given")).unwrap();
    assert_eq!(r.id, 10);
    assert_eq!(store.get_project(2).unwrap().name, "second");
    store.delete_project(2).unwrap();
    match store.get_project(2) {
        Err(DbError::NotFound(m)) => assert_eq!(m, "Project 2 not found"),
        _ => panic!("project 2 was deleted"),
    }
}

fn template(id: i32, project_id: i32) -> Template {
    Template {
        id,
        created: t0(),
        project_id,
        name: "tpl".to_string(),
        playbook: "site.yml".to_string(),
        description: None,
        arguments: None,
        template_type: "task".to_string(),
        inventory_id: None,
        repository_id: None,
        environment_id: None,
        view_id: None,
    }
}

#[test]
fn mock_templates_stay_in_their_project() {
    let mut store = MockStore::new();
    let t = store.create_template(template(0, 4)).unwrap();
    assert_eq!(t.id, 1);
    assert_eq!(store.get_template(4, 1).unwrap().project_id, 4);
    match store.get_template(5, 1) {
        Err(DbError::NotFound(m)) => assert_eq!(m, "Template 1 not found"),
        _ => panic!("template 1 is in project 4"),
    }
}

fn task(id: i32, template_id: i32) -> Task {
    Task {
        id,
        created: t0(),
        project_id: 1,
        template_id,
        status: "waiting".to_string(),
        message: String::new(),
        commit_hash: None,
        commit_message: None,
        version: None,
        inventory_id: None,
        repository_id: None,
        environment_id: None,
        user_id: None,
    }
}

#[test]
fn mock_tasks_by_template() {
    let mut store = MockStore::new();
    store.create_task(task(0, 1)).unwrap();
    store.create_task(task(0, 2)).unwrap();
    store.create_task(task(0, 1)).unwrap();
    assert_eq!(store.get_tasks(1, Some(1)).unwrap().len(), 2);
    assert_eq!(store.get_tasks(1, None).unwrap().len(), 3);
    assert_eq!(store.get_task(1, 2).unwrap().template_id, 2);
    store.delete_task(1, 2).unwrap();
    match store.get_task(1, 2) {
        Err(DbError::NotFound(m)) => assert_eq!(m, "Task 2 not found"),
        _ => panic!("task 2 was deleted"),
    }
}

#[test]
fn mock_stubs() {
    let store = MockStore::new();
    assert_eq!(store.get_dialect(), "mock");
    assert!(store.is_permanent());
    assert!(store.is_initialized().unwrap());
    assert!(store.is_migration_applied(1).unwrap());
    assert_eq!(store.get_option("x").unwrap(), None);
}
