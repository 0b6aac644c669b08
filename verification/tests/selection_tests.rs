use semaphore_db::bolt::events::{select_all_events, select_project_events, select_user_events};
use semaphore_db::bolt::projects::member_projects;
use semaphore_db::bolt::schedules::{schedule_of_project, select_schedules, select_template_schedules, with_template_names as schedules_with_names};
use semaphore_db::bolt::sessions::{find_api_token, find_token_by_prefix, sort_tokens};
use semaphore_db::bolt::store::BoltStore;
use semaphore_db::bolt::tasks::{close_stage, of_project, select_outputs, select_tasks, stages_with_results, tasks_to_clear, template_name, with_template_names};
use semaphore_db::bolt::templates::{describe_template, select_templates};
use semaphore_db::bolt::users::{find_user_by_login_or_email, select_admins, select_users};
use semaphore_db::error::DbError;
use semaphore_db::model::{
    APIToken, Event, Project, RetrieveQueryParams, Schedule, Task, TaskOutput, TaskStage, Template, TemplateFilter, User,
};
use semaphore_db::password::{check_password, hash_password};
use semaphore_db::time::Timestamp;

fn t0() -> Timestamp {
    Timestamp { secs: 0, nanos: 0 }
}

fn user(id: i32, username: &str, name: &str, admin: bool) -> User {
    User {
        id,
        created: t0(),
        username: username.to_string(),
        name: name.to_string(),
        email: format!("{}@example.com", username),
        password: String::new(),
        admin,
        external: false,
        alert: false,
        pro: false,
        totp: None,
        email_otp: None,
    }
}

fn params(offset: usize, count: Option<usize>, filter: Option<&str>) -> RetrieveQueryParams {
    RetrieveQueryParams { offset, count, filter: filter.map(|f| f.to_string()), sort_by: None, sort_inverted: false }
}

fn ids_of_users(v: &[User]) -> Vec<i32> {
    v.iter().map(|u| u.id).collect()
}

#[test]
fn user_search_pages() {
    let users = vec![user(5, "alice", "Alice A", false), user(4, "bob", "Bob", true), user(3, "carol", "Carol", false),
        user(2, "dave", "ALICE fan", false), user(1, "eve", "Eve", true)];
    assert_eq!(ids_of_users(&select_users(&users, &params(0, None, None))), vec![5, 4, 3, 2, 1]);
    assert_eq!(ids_of_users(&select_users(&users, &params(0, None, Some("")))), vec![5, 4, 3, 2, 1]);
    assert_eq!(ids_of_users(&select_users(&users, &params(0, None, Some("ALI")))), vec![5, 2]);
    assert_eq!(ids_of_users(&select_users(&users, &params(0, None, Some("EXAMPLE.COM")))), vec![5, 4, 3, 2, 1]);
    // the first `offset` stored users are passed over before the search
    assert_eq!(ids_of_users(&select_users(&users, &params(1, None, Some("ali")))), vec![2]);
    // a page stops right after it holds more than `count` users
    assert_eq!(ids_of_users(&select_users(&users, &params(0, Some(1), None))), vec![5, 4]);
    assert_eq!(ids_of_users(&select_users(&users, &params(3, Some(0), None))), vec![2]);
    assert_eq!(ids_of_users(&select_users(&users, &params(9, Some(3), None))), Vec::<i32>::new());
}

#[test]
fn login_or_email_lookup() {
    let users = vec![user(2, "bob", "Bob", false), user(1, "alice", "Alice", false)];
    assert_eq!(find_user_by_login_or_email(&users, "alice", "x").unwrap().id, 1);
    assert_eq!(find_user_by_login_or_email(&users, "x", "bob@example.com").unwrap().id, 2);
    match find_user_by_login_or_email(&users, "x", "y") {
        Err(DbError::NotFound(m)) => assert_eq!(m, "Пользователь не найден"),
        _ => panic!("no user should match"),
    }
}

#[test]
fn admins_only() {
    let users = vec![user(3, "a", "A", true), user(2, "b", "B", false), user(1, "c", "C", true)];
    assert_eq!(ids_of_users(&select_admins(&users)), vec![3, 1]);
}

fn task(id: i32, project_id: i32, template_id: i32) -> Task {
    Task {
        id,
        created: t0(),
        project_id,
        template_id,
        status: "waiting".to_string(),
        message: String::new(),
        commit_hash: None,
        commit_message: None,
        version: None,
        inventory_id: None,
        repository_id: None,
        environment_id: None,
        user_id: None,
    }
}

fn template(id: i32, project_id: i32, name: &str) -> Template {
    Template {
        id,
        created: t0(),
        project_id,
        name: name.to_string(),
        playbook: "site.yml".to_string(),
        description: None,
        arguments: None,
        template_type: "task".to_string(),
        inventory_id: None,
        repository_id: None,
        environment_id: None,
        view_id: None,
    }
}

#[test]
fn task_listing_and_template_names() {
    let tasks = vec![task(6, 1, 1), task(5, 2, 1), task(4, 1, 2), task(3, 1, 1), task(2, 1, 1)];
    let of_project: Vec<i32> = select_tasks(&tasks, 1, None, &params(0, None, None)).iter().map(|t| t.id).collect();
    assert_eq!(of_project, vec![6, 4, 3, 2]);
    let of_template: Vec<i32> = select_tasks(&tasks, 1, Some(1), &params(0, Some(1), None)).iter().map(|t| t.id).collect();
    assert_eq!(of_template, vec![6, 3]);
    let templates = vec![template(2, 1, "deploy"), template(1, 9, "elsewhere")];
    assert_eq!(template_name(&templates, 1, 2), "deploy");
    assert_eq!(template_name(&templates, 1, 1), "");
    assert_eq!(template_name(&templates, 1, 7), "");
    let listed = with_template_names(vec![task(4, 1, 2), task(3, 1, 1)], &templates, 1);
    assert_eq!(listed.len(), 2);
    assert_eq!(listed[0].template_name, "deploy");
    assert_eq!(listed[1].template_name, "");
    assert_eq!(listed[1].task.id, 3);
    assert_eq!(tasks_to_clear(&listed, 5), Vec::<i32>::new());
    // the listing is newest first: the newest task stays, the older ones go
    assert_eq!(tasks_to_clear(&listed, 1), vec![3]);
}

#[test]
fn records_stay_in_their_project() {
    assert_eq!(of_project(task(1, 2, 3), 2, "missing").unwrap().id, 1);
    match of_project(task(1, 2, 3), 5, "Задача не найдена") {
        Err(DbError::NotFound(m)) => assert_eq!(m, "Задача не найдена"),
        _ => panic!("a task of another project must not be found"),
    }
}

#[test]
fn output_pages_and_stages() {
    let outputs: Vec<TaskOutput> = (1..=4)
        .map(|i| TaskOutput { id: 5 - i, task_id: 1, output: format!("line {}", i), time: t0(), stage_id: None })
        .collect();
    let page: Vec<i32> = select_outputs(&outputs, &params(1, Some(1), None)).iter().map(|o| o.id).collect();
    assert_eq!(page, vec![3, 2]);
    let stages = vec![
        TaskStage { id: 1, task_id: 1, start: Some(t0()), end: None, stage_type: "init".to_string() },
        TaskStage { id: 2, task_id: 1, start: Some(t0()), end: None, stage_type: "run".to_string() },
    ];
    let shown = stages_with_results(&stages);
    assert_eq!(shown.len(), 2);
    assert_eq!(shown[1].id, 2);
    assert_eq!(shown[1].stage_type, "run");
    let end = Timestamp { secs: 100, nanos: 5 };
    let closed = close_stage(&stages, 2, end).unwrap();
    assert_eq!(closed.id, 2);
    assert_eq!(closed.end, Some(end));
    assert_eq!(closed.stage_type, "run");
    match close_stage(&stages, 3, end) {
        Err(DbError::NotFound(m)) => assert_eq!(m, "Стадия не найдена"),
        _ => panic!("no such stage"),
    }
}

#[test]
fn templates_sorted_by_name() {
    let templates = vec![template(4, 1, "zeta"), template(3, 1, "alpha"), template(2, 2, "beta"), template(1, 1, "alpha")];
    let listed = select_templates(&templates, 1, &TemplateFilter { view_id: None }, &params(0, None, None));
    let names: Vec<(String, i32)> = listed.iter().map(|t| (t.name.clone(), t.id)).collect();
    assert_eq!(names, vec![("alpha".to_string(), 3), ("alpha".to_string(), 1), ("zeta".to_string(), 4)]);
    let in_view = select_templates(&templates, 1, &TemplateFilter { view_id: Some(3) }, &params(0, None, None));
    assert!(in_view.is_empty());
    let in_view0 = select_templates(&templates, 1, &TemplateFilter { view_id: Some(0) }, &params(0, None, None));
    assert_eq!(in_view0.len(), 3);
    let d = describe_template(template(1, 1, "a"), String::new());
    assert_eq!(d.description, None);
    let d = describe_template(template(1, 1, "a"), "does things".to_string());
    assert_eq!(d.description, Some("does things".to_string()));
}

fn event(id: i32, project_id: Option<i32>) -> Event {
    Event {
        id,
        object_type: "task".to_string(),
        object_id: 1,
        project_id,
        project_name: None,
        user_id: None,
        description: String::new(),
        created: t0(),
    }
}

#[test]
fn event_listings() {
    let events = vec![event(5, Some(1)), event(4, None), event(3, Some(2)), event(2, Some(1)), event(1, Some(3))];
    let ids = |v: Vec<Event>| v.iter().map(|e| e.id).collect::<Vec<i32>>();
    assert_eq!(ids(select_project_events(&events, 1, &params(0, None, None))), vec![5, 2]);
    assert_eq!(ids(select_user_events(&events, vec![2, 3], &params(0, None, None))), vec![3, 1]);
    assert_eq!(ids(select_all_events(&events, &params(1, Some(2), None))), vec![4, 3, 2]);
}

fn schedule(id: i32, template_id: i32, repository_id: Option<i32>) -> Schedule {
    Schedule {
        id,
        created: t0(),
        project_id: 1,
        template_id,
        cron_format: "* * * * *".to_string(),
        active: true,
        last_commit_hash: None,
        repository_id,
    }
}

#[test]
fn schedule_selections() {
    let s = vec![schedule(1, 1, None), schedule(2, 1, Some(7)), schedule(3, 2, Some(8))];
    let ids = |v: Vec<Schedule>| v.iter().map(|e| e.id).collect::<Vec<i32>>();
    assert_eq!(ids(select_schedules(&s, 1, true)), vec![1, 2, 3]);
    assert_eq!(ids(select_schedules(&s, 1, false)), vec![1]);
    assert_eq!(ids(select_schedules(&s, 2, true)), Vec::<i32>::new());
    assert_eq!(ids(select_template_schedules(&s, 1, false)), vec![1, 2]);
    assert_eq!(ids(select_template_schedules(&s, 1, true)), vec![2]);
    let templates = vec![template(1, 1, "one"), template(2, 1, "two")];
    let named = schedules_with_names(vec![schedule(1, 1, None), schedule(3, 2, None)], &templates, 1).unwrap();
    assert_eq!(named[1].template_name, "two");
    match schedules_with_names(vec![schedule(1, 5, None)], &templates, 1) {
        Err(DbError::NotFound(m)) => assert_eq!(m, "Шаблон не найден"),
        _ => panic!("template 5 does not exist"),
    }
    assert!(schedule_of_project(schedule(1, 1, None), 2).is_err());
}

fn token(id: &str, secs: i64) -> APIToken {
    APIToken { id: id.to_string(), user_id: 1, created: Timestamp { secs, nanos: 0 }, expired: false }
}

#[test]
fn tokens_newest_first_and_lookup() {
    let tokens = vec![token("token_a1", 10), token("token_b2", 30), token("token_c3", 20), token("token_d4", 30)];
    let sorted: Vec<String> = sort_tokens(&tokens).iter().map(|t| t.id.clone()).collect();
    assert_eq!(sorted, vec!["token_b2", "token_d4", "token_c3", "token_a1"]);
    assert_eq!(find_token_by_prefix(&tokens, "token_c").unwrap(), 2);
    match find_token_by_prefix(&tokens, "nope") {
        Err(DbError::NotFound(m)) => assert_eq!(m, "Токен не найден"),
        _ => panic!("no token has that prefix"),
    }
    assert_eq!(find_api_token(&tokens, "token_d4").unwrap().created.secs, 30);
    let twice = vec![token("token_x", 1), token("token_x", 2)];
    assert_eq!(find_api_token(&twice, "token_x").unwrap().created.secs, 1);
    assert!(find_api_token(&tokens, "token_d").is_err());
}

fn project(id: i32) -> Project {
    Project {
        id,
        created: t0(),
        name: format!("p{}", id),
        alert: false,
        alert_chat: None,
        max_parallel_tasks: 0,
        project_type: String::new(),
        default_secret_storage_id: None,
    }
}

#[test]
fn projects_of_a_member() {
    let projects = vec![project(3), project(2), project(1)];
    let ids: Vec<i32> = member_projects(&projects, vec![1, 3]).iter().map(|p| p.id).collect();
    assert_eq!(ids, vec![3, 1]);
}

#[test]
fn passwords_check_against_their_hash() {
    let h = hash_password("password123").unwrap();
    assert_eq!(h.len(), 60);
    assert!(h.starts_with("$2b$12$"));
    assert!(check_password("password123", &h).unwrap());
    assert!(!check_password("password124", &h).unwrap());
    match check_password("x", "not a hash") {
        Err(DbError::Other(m)) => assert!(m.starts_with("Bcrypt error: ")),
        _ => panic!("a malformed hash must be refused"),
    }
}

#[test]
fn new_records_get_consecutive_ids() {
    let mut store = BoltStore::new("/tmp/semaphore_db_tests/new_records").unwrap();
    let u = store.new_user(user(0, "neo", "Neo", false), "password123").unwrap();
    assert!(u.id >= 1);
    assert_eq!(u.username, "neo");
    assert!(check_password("password123", &u.password).unwrap());
    let x = store.new_external_user(user(0, "trin", "Trinity", false)).unwrap();
    assert_eq!(x.id, u.id + 1);
    assert!(x.external);
    let t = store.new_task(task(0, 1, 1)).unwrap();
    let t2 = store.new_task(task(0, 1, 1)).unwrap();
    assert_eq!(t2.id, t.id + 1);
    let (bucket, o) = store
        .new_task_output(TaskOutput { id: 0, task_id: 7, output: "x".to_string(), time: t0(), stage_id: None })
        .unwrap();
    assert_eq!(bucket, "task_outputs_7");
    assert!(o.id >= 1);
    let (bucket, tok) = store.new_api_token(token("", 0));
    assert_eq!(bucket, "tokens_1");
    assert_eq!(tok.id, format!("token_{:x}", i64::MAX - 1));
    assert!(!tok.expired);
}

#[test]
fn sequences_go_on_after_reopening() {
    let path = "/tmp/semaphore_db_tests/sequences_reopen";
    let first = {
        let mut store = BoltStore::new(path).unwrap();
        let a = store.next_sequence("widgets").unwrap();
        let b = store.next_sequence("widgets").unwrap();
        assert_eq!(b, a + 1);
        store.close().unwrap();
        b
    };
    let mut store = BoltStore::new(path).unwrap();
    assert_eq!(store.next_sequence("widgets").unwrap(), first + 1);
    store.bucket_insert("sequences", b"broken", b"xyz").unwrap();
    match store.next_sequence("broken") {
        Err(DbError::Other(m)) => assert_eq!(m, "Sequence of broken is exhausted"),
        _ => panic!("an unreadable sequence cannot give a number"),
    }
    store.bucket_insert("sequences", b"full", &(i32::MAX as u64).to_be_bytes()).unwrap();
    assert!(store.next_sequence("full").is_err());
}
