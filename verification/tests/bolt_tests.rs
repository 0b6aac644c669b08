use semaphore_db::bolt::keys::{object_key_bytes, owned_bucket, project_bucket, record_key_bytes, token_id, version_key_bytes};
use semaphore_db::bolt::store::BoltStore;
use semaphore_db::error::DbError;
use semaphore_db::model::{RetrieveQueryParams, Task, TaskWithTpl};
use semaphore_db::time::Timestamp;

fn open(name: &str) -> BoltStore {
    BoltStore::new(&format!("/tmp/semaphore_db_tests/{}", name)).unwrap()
}

#[test]
fn test_bolt_store_creation() {
    let store = open("creation");
    assert_eq!(store.filename(), "/tmp/semaphore_db_tests/creation");
    assert!(store.close().is_ok());
}

#[test]
fn test_get_dialect() {
    let store = open("dialect");
    assert_eq!(store.get_dialect(), "bolt");
}

#[test]
fn record_keys_put_newer_records_first() {
    let k1 = record_key_bytes(1);
    let k2 = record_key_bytes(2);
    assert_eq!(k1, (i64::MAX - 1).to_be_bytes().to_vec());
    assert!(k2 < k1);
    assert_eq!(version_key_bytes(-1), vec![0xff; 8]);
    assert_eq!(object_key_bytes(42), b"0000000042".to_vec());
    assert_eq!(project_bucket(7, "schedules"), "7_schedules");
    assert_eq!(owned_bucket("sessions_", 3), "sessions_3");
    assert_eq!(token_id(1), format!("token_{:x}", i64::MAX - 1));
}

#[test]
fn ids_follow_each_other() {
    let mut store = open("ids");
    assert_eq!(store.counter("things"), 0);
    assert_eq!(store.get_next_id("things").unwrap(), 1);
    assert_eq!(store.get_next_id("things").unwrap(), 2);
    assert_eq!(store.get_next_id("other").unwrap(), 1);
    assert_eq!(store.counter("things"), 2);
}

#[test]
fn records_read_back_and_go_away() {
    let mut store = open("records");
    store.put_record("items", 5, b"five").unwrap();
    store.put_record("items", 6, b"six").unwrap();
    assert_eq!(store.get_record("items", 5, "gone").unwrap(), b"five".to_vec());
    store.replace_record("items", 5, b"FIVE", "gone").unwrap();
    assert_eq!(store.get_record("items", 5, "gone").unwrap(), b"FIVE".to_vec());
    assert_eq!(store.get_record("items", 6, "gone").unwrap(), b"six".to_vec());
    store.remove_record("items", 5, "gone").unwrap();
    match store.get_record("items", 5, "gone") {
        Err(DbError::NotFound(m)) => assert_eq!(m, "gone"),
        _ => panic!("record should be gone"),
    }
    match store.replace_record("items", 5, b"x", "gone") {
        Err(DbError::NotFound(m)) => assert_eq!(m, "gone"),
        _ => panic!("replace of a missing record must fail"),
    }
    match store.remove_record("items", 5, "gone") {
        Err(DbError::NotFound(m)) => assert_eq!(m, "gone"),
        _ => panic!("remove of a missing record must fail"),
    }
}

#[test]
fn bucket_values_list_newest_first() {
    let mut store = open("newest_first");
    store.put_record("list", 1, b"one").unwrap();
    store.put_record("list", 3, b"three").unwrap();
    store.put_record("list", 2, b"two").unwrap();
    let v = store.bucket_values("list").unwrap();
    assert_eq!(v, vec![b"three".to_vec(), b"two".to_vec(), b"one".to_vec()]);
}

fn params(offset: usize, count: Option<usize>) -> RetrieveQueryParams {
    RetrieveQueryParams { offset, count, filter: None, sort_by: None, sort_inverted: false }
}

#[test]
fn objects_of_projects() {
    let mut store = open("objects");
    let before = store.counter("things");
    store.create_object(9, "things", b"a").unwrap();
    store.create_object(9, "things", b"b").unwrap();
    let first = before + 1;
    assert_eq!(store.get_object(9, "things", first).unwrap(), b"a".to_vec());
    store.update_object(9, "things", first, b"A").unwrap();
    assert_eq!(store.get_object(9, "things", first).unwrap(), b"A".to_vec());
    let page = store.get_objects(9, "things", &params(0, Some(1))).unwrap();
    assert_eq!(page, vec![b"A".to_vec()]);
    let page = store.get_objects(9, "things", &params(1, None)).unwrap();
    assert_eq!(page, vec![b"b".to_vec()]);
    store.delete_object(9, "things", first).unwrap();
    match store.get_object(9, "things", first) {
        Err(DbError::NotFound(m)) => assert_eq!(m, "Object 1 not found in things"),
        _ => panic!("object should be gone"),
    }
}

#[test]
fn migrations_are_recorded() {
    let mut store = open("migrations");
    store.apply_migration(3, "add \"users\"").unwrap();
    assert!(store.is_initialized().unwrap());
    assert!(store.is_migration_applied(3).unwrap());
    assert!(!store.is_migration_applied(4).unwrap());
    store.apply_migration(5, "five").unwrap();
    assert!(store.is_migration_applied(3).unwrap());
    assert!(store.is_migration_applied(5).unwrap());
    let stored = store.bucket_values("migration").unwrap();
    assert!(stored.contains(&b"\"add \\\"users\\\"\"".to_vec()));
}

#[test]
fn options_round_trip() {
    let mut store = open("options");
    store.set_option("theme", "dark").unwrap();
    assert_eq!(store.get_option("theme").unwrap(), Some("dark".to_string()));
    let all = store.get_options().unwrap();
    assert!(all.contains(&("theme".to_string(), "dark".to_string())));
    store.set_option("greeting", "привет").unwrap();
    store.delete_option("theme").unwrap();
    assert_eq!(store.get_option("theme").unwrap(), None);
    assert_eq!(store.get_option("greeting").unwrap(), Some("привет".to_string()));
}

#[test]
fn deleting_a_task_drops_its_buckets() {
    let mut store = open("delete_task");
    store.put_record("tasks", 4, b"{}").unwrap();
    store.put_record("task_outputs_4", 1, b"out").unwrap();
    assert_eq!(store.bucket_len("task_outputs_4").unwrap(), 1);
    store.delete_task_with_outputs(4).unwrap();
    assert!(store.get_record("tasks", 4, "gone").is_err());
    assert_eq!(store.bucket_len("task_outputs_4").unwrap(), 0);
    match store.delete_task_with_outputs(4) {
        Err(DbError::NotFound(m)) => assert_eq!(m, "Задача не найдена"),
        _ => panic!("the task is already gone"),
    }
}

#[test]
fn deleting_a_template_drops_its_buckets() {
    let mut store = open("delete_template");
    store.put_record("templates", 8, b"{}").unwrap();
    store.put_record("template_roles_8", 1, b"role").unwrap();
    store.delete_template(8).unwrap();
    assert_eq!(store.bucket_len("template_roles_8").unwrap(), 0);
    match store.delete_template(8) {
        Err(DbError::NotFound(m)) => assert_eq!(m, "Шаблон не найден"),
        _ => panic!("the template is already gone"),
    }
}

#[test]
fn clearing_keeps_the_newest_tasks() {
    let mut store = open("clear_tasks");
    let listed: Vec<TaskWithTpl> = [13, 12, 11]
        .iter()
        .map(|&id| TaskWithTpl {
            task: Task {
                id,
                created: Timestamp { secs: 0, nanos: 0 },
                project_id: 1,
                template_id: 1,
                status: String::new(),
                message: String::new(),
                commit_hash: None,
                commit_message: None,
                version: None,
                inventory_id: None,
                repository_id: None,
                environment_id: None,
                user_id: None,
            },
            tpl_playbook: None,
            tpl_type: None,
            tpl_app: None,
            user_name: None,
            template_name: String::new(),
        })
        .collect();
    for id in [11, 12, 13] {
        store.put_record("tasks", id, b"{}").unwrap();
    }
    store.clear_tasks(&listed, 2).unwrap();
    assert!(store.get_record("tasks", 13, "gone").is_ok());
    assert!(store.get_record("tasks", 12, "gone").is_ok());
    assert!(store.get_record("tasks", 11, "gone").is_err());
}
