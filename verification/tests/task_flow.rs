use classmate::errors::TaskError;
use classmate::status::TaskStatus;
use classmate::tasks::{add_task, delete_task, get_tasks, set_task_status, update_task_status};

fn fresh_db() -> rusqlite::Connection {
    let conn = rusqlite::Connection::open_in_memory().unwrap();
    conn.execute(
        "CREATE TABLE IF NOT EXISTS tasks (
             id INTEGER PRIMARY KEY,
             title TEXT NOT NULL,
             status TEXT NOT NULL
         )",
        (),
    )
    .unwrap();
    conn
}

fn status_of(conn: &rusqlite::Connection, id: i64) -> String {
    conn.query_row("SELECT status FROM tasks WHERE id = ?1", (id,), |row| row.get(0)).unwrap()
}

#[test]
fn add_task_then_list_exactly_one_pending() {
    let mut conn = fresh_db();
    let id = add_task(&mut conn, "Write report").unwrap();
    let tasks = get_tasks(&conn).unwrap();
    assert_eq!(tasks.len(), 1);
    assert_eq!(tasks[0].id, id);
    assert_eq!(tasks[0].title, "Write report");
    assert_eq!(tasks[0].status, "Pending");
}

#[test]
fn every_status_accepted_in_any_order() {
    let mut conn = fresh_db();
    let id = add_task(&mut conn, "juggle states").unwrap();
    // No sequencing is enforced: Finished first, then back to Pending, then
    // Running, each accepted.
    for status in ["Finished", "Pending", "Running"] {
        assert_eq!(update_task_status(&mut conn, id, status), Ok(()));
        assert_eq!(status_of(&conn, id), status);
    }
}

#[test]
fn typed_status_transitions_accepted() {
    let mut conn = fresh_db();
    let id = add_task(&mut conn, "typed").unwrap();
    for status in [TaskStatus::Running, TaskStatus::Finished, TaskStatus::Pending] {
        assert_eq!(set_task_status(&mut conn, id, status), Ok(()));
        assert_eq!(status_of(&conn, id), status.as_str());
    }
}

#[test]
fn bogus_status_rejected_and_stored_status_unchanged() {
    let mut conn = fresh_db();
    let id = add_task(&mut conn, "stay pending").unwrap();
    assert_eq!(
        update_task_status(&mut conn, id, "Bogus"),
        Err(TaskError::InvalidStatus)
    );
    assert_eq!(status_of(&conn, id), "Pending");
    // The guard is exact spelling: near misses are invalid too.
    assert_eq!(
        update_task_status(&mut conn, id, "pending"),
        Err(TaskError::InvalidStatus)
    );
    assert_eq!(
        update_task_status(&mut conn, id, ""),
        Err(TaskError::InvalidStatus)
    );
    assert_eq!(status_of(&conn, id), "Pending");
}

#[test]
fn updating_missing_task_succeeds_silently() {
    let mut conn = fresh_db();
    assert_eq!(update_task_status(&mut conn, 12345, "Running"), Ok(()));
    assert_eq!(get_tasks(&conn).unwrap().len(), 0);
}

#[test]
fn delete_task_twice_both_succeed() {
    let mut conn = fresh_db();
    let id = add_task(&mut conn, "ephemeral").unwrap();
    assert_eq!(delete_task(&mut conn, id), Ok(()));
    assert_eq!(delete_task(&mut conn, id), Ok(()));
    assert_eq!(get_tasks(&conn).unwrap().len(), 0);
}

#[test]
fn simulated_clients_get_distinct_ids_and_nothing_is_lost() {
    // N clients sharing the one gateway handle, each taking its exclusive
    // turn: every add yields a fresh id and every write survives.
    let gateway = std::sync::Mutex::new(fresh_db());
    let n: usize = 8;
    let mut ids: Vec<i64> = Vec::new();
    for k in 0..n {
        let mut conn = gateway.lock().unwrap();
        let title = format!("task {}", k);
        ids.push(add_task(&mut conn, title.as_str()).unwrap());
    }
    let mut deduped = ids.clone();
    deduped.sort();
    deduped.dedup();
    assert_eq!(deduped.len(), n);
    let conn = gateway.lock().unwrap();
    assert_eq!(get_tasks(&conn).unwrap().len(), n);
}

#[test]
fn status_parse_accepts_exactly_the_canonical_spellings() {
    assert_eq!(TaskStatus::parse("Pending"), Some(TaskStatus::Pending));
    assert_eq!(TaskStatus::parse("Running"), Some(TaskStatus::Running));
    assert_eq!(TaskStatus::parse("Finished"), Some(TaskStatus::Finished));
    assert_eq!(TaskStatus::parse("Bogus"), None);
    assert_eq!(TaskStatus::parse("FINISHED"), None);
    assert_eq!(TaskStatus::parse(" Pending"), None);
    for status in [TaskStatus::Pending, TaskStatus::Running, TaskStatus::Finished] {
        assert_eq!(TaskStatus::parse(status.as_str()), Some(status));
    }
}

#[test]
fn empty_title_is_accepted() {
    let mut conn = fresh_db();
    let id = add_task(&mut conn, "").unwrap();
    let tasks = get_tasks(&conn).unwrap();
    assert_eq!(tasks.len(), 1);
    assert_eq!(tasks[0].id, id);
    assert_eq!(tasks[0].title, "");
    assert_eq!(tasks[0].status, "Pending");
}

#[test]
fn task_storage_failure_reports_storage() {
    let mut conn = rusqlite::Connection::open_in_memory().unwrap();
    assert_eq!(add_task(&mut conn, "no table"), Err(TaskError::Storage));
    assert_eq!(delete_task(&mut conn, 1), Err(TaskError::Storage));
    assert_eq!(update_task_status(&mut conn, 1, "Running"), Err(TaskError::Storage));
    assert!(matches!(get_tasks(&conn), Err(TaskError::Storage)));
}
