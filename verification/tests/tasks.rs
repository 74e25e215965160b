use tranquilo::errors::ErrorKind;
use tranquilo::tasks::{
    change_outcome, delete_statement, init_statement, insert_failure, insert_statement,
    new_task, next_attempt, select_statement, task_with_timestamp, tasks_of_day, timestamp,
    today, update_statement, Statement, Task, TaskRow, TaskStatus, MAX_ATTEMPTS,
};

const NOON: u64 = 1_714_564_800_000;

fn row(id: &str, text: &str, status: &str, timestamp: &str) -> TaskRow {
    TaskRow {
        id: id.to_string(),
        text: text.to_string(),
        status: status.to_string(),
        timestamp: timestamp.to_string(),
    }
}

fn task(id: &str, text: &str, status: TaskStatus, timestamp: &str) -> Task {
    Task {
        id: id.to_string(),
        text: text.to_string(),
        status,
        timestamp: timestamp.to_string(),
    }
}

fn run(connection: &sqlite::Connection, statement: &Statement) -> Result<Vec<TaskRow>, sqlite::Error> {
    let mut prepared = connection.prepare(statement.sql.as_str())?;
    for (i, value) in statement.params.iter().enumerate() {
        prepared.bind((i + 1, value.as_str()))?;
    }
    let mut rows = Vec::new();
    while let sqlite::State::Row = prepared.next()? {
        rows.push(TaskRow {
            id: prepared.read::<String, _>(0)?,
            text: prepared.read::<String, _>(1)?,
            status: prepared.read::<String, _>(2)?,
            timestamp: prepared.read::<String, _>(3)?,
        });
    }
    Ok(rows)
}

fn fetch(connection: &sqlite::Connection, now_ms: u64) -> Vec<Task> {
    let day = today(now_ms).unwrap();
    let rows = run(connection, &select_statement(&day)).unwrap();
    tasks_of_day(rows, &day)
}

#[test]
fn status_is_stored_by_name() {
    assert_eq!(TaskStatus::Pending.to_string(), "Pending");
    assert_eq!(TaskStatus::Completed.to_string(), "Completed");
    assert_eq!(TaskStatus::Cancelled.to_string(), "Cancelled");
}

#[test]
fn status_is_read_by_name() {
    assert_eq!(TaskStatus::from_str("Pending"), Ok(TaskStatus::Pending));
    assert_eq!(TaskStatus::from_str("Completed"), Ok(TaskStatus::Completed));
    assert_eq!(TaskStatus::from_str("Cancelled"), Ok(TaskStatus::Cancelled));
    for bad in ["", "pending", "Done", "Pending ", "Canceled"] {
        assert_eq!(TaskStatus::from_str(bad), Err(ErrorKind::Malformed), "{bad:?}");
    }
}

#[test]
fn status_round_trips() {
    for status in [TaskStatus::Pending, TaskStatus::Completed, TaskStatus::Cancelled] {
        assert_eq!(TaskStatus::from_str(&status.to_string()), Ok(status));
    }
}

#[test]
fn row_round_trips() {
    let t = task("17", "write", TaskStatus::Cancelled, "2024-05-01 12:00:00 UTC");
    assert_eq!(t.encode(), row("17", "write", "Cancelled", "2024-05-01 12:00:00 UTC"));
    assert_eq!(t.encode().decode(), Ok(t));
    assert_eq!(row("1", "x", "Unknown", "t").decode(), Err(ErrorKind::Malformed));
}

#[test]
fn timestamp_is_written_in_utc() {
    assert_eq!(timestamp(947_638_923_004), Some("2000-01-12 01:02:03.004 UTC".to_string()));
    assert_eq!(timestamp(NOON), Some("2024-05-01 12:00:00 UTC".to_string()));
    assert_eq!(timestamp(0), Some("1970-01-01 00:00:00 UTC".to_string()));
    assert_eq!(timestamp(u64::MAX), None);
    assert_eq!(timestamp(i64::MAX as u64), None);
}

#[test]
fn today_is_the_utc_date() {
    assert_eq!(today(947_638_923_004), Some("2000-01-12".to_string()));
    assert_eq!(today(NOON), Some("2024-05-01".to_string()));
    assert_eq!(today(NOON + 12 * 3_600_000 - 1), Some("2024-05-01".to_string()));
    assert_eq!(today(NOON + 12 * 3_600_000), Some("2024-05-02".to_string()));
    assert_eq!(today(u64::MAX), None);
}

#[test]
fn new_task_is_pending_and_dated() {
    assert_eq!(
        new_task("write the essay", NOON),
        Some(task("1714564800000", "write the essay", TaskStatus::Pending, "2024-05-01 12:00:00 UTC"))
    );
}

#[test]
fn no_task_without_text_or_time() {
    assert_eq!(new_task("", NOON), None);
    assert_eq!(new_task("write the essay", u64::MAX), None);
    assert_eq!(task_with_timestamp("write the essay", 5, None), None);
    assert_eq!(task_with_timestamp("", 5, Some("t".to_string())), None);
    assert_eq!(
        task_with_timestamp("a", 5, Some("t".to_string())),
        Some(task("5", "a", TaskStatus::Pending, "t"))
    );
}

#[test]
fn new_task_belongs_to_the_day_of_its_creation() {
    for now in [0, 947_638_923_004, NOON, NOON + 86_399_999] {
        let t = new_task("x", now).unwrap();
        let day = today(now).unwrap();
        assert!(t.timestamp.contains(&day));
        assert_eq!(tasks_of_day(vec![t.encode()], &day), vec![t]);
    }
}

#[test]
fn day_list_is_newest_first_without_duplicates() {
    let rows = vec![
        row("1714564800002", "b", "Pending", "2024-05-01 12:00:00.002 UTC"),
        row("1714564800009", "e", "Completed", "2024-05-01 12:00:00.009 UTC"),
        row("1714478400000", "yesterday", "Pending", "2024-04-30 12:00:00 UTC"),
        row("1714564800001", "a", "Cancelled", "2024-05-01 12:00:00.001 UTC"),
        row("1714564800005", "broken", "Doing", "2024-05-01 12:00:00.005 UTC"),
        row("1714564800002", "again", "Pending", "2024-05-01 12:00:00.002 UTC"),
    ];
    let list = tasks_of_day(rows, "2024-05-01");
    assert_eq!(
        list,
        vec![
            task("1714564800009", "e", TaskStatus::Completed, "2024-05-01 12:00:00.009 UTC"),
            task("1714564800002", "again", TaskStatus::Pending, "2024-05-01 12:00:00.002 UTC"),
            task("1714564800001", "a", TaskStatus::Cancelled, "2024-05-01 12:00:00.001 UTC"),
        ]
    );
    for pair in list.windows(2) {
        assert!(pair[0].id > pair[1].id);
    }
}

#[test]
fn day_list_of_no_rows_is_empty() {
    assert_eq!(tasks_of_day(Vec::new(), "2024-05-01"), Vec::<Task>::new());
    assert_eq!(
        tasks_of_day(vec![row("1", "x", "Pending", "2024-05-02 00:00:00 UTC")], "2024-05-01"),
        Vec::<Task>::new()
    );
}

#[test]
fn statements_bind_their_values() {
    assert_eq!(
        init_statement(),
        Statement {
            sql: "CREATE TABLE IF NOT EXISTS tasks (id TEXT PRIMARY KEY NOT NULL, text TEXT NOT NULL, status TEXT NOT NULL, timestamp TEXT NOT NULL)".to_string(),
            params: vec![],
        }
    );
    let t = task("7", "it's; DROP TABLE tasks", TaskStatus::Pending, "2024-05-01 12:00:00 UTC");
    assert_eq!(
        insert_statement(&t),
        Statement {
            sql: "INSERT INTO tasks (id, text, status, timestamp) VALUES (?, ?, ?, ?)".to_string(),
            params: vec![
                "7".to_string(),
                "it's; DROP TABLE tasks".to_string(),
                "Pending".to_string(),
                "2024-05-01 12:00:00 UTC".to_string(),
            ],
        }
    );
    assert_eq!(
        select_statement("2024-05-01"),
        Statement {
            sql: "SELECT id, text, status, timestamp FROM tasks WHERE timestamp LIKE ? ORDER BY id DESC".to_string(),
            params: vec!["%2024-05-01%".to_string()],
        }
    );
    assert_eq!(
        update_statement("7", TaskStatus::Completed),
        Statement {
            sql: "UPDATE tasks SET status = ? WHERE id = ?".to_string(),
            params: vec!["Completed".to_string(), "7".to_string()],
        }
    );
    assert_eq!(
        delete_statement("7"),
        Statement { sql: "DELETE FROM tasks WHERE id = ?".to_string(), params: vec!["7".to_string()] }
    );
}

#[test]
fn failures_are_classified() {
    assert_eq!(insert_failure(Some(19)), ErrorKind::Conflict);
    assert_eq!(insert_failure(Some(1)), ErrorKind::Fatal);
    assert_eq!(insert_failure(Some(14)), ErrorKind::Fatal);
    assert_eq!(insert_failure(None), ErrorKind::Fatal);
    assert_eq!(change_outcome(0), Err(ErrorKind::NotFound));
    assert_eq!(change_outcome(1), Ok(()));
    assert_eq!(change_outcome(3), Ok(()));
}

#[test]
fn task_lifecycle() {
    let connection = sqlite::open(":memory:").unwrap();
    run(&connection, &init_statement()).unwrap();
    run(&connection, &init_statement()).unwrap();
    assert_eq!(fetch(&connection, NOON), Vec::<Task>::new());

    let created = new_task("write the essay", NOON).unwrap();
    run(&connection, &insert_statement(&created)).unwrap();
    let listed = fetch(&connection, NOON + 1_000);
    assert_eq!(listed, vec![created.clone()]);
    assert_eq!(listed[0].status, TaskStatus::Pending);
    assert!(listed[0].timestamp.starts_with("2024-05-01"));

    run(&connection, &update_statement(&created.id, TaskStatus::Completed)).unwrap();
    assert_eq!(change_outcome(connection.change_count()), Ok(()));
    let mut completed = created.clone();
    completed.status = TaskStatus::Completed;
    assert_eq!(fetch(&connection, NOON + 2_000), vec![completed]);

    run(&connection, &delete_statement(&created.id)).unwrap();
    assert_eq!(change_outcome(connection.change_count()), Ok(()));
    assert_eq!(fetch(&connection, NOON + 3_000), Vec::<Task>::new());
}

#[test]
fn store_orders_and_filters_the_day() {
    let connection = sqlite::open(":memory:").unwrap();
    run(&connection, &init_statement()).unwrap();
    let first = new_task("first", NOON).unwrap();
    let second = new_task("second", NOON + 5).unwrap();
    let next_day = new_task("tomorrow", NOON + 86_400_000).unwrap();
    for t in [&first, &next_day, &second] {
        run(&connection, &insert_statement(t)).unwrap();
    }
    assert_eq!(fetch(&connection, NOON + 10), vec![second, first]);
    assert_eq!(fetch(&connection, NOON + 86_400_000), vec![next_day]);
}

#[test]
fn colliding_id_is_a_conflict() {
    let connection = sqlite::open(":memory:").unwrap();
    run(&connection, &init_statement()).unwrap();
    let created = new_task("write the essay", NOON).unwrap();
    run(&connection, &insert_statement(&created)).unwrap();
    let again = new_task("other text", NOON).unwrap();
    let failure = run(&connection, &insert_statement(&again)).unwrap_err();
    assert_eq!(insert_failure(failure.code), ErrorKind::Conflict);
    assert_eq!(fetch(&connection, NOON), vec![created]);
}

#[test]
fn missing_id_is_not_found() {
    let connection = sqlite::open(":memory:").unwrap();
    run(&connection, &init_statement()).unwrap();
    run(&connection, &update_statement("404", TaskStatus::Completed)).unwrap();
    assert_eq!(change_outcome(connection.change_count()), Err(ErrorKind::NotFound));
    run(&connection, &delete_statement("404")).unwrap();
    assert_eq!(change_outcome(connection.change_count()), Err(ErrorKind::NotFound));
}

#[test]
fn user_text_is_never_part_of_a_statement() {
    let connection = sqlite::open(":memory:").unwrap();
    run(&connection, &init_statement()).unwrap();
    let hostile = new_task("x'); DROP TABLE tasks; --", NOON).unwrap();
    run(&connection, &insert_statement(&hostile)).unwrap();
    assert_eq!(fetch(&connection, NOON), vec![hostile]);
}

#[test]
fn conflict_is_tried_again_with_the_next_instant() {
    assert_eq!(MAX_ATTEMPTS, 16);
    assert_eq!(next_attempt(ErrorKind::Conflict, NOON, 0), Some(NOON + 1));
    assert_eq!(next_attempt(ErrorKind::Conflict, NOON, 1), Some(NOON + 2));
    assert_eq!(next_attempt(ErrorKind::Conflict, NOON, 14), Some(NOON + 15));
    assert_eq!(next_attempt(ErrorKind::Conflict, NOON, 15), None);
    assert_eq!(next_attempt(ErrorKind::Conflict, NOON, u64::MAX), None);
    assert_eq!(next_attempt(ErrorKind::Conflict, u64::MAX, 0), None);
    assert_eq!(next_attempt(ErrorKind::Conflict, u64::MAX - 3, 2), Some(u64::MAX));
    assert_eq!(next_attempt(ErrorKind::Conflict, u64::MAX - 3, 3), None);
}

#[test]
fn other_failures_are_not_tried_again() {
    for kind in [
        ErrorKind::AlreadyRunning,
        ErrorKind::NotFound,
        ErrorKind::Malformed,
        ErrorKind::AssetMissing,
        ErrorKind::Fatal,
    ] {
        assert_eq!(next_attempt(kind, NOON, 0), None);
    }
}

#[test]
fn taken_id_gets_the_next_free_instant() {
    let connection = sqlite::open(":memory:").unwrap();
    run(&connection, &init_statement()).unwrap();
    for offset in 0..3 {
        let taken = new_task("taken", NOON + offset).unwrap();
        run(&connection, &insert_statement(&taken)).unwrap();
    }
    let mut instant = Some(NOON);
    let mut attempt = 0;
    let mut stored = None;
    while let Some(now) = instant {
        let task = new_task("late", now).unwrap();
        match run(&connection, &insert_statement(&task)) {
            Ok(_) => {
                stored = Some(task);
                instant = None;
            }
            Err(failure) => {
                instant = next_attempt(insert_failure(failure.code), NOON, attempt);
                attempt += 1;
            }
        }
    }
    assert_eq!(attempt, 3);
    assert_eq!(stored.unwrap().id, "1714564800003");
    assert_eq!(fetch(&connection, NOON).len(), 4);
}
