use task_store::db::{
    create_task, delete_task, get_all_tasks, initialize_db, update_task_status, DatabaseError,
    Event, Operation, Outcome, Progress, Step, NO_DATA_DIRECTORY,
};
use task_store::models::{NewTask, Task, TaskRow};
use task_store::schema::{
    COUNT_SQL, DELETE_SQL, INIT_SQL, INSERT_SQL, SELECT_ALL_SQL, SELECT_ONE_SQL, UPDATE_SQL,
};

fn row(id: i64, title: &str, done: i64, created_at: &str) -> TaskRow {
    TaskRow { id, title: title.to_string(), done, created_at: created_at.to_string() }
}

fn task(id: i64, title: &str, done: bool, created_at: &str) -> Task {
    Task { id, title: title.to_string(), done, created_at: created_at.to_string() }
}

/// Feeds the answers to the operation in turn and notes each step it asks.
fn converse(start: Progress, answers: Vec<Event>) -> (Vec<Step>, Progress) {
    let mut asked = Vec::new();
    let mut progress = start;
    for event in answers {
        match progress {
            Progress::Pending(step) => {
                assert!(step.expects(&event), "{:?} does not answer {:?}", event, step);
                asked.push(step.clone());
                progress = step.resume(event);
            }
            Progress::Finished(_) => panic!("answer {:?} after the end", event),
        }
    }
    (asked, progress)
}

fn all_steps() -> Vec<Step> {
    vec![
        Step::Open(Operation::Initialize),
        Step::Open(Operation::List),
        Step::Open(Operation::Create { title: "t".to_string() }),
        Step::Open(Operation::SetStatus { id: 1, done: true }),
        Step::Open(Operation::Delete { id: 1 }),
        Step::BeginCreate { title: "t".to_string() },
        Step::BeginUpdate { id: 1, done: false },
        Step::ApplySchema,
        Step::CheckSchema,
        Step::SelectAll,
        Step::Insert { title: "t".to_string() },
        Step::SetDone { done: 1, id: 1 },
        Step::DeleteOne { id: 1 },
        Step::SelectOne { id: 1 },
        Step::Commit { task: task(1, "t", false, "now") },
    ]
}

#[test]
fn initialize_opens_applies_and_checks() {
    let (asked, end) =
        converse(initialize_db(), vec![Event::Completed, Event::Completed, Event::Count(0)]);
    assert_eq!(
        asked,
        vec![Step::Open(Operation::Initialize), Step::ApplySchema, Step::CheckSchema]
    );
    assert_eq!(end, Progress::Finished(Ok(Outcome::Nothing)));
}

#[test]
fn initialize_asks_the_same_every_time() {
    let answers = vec![Event::Completed, Event::Completed, Event::Count(3)];
    assert_eq!(converse(initialize_db(), answers.clone()), converse(initialize_db(), answers));
}

#[test]
fn initialize_reports_a_missing_data_directory() {
    assert_eq!(NO_DATA_DIRECTORY, "Could not find app data directory");
    let words = NO_DATA_DIRECTORY.to_string();
    let (asked, end) = converse(initialize_db(), vec![Event::IoFailed(words.clone())]);
    assert_eq!(asked, vec![Step::Open(Operation::Initialize)]);
    assert_eq!(end, Progress::Finished(Err(DatabaseError::Io(words))));
}

#[test]
fn initialize_reports_a_failed_check() {
    let words = "no such table: tasks".to_string();
    let (_, end) = converse(
        initialize_db(),
        vec![Event::Completed, Event::Completed, Event::StoreFailed(words.clone())],
    );
    assert_eq!(end, Progress::Finished(Err(DatabaseError::Rusqlite(words))));
}

#[test]
fn list_decodes_rows_in_the_order_given() {
    let rows = vec![
        row(3, "C", 0, "2024-01-03 00:00:00"),
        row(1, "A", 0, "2024-01-01 00:00:00"),
        row(2, "B", 1, "2024-01-02 00:00:00"),
    ];
    let (asked, end) = converse(get_all_tasks(), vec![Event::Completed, Event::Rows(rows)]);
    assert_eq!(asked, vec![Step::Open(Operation::List), Step::SelectAll]);
    assert_eq!(
        end,
        Progress::Finished(Ok(Outcome::Tasks(vec![
            task(3, "C", false, "2024-01-03 00:00:00"),
            task(1, "A", false, "2024-01-01 00:00:00"),
            task(2, "B", true, "2024-01-02 00:00:00"),
        ])))
    );
}

#[test]
fn list_of_an_empty_store_is_empty() {
    let (_, end) = converse(get_all_tasks(), vec![Event::Completed, Event::Rows(Vec::new())]);
    assert_eq!(end, Progress::Finished(Ok(Outcome::Tasks(Vec::new()))));
}

#[test]
fn create_stores_rereads_and_commits() {
    let start = create_task(NewTask { title: "Buy milk".to_string() });
    let stored = row(5, "Buy milk", 0, "2024-02-02 12:00:00");
    let (asked, end) = converse(
        start,
        vec![Event::Completed, Event::Completed, Event::Inserted(5), Event::Row(stored), Event::Completed],
    );
    let read = task(5, "Buy milk", false, "2024-02-02 12:00:00");
    assert_eq!(
        asked,
        vec![
            Step::Open(Operation::Create { title: "Buy milk".to_string() }),
            Step::BeginCreate { title: "Buy milk".to_string() },
            Step::Insert { title: "Buy milk".to_string() },
            Step::SelectOne { id: 5 },
            Step::Commit { task: read.clone() },
        ]
    );
    assert_eq!(end, Progress::Finished(Ok(Outcome::Task(read))));
}

#[test]
fn create_returns_what_the_store_read_back() {
    let start = create_task(NewTask { title: "asked".to_string() });
    let stored = row(9, "stored", 1, "then");
    let (_, end) = converse(
        start,
        vec![Event::Completed, Event::Completed, Event::Inserted(9), Event::Row(stored), Event::Completed],
    );
    assert_eq!(end, Progress::Finished(Ok(Outcome::Task(task(9, "stored", true, "then")))));
}

#[test]
fn create_with_an_empty_title_asks_nothing() {
    assert_eq!(
        create_task(NewTask { title: "  ".to_string() }),
        Progress::Finished(Err(DatabaseError::Validation(
            "Task title cannot be empty".to_string()
        )))
    );
}

#[test]
fn create_with_a_long_title_asks_nothing() {
    assert_eq!(
        create_task(NewTask { title: "y".repeat(257) }),
        Progress::Finished(Err(DatabaseError::Validation(
            "Task title cannot exceed 256 characters".to_string()
        )))
    );
}

#[test]
fn create_with_the_longest_title_starts() {
    let title = "y".repeat(256);
    assert_eq!(
        create_task(NewTask { title: title.clone() }),
        Progress::Pending(Step::Open(Operation::Create { title }))
    );
}

#[test]
fn create_does_not_commit_after_a_failed_reread() {
    let start = create_task(NewTask { title: "x".to_string() });
    let words = "Query returned no rows".to_string();
    let (asked, end) = converse(
        start,
        vec![Event::Completed, Event::Completed, Event::Inserted(1), Event::StoreFailed(words.clone())],
    );
    assert!(asked.iter().all(|step| !matches!(step, Step::Commit { .. })));
    assert_eq!(end, Progress::Finished(Err(DatabaseError::Rusqlite(words))));
}

#[test]
fn create_reports_a_failed_commit() {
    let start = create_task(NewTask { title: "x".to_string() });
    let words = "database is locked".to_string();
    let (_, end) = converse(
        start,
        vec![
            Event::Completed,
            Event::Completed,
            Event::Inserted(1),
            Event::Row(row(1, "x", 0, "now")),
            Event::StoreFailed(words.clone()),
        ],
    );
    assert_eq!(end, Progress::Finished(Err(DatabaseError::Rusqlite(words))));
}

#[test]
fn update_sets_rereads_and_commits() {
    let (asked, end) = converse(
        update_task_status(4, true),
        vec![
            Event::Completed,
            Event::Completed,
            Event::Changed(1),
            Event::Row(row(4, "Walk", 1, "2024-03-03 08:00:00")),
            Event::Completed,
        ],
    );
    let read = task(4, "Walk", true, "2024-03-03 08:00:00");
    assert_eq!(
        asked,
        vec![
            Step::Open(Operation::SetStatus { id: 4, done: true }),
            Step::BeginUpdate { id: 4, done: true },
            Step::SetDone { done: 1, id: 4 },
            Step::SelectOne { id: 4 },
            Step::Commit { task: read.clone() },
        ]
    );
    assert_eq!(end, Progress::Finished(Ok(Outcome::Task(read))));
}

#[test]
fn update_to_open_binds_zero() {
    let (asked, _) = converse(update_task_status(4, false), vec![Event::Completed, Event::Completed]);
    assert_eq!(asked[1], Step::BeginUpdate { id: 4, done: false });
    let (_, next) = converse(update_task_status(4, false), vec![Event::Completed, Event::Completed]);
    assert_eq!(next, Progress::Pending(Step::SetDone { done: 0, id: 4 }));
}

#[test]
fn update_of_a_missing_task_is_not_found_and_never_commits() {
    let (asked, end) = converse(
        update_task_status(999999, true),
        vec![Event::Completed, Event::Completed, Event::Changed(0)],
    );
    assert_eq!(
        asked,
        vec![
            Step::Open(Operation::SetStatus { id: 999999, done: true }),
            Step::BeginUpdate { id: 999999, done: true },
            Step::SetDone { done: 1, id: 999999 },
        ]
    );
    assert_eq!(end, Progress::Finished(Err(DatabaseError::TaskNotFound(999999))));
}

#[test]
fn delete_removes_one_row() {
    let (asked, end) = converse(delete_task(6), vec![Event::Completed, Event::Changed(1)]);
    assert_eq!(asked, vec![Step::Open(Operation::Delete { id: 6 }), Step::DeleteOne { id: 6 }]);
    assert_eq!(end, Progress::Finished(Ok(Outcome::Nothing)));
}

#[test]
fn delete_of_a_missing_task_is_not_found() {
    let (_, end) = converse(delete_task(999999), vec![Event::Completed, Event::Changed(0)]);
    assert_eq!(end, Progress::Finished(Err(DatabaseError::TaskNotFound(999999))));
}

#[test]
fn store_failure_ends_every_step() {
    for step in all_steps() {
        let event = Event::StoreFailed("disk I/O error".to_string());
        assert!(step.expects(&event));
        assert_eq!(
            step.resume(event),
            Progress::Finished(Err(DatabaseError::Rusqlite("disk I/O error".to_string())))
        );
    }
}

#[test]
fn only_the_opening_expects_an_io_failure() {
    for step in all_steps() {
        let event = Event::IoFailed("permission denied".to_string());
        assert_eq!(step.expects(&event), matches!(step, Step::Open(_)), "{:?}", step);
    }
}

#[test]
fn each_step_expects_its_own_kind_of_answer() {
    let answers = vec![
        Event::Completed,
        Event::Count(1),
        Event::Rows(Vec::new()),
        Event::Row(row(1, "t", 0, "now")),
        Event::Inserted(1),
        Event::Changed(1),
    ];
    for step in all_steps() {
        let fitting: Vec<usize> =
            (0..answers.len()).filter(|&k| step.expects(&answers[k])).collect();
        let wanted = match step {
            Step::Open(_)
            | Step::BeginCreate { .. }
            | Step::BeginUpdate { .. }
            | Step::ApplySchema
            | Step::Commit { .. } => 0,
            Step::CheckSchema => 1,
            Step::SelectAll => 2,
            Step::SelectOne { .. } => 3,
            Step::Insert { .. } => 4,
            Step::SetDone { .. } | Step::DeleteOne { .. } => 5,
        };
        assert_eq!(fitting, vec![wanted], "{:?}", step);
    }
}

#[test]
fn steps_name_their_statements() {
    assert_eq!(Step::Open(Operation::List).sql(), None);
    assert_eq!(Step::BeginCreate { title: String::new() }.sql(), None);
    assert_eq!(Step::BeginUpdate { id: 1, done: true }.sql(), None);
    assert_eq!(Step::Commit { task: task(1, "t", false, "") }.sql(), None);
    assert_eq!(Step::ApplySchema.sql(), Some(INIT_SQL));
    assert_eq!(Step::CheckSchema.sql(), Some(COUNT_SQL));
    assert_eq!(Step::SelectAll.sql(), Some(SELECT_ALL_SQL));
    assert_eq!(Step::Insert { title: String::new() }.sql(), Some(INSERT_SQL));
    assert_eq!(Step::SetDone { done: 1, id: 1 }.sql(), Some(UPDATE_SQL));
    assert_eq!(Step::DeleteOne { id: 1 }.sql(), Some(DELETE_SQL));
    assert_eq!(Step::SelectOne { id: 1 }.sql(), Some(SELECT_ONE_SQL));
}

#[test]
fn schema_creates_only_what_is_absent() {
    assert_eq!(INIT_SQL.matches("CREATE ").count(), 3);
    assert_eq!(INIT_SQL.matches("IF NOT EXISTS").count(), 3);
    assert!(INIT_SQL.contains("CREATE TABLE IF NOT EXISTS tasks"));
    assert!(INIT_SQL.contains("CREATE INDEX IF NOT EXISTS idx_tasks_done ON tasks(done)"));
    assert!(INIT_SQL
        .contains("CREATE INDEX IF NOT EXISTS idx_tasks_created_at ON tasks(created_at)"));
}

#[test]
fn first_steps_follow_the_operation() {
    assert_eq!(Operation::Initialize.first_step(), Step::ApplySchema);
    assert_eq!(Operation::List.first_step(), Step::SelectAll);
    assert_eq!(
        Operation::Create { title: "t".to_string() }.first_step(),
        Step::BeginCreate { title: "t".to_string() }
    );
    assert_eq!(
        Operation::SetStatus { id: 2, done: true }.first_step(),
        Step::BeginUpdate { id: 2, done: true }
    );
    assert_eq!(Operation::Delete { id: 2 }.first_step(), Step::DeleteOne { id: 2 });
}

#[test]
fn messages_read_as_sentences() {
    assert_eq!(
        DatabaseError::Rusqlite("no such table: tasks".to_string()).message(),
        "Database error: no such table: tasks"
    );
    assert_eq!(
        DatabaseError::Validation("Task title cannot be empty".to_string()).message(),
        "Validation error: Task title cannot be empty"
    );
    assert_eq!(
        DatabaseError::TaskNotFound(999999).message(),
        "Task not found with id: 999999"
    );
    assert_eq!(DatabaseError::Io("denied".to_string()).message(), "IO error: denied");
}

#[test]
fn messages_write_ids_in_decimal() {
    for id in [0i64, 7, 10, 109, -1, -10, 1234567890123, i64::MAX, i64::MIN] {
        assert_eq!(
            DatabaseError::TaskNotFound(id).message(),
            format!("Task not found with id: {}", id)
        );
    }
}
