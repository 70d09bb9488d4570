//! The layout of the store and the statements that the operations run.

use vstd::prelude::*;

verus! {

/// The name of the store's file inside the application's data directory.
pub const DB_FILE_NAME: &'static str = "tasks.db";

/// Lays out the store: the table of tasks and its two indexes. Every
/// statement creates only what is absent, so the batch is safe to run on
/// every start.
pub const INIT_SQL: &'static str = "
CREATE TABLE IF NOT EXISTS tasks (
    id INTEGER PRIMARY KEY AUTOINCREMENT,
    title TEXT NOT NULL,
    done INTEGER NOT NULL DEFAULT 0,
    created_at TIMESTAMP NOT NULL DEFAULT CURRENT_TIMESTAMP
);

CREATE INDEX IF NOT EXISTS idx_tasks_done ON tasks(done);
CREATE INDEX IF NOT EXISTS idx_tasks_created_at ON tasks(created_at);
";

/// Counts the tasks: the read that shows the layout to be in place.
pub const COUNT_SQL: &'static str = "SELECT COUNT(*) FROM tasks";

/// Reads every task, open ones first and, among equals, the newest first.
pub const SELECT_ALL_SQL: &'static str = "SELECT id, title, done, datetime(created_at) as created_at
         FROM tasks
         ORDER BY done ASC, created_at DESC";

/// Reads the task with the id bound to `?1`.
pub const SELECT_ONE_SQL: &'static str = "SELECT id, title, done, datetime(created_at) as created_at
         FROM tasks WHERE id = ?1";

/// Stores an open task with the title bound to `?1`, dated by the store's
/// own clock.
pub const INSERT_SQL: &'static str = "INSERT INTO tasks (title, done, created_at) VALUES (?1, 0, datetime('now'))";

/// Sets the flag of the task with the id bound to `?2` to the integer bound
/// to `?1`.
pub const UPDATE_SQL: &'static str = "UPDATE tasks SET done = ?1 WHERE id = ?2";

/// Removes the task with the id bound to `?1`.
pub const DELETE_SQL: &'static str = "DELETE FROM tasks WHERE id = ?1";

} // verus!
