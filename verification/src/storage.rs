//! The `tasks` table in local SQLite storage: its schema, the statements
//! run against it, and how their results become the library's values.

use vstd::prelude::*;
use crate::commands::TaskRow;

verus! {

/// Directory under the home directory that holds the database.
pub const DATA_DIR_NAME: &'static str = ".my-tray-app";
/// File name of the database.
pub const DB_FILE_NAME: &'static str = "db.sqlite";

/// Creates the table on first use.
pub const SCHEMA_SQL: &'static str = "CREATE TABLE IF NOT EXISTS tasks (
                id          INTEGER PRIMARY KEY AUTOINCREMENT,
                name        TEXT NOT NULL,
                created_at  TEXT NOT NULL
            );";
/// Inserts a task; `?1` is its name and `?2` its RFC 3339 creation time.
pub const INSERT_TASK_SQL: &'static str = "INSERT INTO tasks (name, created_at) VALUES (?1, ?2)";
/// Counts the stored tasks.
pub const COUNT_TASKS_SQL: &'static str = "SELECT COUNT(*) FROM tasks";
/// Lists the 100 most recent tasks, newest first.
pub const LIST_TASKS_SQL: &'static str = "SELECT id, name, created_at FROM tasks ORDER BY id DESC LIMIT 100";

/// The number of tasks from the value of `COUNT(*)`, converted as `as`
/// converts an `i64` to a `usize`.
pub fn task_count_from_sql(n: i64) -> (r: usize)
    ensures
        r == n as usize,
        0 <= n <= usize::MAX ==> r == n,
{
    n as usize
}

/// The rows read, or none where they could not be read.
pub fn rows_or_empty(rows: Option<Vec<TaskRow>>) -> (r: Vec<TaskRow>)
    ensures
        r@ == match rows {
            Some(v) => v@,
            None => Seq::<TaskRow>::empty(),
        },
{
    match rows {
        Some(v) => v,
        None => Vec::new(),
    }
}

} // verus!
