//! The HTTP control panel's answers.
//!
//! | Method | Path      | Answer |
//! |--------|-----------|--------|
//! | GET    | `/health` | `ok` |
//! | POST   | `/task`   | hands on `StartTask(name)`, answers `accepted` |
//! | POST   | `/stop`   | hands on `StopTask`, answers `accepted` |
//! | GET    | `/status` | the status as JSON |
//! | GET    | `/tasks`  | the stored tasks as JSON ([`crate::storage::rows_or_empty`]) |

use vstd::prelude::*;
use crate::commands::{AppStatus, StatusView};

verus! {

pub const HEALTH_PATH: &'static str = "/health";
pub const TASK_PATH: &'static str = "/task";
pub const STOP_PATH: &'static str = "/stop";
pub const STATUS_PATH: &'static str = "/status";
pub const TASKS_PATH: &'static str = "/tasks";

/// Body of `GET /health`.
pub const HEALTH_BODY: &'static str = "ok";
/// Body of `POST /task` and `POST /stop`, whether or not the main thread
/// took the command.
pub const ACCEPTED_BODY: &'static str = "accepted";

/// The status reported when the main thread cannot be reached.
pub open spec fn idle_status() -> StatusView {
    StatusView { running: false, current_task: None, task_count: 0 }
}

/// The body of `GET /status`: the main thread's answer, or the idle status
/// where there was none.
pub fn status_or_idle(answer: Option<AppStatus>) -> (r: AppStatus)
    ensures
        r@ == match answer {
            Some(s) => s@,
            None => idle_status(),
        },
{
    match answer {
        Some(s) => s,
        None => AppStatus { running: false, current_task: None, task_count: 0 },
    }
}

} // verus!
