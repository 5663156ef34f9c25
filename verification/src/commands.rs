//! Commands understood by the main thread, and the values it hands back.
//!
//! The HTTP handlers and the TCP listener never touch the state directly:
//! they build an [`AppCommand`] and push it to the main thread, which owns
//! the canonical [`AppStatus`].

use vstd::prelude::*;

verus! {

/// A oneshot sender of tokio carries a reply back to whoever asked; the
/// library only moves it from a command into an effect.
#[verifier::external_type_specification]
#[verifier::external_body]
#[verifier::reject_recursive_types(T)]
pub struct ExOneshotSender<T>(tokio::sync::oneshot::Sender<T>);

/// Snapshot returned by `GET /status` and `STATUS` over TCP.
#[derive(Debug, Clone)]
pub struct AppStatus {
    pub running: bool,
    pub current_task: Option<String>,
    pub task_count: usize,
}

/// The mathematical value of an [`AppStatus`].
pub struct StatusView {
    pub running: bool,
    pub current_task: Option<Seq<char>>,
    pub task_count: nat,
}

pub open spec fn opt_string_view(o: Option<String>) -> Option<Seq<char>> {
    match o {
        Some(s) => Some(s@),
        None => None,
    }
}

impl View for AppStatus {
    type V = StatusView;

    open spec fn view(&self) -> StatusView {
        StatusView {
            running: self.running,
            current_task: opt_string_view(self.current_task),
            task_count: self.task_count as nat,
        }
    }
}

impl AppStatus {
    /// A copy of this status with the same fields.
    pub fn snapshot(&self) -> (r: AppStatus)
        ensures
            r@ == self@,
    {
        let current_task = match &self.current_task {
            Some(name) => Some(name.clone()),
            None => None,
        };
        AppStatus { running: self.running, current_task, task_count: self.task_count }
    }
}

/// A row from the `tasks` SQLite table.
#[derive(Debug, Clone)]
pub struct TaskRow {
    pub id: i64,
    pub name: String,
    pub created_at: String,
}

/// Commands understood by the main thread.
#[derive(Debug)]
#[allow(inconsistent_fields)]
pub enum AppCommand {
    /// Start a (named) task. Persisted to SQLite by the main thread.
    StartTask(String),
    /// Stop the currently running task.
    StopTask,
    /// Request a snapshot of the current status; the responder carries it
    /// back to whoever asked.
    GetStatus { respond_to: tokio::sync::oneshot::Sender<AppStatus> },
    /// Request the list of persisted tasks.
    ListTasks { respond_to: tokio::sync::oneshot::Sender<Vec<TaskRow>> },
}

/// The mathematical value of an [`AppCommand`], without its responders.
pub enum CommandView {
    StartTask(Seq<char>),
    StopTask,
    GetStatus,
    ListTasks,
}

impl View for AppCommand {
    type V = CommandView;

    open spec fn view(&self) -> CommandView {
        match self {
            AppCommand::StartTask(name) => CommandView::StartTask(name@),
            AppCommand::StopTask => CommandView::StopTask,
            AppCommand::GetStatus { .. } => CommandView::GetStatus,
            AppCommand::ListTasks { .. } => CommandView::ListTasks,
        }
    }
}

} // verus!
