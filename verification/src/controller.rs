//! The main thread's state machine.
//!
//! The main thread is the single owner of the canonical [`AppStatus`]. It
//! drains the commands that the HTTP handlers, the TCP handlers and the tray
//! menu send it; [`TrayApp::handle`] applies one command to the status and
//! says what outside work follows (writing the task to SQLite, answering a
//! request). The application performs that work and, after a write, hands
//! the freshly counted number of tasks back through [`TrayApp::record_count`].

use vstd::prelude::*;
use crate::commands::{AppCommand, AppStatus, CommandView, StatusView, TaskRow};

verus! {

/// A task runs exactly when there is a current task.
pub open spec fn consistent(s: StatusView) -> bool {
    s.running <==> s.current_task is Some
}

/// The status at start-up: nothing runs, and the count is what the store
/// reported, or 0 where it could not be read.
pub open spec fn initial_status(count: Option<usize>) -> StatusView {
    StatusView {
        running: false,
        current_task: None,
        task_count: match count {
            Some(n) => n as nat,
            None => 0,
        },
    }
}

/// How one command changes the status.
pub open spec fn apply_command(s: StatusView, c: CommandView) -> StatusView {
    match c {
        CommandView::StartTask(name) => StatusView {
            running: true,
            current_task: Some(name),
            task_count: s.task_count,
        },
        CommandView::StopTask => StatusView {
            running: false,
            current_task: None,
            task_count: s.task_count,
        },
        CommandView::GetStatus => s,
        CommandView::ListTasks => s,
    }
}

/// How a recount of the stored tasks changes the status: the new count
/// where the store answered, the old one where it failed.
pub open spec fn record_count_status(s: StatusView, count: Option<usize>) -> StatusView {
    StatusView {
        running: s.running,
        current_task: s.current_task,
        task_count: match count {
            Some(n) => n as nat,
            None => s.task_count,
        },
    }
}

/// The outside work that follows a command.
#[allow(inconsistent_fields)]
pub enum Effect {
    /// Write a row for the task named, then recount the tasks and hand the
    /// count to [`TrayApp::record_count`].
    Persist(String),
    /// Send `status` through `respond_to`.
    ReplyStatus { respond_to: tokio::sync::oneshot::Sender<AppStatus>, status: AppStatus },
    /// Read the stored tasks and send them through `respond_to`.
    ReplyTasks { respond_to: tokio::sync::oneshot::Sender<Vec<TaskRow>> },
    /// Nothing more to do.
    Nothing,
}

pub enum EffectView {
    Persist(Seq<char>),
    ReplyStatus(StatusView),
    ReplyTasks,
    Nothing,
}

impl View for Effect {
    type V = EffectView;

    open spec fn view(&self) -> EffectView {
        match self {
            Effect::Persist(name) => EffectView::Persist(name@),
            Effect::ReplyStatus { status, .. } => EffectView::ReplyStatus(status@),
            Effect::ReplyTasks { .. } => EffectView::ReplyTasks,
            Effect::Nothing => EffectView::Nothing,
        }
    }
}

/// The outside work that a command calls for, given the status before it.
pub open spec fn effect_of(s: StatusView, c: CommandView) -> EffectView {
    match c {
        CommandView::StartTask(name) => EffectView::Persist(name),
        CommandView::StopTask => EffectView::Nothing,
        CommandView::GetStatus => EffectView::ReplyStatus(s),
        CommandView::ListTasks => EffectView::ReplyTasks,
    }
}

/// The responder of an effect is the one that came with its command.
pub open spec fn same_responder(c: AppCommand, e: Effect) -> bool {
    &&& (c matches AppCommand::GetStatus { respond_to: r } ==>
            e matches Effect::ReplyStatus { respond_to: r2, .. } && r2 == r)
    &&& (c matches AppCommand::ListTasks { respond_to: r } ==>
            e matches Effect::ReplyTasks { respond_to: r2 } && r2 == r)
}

/// The state owned by the main thread.
pub struct TrayApp {
    status: AppStatus,
}

impl TrayApp {
    #[verifier::type_invariant]
    spec fn well_formed(self) -> bool {
        consistent(self.status@)
    }

    /// The status this state holds.
    pub closed spec fn spec_status(self) -> StatusView {
        self.status@
    }

    /// Start-up state, from the number of stored tasks (`None` where the
    /// store could not be counted).
    pub fn new(stored_count: Option<usize>) -> (r: TrayApp)
        ensures
            r.spec_status() == initial_status(stored_count),
            !r.spec_status().running,
            r.spec_status().current_task is None,
            stored_count matches Some(n) ==> r.spec_status().task_count == n,
            stored_count is None ==> r.spec_status().task_count == 0,
    {
        let task_count = match stored_count {
            Some(n) => n,
            None => 0,
        };
        TrayApp { status: AppStatus { running: false, current_task: None, task_count } }
    }

    /// The current status.
    pub fn status(&self) -> (r: &AppStatus)
        ensures
            r@ == self.spec_status(),
            consistent(r@),
    {
        proof {
            use_type_invariant(self);
        }
        &self.status
    }

    /// Applies one command and says what outside work follows.
    pub fn handle(&mut self, cmd: AppCommand) -> (e: Effect)
        ensures
            final(self).spec_status() == apply_command(old(self).spec_status(), cmd@),
            e@ == effect_of(old(self).spec_status(), cmd@),
            same_responder(cmd, e),
    {
        proof {
            use_type_invariant(&*self);
        }
        let task_count = self.status.task_count;
        match cmd {
            AppCommand::StartTask(name) => {
                self.status = AppStatus {
                    running: true,
                    current_task: Some(name.clone()),
                    task_count,
                };
                Effect::Persist(name)
            },
            AppCommand::StopTask => {
                self.status = AppStatus { running: false, current_task: None, task_count };
                Effect::Nothing
            },
            AppCommand::GetStatus { respond_to } => {
                Effect::ReplyStatus { respond_to, status: self.status.snapshot() }
            },
            AppCommand::ListTasks { respond_to } => Effect::ReplyTasks { respond_to },
        }
    }

    /// Takes the number of stored tasks counted after a write.
    pub fn record_count(&mut self, count: Option<usize>)
        ensures
            final(self).spec_status() == record_count_status(old(self).spec_status(), count),
            final(self).spec_status().running == old(self).spec_status().running,
            final(self).spec_status().current_task == old(self).spec_status().current_task,
            count matches Some(n) ==> final(self).spec_status().task_count == n,
            count is None ==> final(self).spec_status().task_count == old(self).spec_status().task_count,
    {
        proof {
            use_type_invariant(&*self);
        }
        match count {
            Some(n) => {
                let current_task = match &self.status.current_task {
                    Some(name) => Some(name.clone()),
                    None => None,
                };
                self.status = AppStatus { running: self.status.running, current_task, task_count: n };
            },
            None => {},
        }
    }
}

/// A task runs exactly when there is a current task: so it is at start-up,
/// and every command and every recount keeps it so.
pub proof fn lemma_status_stays_consistent(
    s: StatusView,
    c: CommandView,
    stored: Option<usize>,
    count: Option<usize>,
)
    requires
        consistent(s),
    ensures
        consistent(initial_status(stored)),
        consistent(apply_command(s, c)),
        consistent(record_count_status(s, count)),
{
}

/// Starting a task and then stopping it leaves nothing running and the
/// count as it was, whatever ran before.
pub proof fn lemma_stop_after_start(s: StatusView, name: Seq<char>)
    ensures
        apply_command(apply_command(s, CommandView::StartTask(name)), CommandView::StopTask)
            == (StatusView { running: false, current_task: None, task_count: s.task_count }),
        apply_command(apply_command(s, CommandView::StopTask), CommandView::StopTask)
            == apply_command(s, CommandView::StopTask),
{
}

/// The last task started is the current one: a start replaces whatever
/// task was running.
pub proof fn lemma_last_start_wins(s: StatusView, first: Seq<char>, second: Seq<char>)
    ensures
        apply_command(apply_command(s, CommandView::StartTask(first)), CommandView::StartTask(second))
            == apply_command(s, CommandView::StartTask(second)),
        apply_command(s, CommandView::StartTask(second)).current_task == Some(second),
        apply_command(s, CommandView::StartTask(second)).running,
{
}

/// Requests for the status or the task list change nothing, and a status
/// request is answered with the status as it stands.
pub proof fn lemma_queries_change_nothing(s: StatusView)
    ensures
        apply_command(s, CommandView::GetStatus) == s,
        apply_command(s, CommandView::ListTasks) == s,
        effect_of(s, CommandView::GetStatus) == EffectView::ReplyStatus(s),
{
}

/// Each start of a task is written to the store exactly once, under its
/// name, and no other command writes.
pub proof fn lemma_one_write_per_start(s: StatusView, c: CommandView)
    ensures
        (effect_of(s, c) is Persist) <==> (c is StartTask),
        c matches CommandView::StartTask(name) ==> effect_of(s, c) == EffectView::Persist(name),
{
}

/// Commands never change the number of stored tasks that the status
/// reports; only a recount does.
pub proof fn lemma_count_changes_only_by_recount(s: StatusView, c: CommandView, n: usize)
    ensures
        apply_command(s, c).task_count == s.task_count,
        record_count_status(s, Some(n)).task_count == n,
        record_count_status(s, None) == s,
{
}

/// At start-up nothing runs, and the count is exactly the number of stored
/// tasks reported, however large, or 0 where the store could not be counted.
pub proof fn lemma_start_up_count(stored: Option<usize>)
    ensures
        !initial_status(stored).running,
        initial_status(stored).current_task is None,
        forall|n: usize| stored == Some(n) ==> initial_status(stored).task_count == n,
        stored is None ==> initial_status(stored).task_count == 0,
{
}

/// A recount changes only the count: whether a task runs, and which, stay
/// as they were, whatever the count.
pub proof fn lemma_recount_changes_only_the_count(s: StatusView, count: Option<usize>)
    ensures
        record_count_status(s, count).running == s.running,
        record_count_status(s, count).current_task == s.current_task,
        forall|n: usize| count == Some(n) ==> record_count_status(s, count).task_count == n,
        count is None ==> record_count_status(s, count).task_count == s.task_count,
{
}

/// A task started and then recounted is still the running task.
pub proof fn lemma_started_task_survives_recount(s: StatusView, name: Seq<char>, count: Option<usize>)
    ensures
        record_count_status(apply_command(s, CommandView::StartTask(name)), count).running,
        record_count_status(apply_command(s, CommandView::StartTask(name)), count).current_task
            == Some(name),
{
}

} // verus!
