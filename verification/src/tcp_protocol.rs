//! The line-based TCP control protocol: one command per line.
//!
//! * `START <name>` – start a named task
//! * `STOP`         – stop the current task
//! * `STATUS`       – ask the main thread and echo a status line
//! * `QUIT`         – close this connection
//!
//! Lines are trimmed of white space first; blank lines are skipped. The
//! connection handler reads a line, asks [`line_action`] what to do, does it,
//! and writes the reply followed by a newline.

use vstd::prelude::*;
use vstd::string::StringExecFns;
use crate::commands::{AppCommand, AppStatus, CommandView, StatusView};
use crate::controller::apply_command;
use crate::text::{
    lemma_plain_text_is_quoted_verbatim,
    lemma_white_space_characters,
    all_white_space, is_white_space, lemma_trim_fixed_points, lemma_trim_idempotent,
    lemma_trim_ignores_surrounding_white_space, lemma_trim_shape,
    bool_text, chars_of, decimal, occurs_at, option_wrapped, push_bool, push_decimal,
    push_option_wrapped, render_inner, rendered_inner, string_of, trim, trim_bounds,
};

verus! {

broadcast use vstd::string::group_string_axioms;

/// Written once when a client connects.
pub const GREETING: &'static str = "my-tray-app tcp control. commands: START <name> | STOP | STATUS | QUIT\n";

/// Written before the connection is closed on `QUIT`.
pub const BYE_LINE: &'static str = "bye\n";

/// A line of the protocol, as read.
#[derive(Debug)]
pub enum TcpRequest {
    /// Nothing but white space.
    Blank,
    /// `START <name>`, with the name trimmed.
    Start(String),
    Stop,
    Status,
    Quit,
    Unknown,
}

pub enum RequestView {
    Blank,
    Start(Seq<char>),
    Stop,
    Status,
    Quit,
    Unknown,
}

impl View for TcpRequest {
    type V = RequestView;

    open spec fn view(&self) -> RequestView {
        match self {
            TcpRequest::Blank => RequestView::Blank,
            TcpRequest::Start(name) => RequestView::Start(name@),
            TcpRequest::Stop => RequestView::Stop,
            TcpRequest::Status => RequestView::Status,
            TcpRequest::Quit => RequestView::Quit,
            TcpRequest::Unknown => RequestView::Unknown,
        }
    }
}

/// What a line means: the trimmed line is matched against `START `
/// (as a prefix, the rest trimmed again being the name), then against
/// `STOP`, `STATUS` and `QUIT` exactly.
pub open spec fn parse_request(line: Seq<char>) -> RequestView {
    let t = trim(line);
    if t.len() == 0 {
        RequestView::Blank
    } else if "START "@.is_prefix_of(t) {
        RequestView::Start(trim(t.skip("START "@.len() as int)))
    } else if t == "STOP"@ {
        RequestView::Stop
    } else if t == "STATUS"@ {
        RequestView::Status
    } else if t == "QUIT"@ {
        RequestView::Quit
    } else {
        RequestView::Unknown
    }
}

/// Reads one line of the protocol.
pub fn parse_line(line: &str) -> (r: TcpRequest)
    ensures
        r@ == parse_request(line@),
{
    let cs = chars_of(line);
    let (a, b) = trim_bounds(&cs, 0, cs.len());
    let ghost t = cs@.subrange(a as int, b as int);
    proof {
        assert(cs@.subrange(0, cs@.len() as int) =~= line@);
    }
    if a == b {
        return TcpRequest::Blank;
    }
    let kw = chars_of("START ");
    if occurs_at(&cs, a, b, &kw) {
        let (c, d) = trim_bounds(&cs, a + kw.len(), b);
        proof {
            assert(t.subrange(0, kw@.len() as int) =~= cs@.subrange(a as int, a + kw@.len()));
            assert(t.skip(kw@.len() as int) =~= cs@.subrange(a + kw@.len(), b as int));
        }
        return TcpRequest::Start(string_of(&cs, c, d));
    }
    proof {
        if kw@.is_prefix_of(t) {
            assert(t.subrange(0, kw@.len() as int) =~= cs@.subrange(a as int, a + kw@.len()));
        }
    }
    let stop = chars_of("STOP");
    if b - a == stop.len() && occurs_at(&cs, a, b, &stop) {
        return TcpRequest::Stop;
    }
    let status = chars_of("STATUS");
    if b - a == status.len() && occurs_at(&cs, a, b, &status) {
        return TcpRequest::Status;
    }
    let quit = chars_of("QUIT");
    if b - a == quit.len() && occurs_at(&cs, a, b, &quit) {
        return TcpRequest::Quit;
    }
    proof {
        if t == stop@ || t == status@ || t == quit@ {
            assert(cs@.subrange(a as int, b as int) == t);
        }
    }
    TcpRequest::Unknown
}

/// What the connection handler does with a line.
#[derive(Debug)]
pub enum TcpAction {
    /// Read the next line; nothing is written.
    Skip,
    /// Hand `command` to the main thread, then write `reply`.
    Forward { command: AppCommand, reply: String },
    /// Ask the main thread for its status, then write [`status_reply`] of
    /// what came back.
    AskStatus,
    /// Write [`BYE_LINE`] and close the connection.
    Close,
    /// Write `reply`; nothing is handed on.
    Reply(String),
}

pub enum ActionView {
    Skip,
    Forward(CommandView, Seq<char>),
    AskStatus,
    Close,
    Reply(Seq<char>),
}

impl View for TcpAction {
    type V = ActionView;

    open spec fn view(&self) -> ActionView {
        match self {
            TcpAction::Skip => ActionView::Skip,
            TcpAction::Forward { command, reply } => ActionView::Forward(command@, reply@),
            TcpAction::AskStatus => ActionView::AskStatus,
            TcpAction::Close => ActionView::Close,
            TcpAction::Reply(reply) => ActionView::Reply(reply@),
        }
    }
}

/// What the connection handler does after writing a reply.
#[derive(Debug, PartialEq, Eq, Structural)]
pub enum NextStep {
    /// Read the next line.
    ReadNext,
    /// Close the connection.
    Close,
}

/// After writing a reply: the next line is read when the write succeeded,
/// and the connection is closed when it failed.
pub fn after_reply(written: bool) -> (r: NextStep)
    ensures
        r == (if written { NextStep::ReadNext } else { NextStep::Close }),
{
    if written {
        NextStep::ReadNext
    } else {
        NextStep::Close
    }
}

/// What is done for each kind of line.
pub open spec fn action_for(r: RequestView) -> ActionView {
    match r {
        RequestView::Blank => ActionView::Skip,
        RequestView::Start(name) => ActionView::Forward(CommandView::StartTask(name), "started"@),
        RequestView::Stop => ActionView::Forward(CommandView::StopTask, "stopped"@),
        RequestView::Status => ActionView::AskStatus,
        RequestView::Quit => ActionView::Close,
        RequestView::Unknown => ActionView::Reply("unknown command"@),
    }
}

/// Decides what to do with one line read from a client.
pub fn line_action(line: &str) -> (a: TcpAction)
    ensures
        a@ == action_for(parse_request(line@)),
{
    match parse_line(line) {
        TcpRequest::Blank => TcpAction::Skip,
        TcpRequest::Start(name) => TcpAction::Forward {
            command: AppCommand::StartTask(name),
            reply: String::from_str("started"),
        },
        TcpRequest::Stop => TcpAction::Forward {
            command: AppCommand::StopTask,
            reply: String::from_str("stopped"),
        },
        TcpRequest::Status => TcpAction::AskStatus,
        TcpRequest::Quit => TcpAction::Close,
        TcpRequest::Unknown => TcpAction::Reply(String::from_str("unknown command")),
    }
}

/// The status line from its parts, the current task being given already
/// rendered (`None`, or the `Debug` text of its name).
pub open spec fn status_text_rendered(running: bool, current: Option<Seq<char>>, task_count: nat) -> Seq<char> {
    "running="@ + bool_text(running) + " current="@ + option_wrapped(current) + " tasks="@
        + decimal(task_count)
}

/// The status line: `running=<bool> current=<Debug of the task> tasks=<n>`.
pub open spec fn status_text(s: StatusView) -> Seq<char> {
    status_text_rendered(s.running, rendered_inner(s.current_task), s.task_count)
}

/// Builds the status line from whether a task runs, the `Debug` text of the
/// current task's name (if any), and the number of stored tasks.
pub fn compose_status_line(running: bool, current: Option<&str>, task_count: usize) -> (r: String)
    ensures
        r@ == status_text_rendered(
            running,
            match current {
                Some(q) => Some(q@),
                None => None,
            },
            task_count as nat,
        ),
{
    let mut out = String::from_str("running=");
    push_bool(&mut out, running);
    out.append(" current=");
    push_option_wrapped(&mut out, current);
    out.append(" tasks=");
    push_decimal(&mut out, task_count);
    out
}

/// Renders a status as the `STATUS` reply.
pub fn status_line(s: &AppStatus) -> (r: String)
    ensures
        r@ == status_text(s@),
{
    let rendered = render_inner(&s.current_task);
    let current = match &rendered {
        Some(q) => Some(q.as_str()),
        None => None,
    };
    compose_status_line(s.running, current, s.task_count)
}

/// The reply to `STATUS`: the status line when the main thread answered,
/// `unavailable` when it did not.
pub fn status_reply(answer: Option<AppStatus>) -> (r: String)
    ensures
        r@ == match answer {
            Some(s) => status_text(s@),
            None => "unavailable"@,
        },
{
    match answer {
        Some(s) => status_line(&s),
        None => String::from_str("unavailable"),
    }
}

/// A reply as written on the wire: the text followed by a newline.
pub fn reply_line(reply: &str) -> (r: String)
    ensures
        r@ == reply@ + "\n"@,
{
    let mut out = String::from_str(reply);
    out.append("\n");
    out
}

/// White space before and after a line does not change what it means.
pub proof fn lemma_parse_ignores_surrounding_white_space(
    w1: Seq<char>,
    line: Seq<char>,
    w2: Seq<char>,
)
    requires
        all_white_space(w1),
        all_white_space(w2),
    ensures
        parse_request(w1 + line + w2) == parse_request(line),
{
    lemma_trim_ignores_surrounding_white_space(w1, line, w2);
}

/// The name that `START` carries is never empty and has no white space at
/// either end.
pub proof fn lemma_start_name_is_trimmed(line: Seq<char>)
    ensures
        parse_request(line) matches RequestView::Start(name) ==> name.len() > 0 && trim(name)
            == name,
{
    reveal_strlit("START ");
    let t = trim(line);
    if t.len() > 0 && "START "@.is_prefix_of(t) {
        let u = t.skip(6);
        lemma_trim_shape(line);
        // `t` ends in no white space but `START ` does, so `u` is not empty
        assert(t.subrange(0, 6)[5] == t[5]);
        assert(t[5] == ' ');
        assert(t.len() > 6);
        assert(u.last() == t.last());
        lemma_trim_shape(u);
        if trim(u).len() == 0 {
            assert(is_white_space(u[u.len() - 1]));
        }
        lemma_trim_idempotent(u);
    }
}

/// A client that sends `START ` and a name without white space at either
/// end starts a task of exactly that name.
pub proof fn lemma_start_round_trip(name: Seq<char>)
    requires
        name.len() > 0,
        trim(name) == name,
    ensures
        parse_request("START "@ + name) == RequestView::Start(name),
{
    reveal_strlit("START ");
    let line = "START "@ + name;
    lemma_trim_shape(name);
    assert(line[0] == 'S');
    assert(line.last() == name.last());
    lemma_trim_fixed_points(line);
    assert(trim(line) == line);
    assert(line.subrange(0, 6) =~= "START "@);
    assert(line.skip(6) =~= name);
}

/// `START <name>` followed by `STATUS` on a connection: the first line hands
/// on a start of exactly that task and is answered `started`, and once the
/// main thread has applied it, the status line reports the task as running.
pub proof fn lemma_start_then_status(s: StatusView, name: Seq<char>)
    requires
        name.len() > 0,
        trim(name) == name,
    ensures
        action_for(parse_request("START "@ + name)) == ActionView::Forward(
            CommandView::StartTask(name),
            "started"@,
        ),
        status_text(apply_command(s, CommandView::StartTask(name))) == "running="@ + "true"@
            + " current="@ + ("Some("@ + crate::text::debug_text(name) + ")"@) + " tasks="@
            + decimal(s.task_count),
{
    lemma_start_round_trip(name);
}

/// `START ` followed by a name that begins and ends with a letter, digit or
/// punctuation mark starts a task of exactly that name: no character of it
/// is taken for white space (so `START backup2` starts `backup2`).
pub proof fn lemma_start_keeps_visible_name(name: Seq<char>)
    requires
        name.len() > 0,
        0x21 <= (name[0] as u32) <= 0x7E,
        0x21 <= (name.last() as u32) <= 0x7E,
    ensures
        parse_request("START "@ + name) == RequestView::Start(name),
        action_for(parse_request("START "@ + name)) == ActionView::Forward(
            CommandView::StartTask(name),
            "started"@,
        ),
{
    lemma_white_space_characters(name[0]);
    lemma_white_space_characters(name.last());
    lemma_trim_fixed_points(name);
    assert(trim(name) == name);
    lemma_start_round_trip(name);
}

/// The status line shows a task name of printable ASCII other than `"` and
/// `\` (a single quote included) verbatim between `Some("` and `")`.
pub proof fn lemma_status_line_shows_plain_name(running: bool, name: Seq<char>, task_count: nat)
    requires
        forall|i: int|
            0 <= i < name.len() ==> 0x20 <= (#[trigger] name[i] as u32) <= 0x7E && name[i] != '"'
                && name[i] != '\\',
    ensures
        status_text(StatusView { running, current_task: Some(name), task_count }) == "running="@
            + bool_text(running) + " current="@ + ("Some("@ + seq!['"'] + name + seq!['"'] + ")"@)
            + " tasks="@ + decimal(task_count),
{
    lemma_plain_text_is_quoted_verbatim(name);
    assert(crate::text::debug_text(name) =~= seq!['"'] + name + seq!['"']);
    assert(("Some("@ + crate::text::debug_text(name) + ")"@) =~= ("Some("@ + seq!['"'] + name
        + seq!['"'] + ")"@));
}

proof fn lemma_keyword_line(w1: Seq<char>, k: Seq<char>, w2: Seq<char>)
    requires
        all_white_space(w1),
        all_white_space(w2),
        k.len() >= 4,
        'A' <= k[0] <= 'Z',
        'A' <= k.last() <= 'Z',
    ensures
        trim(w1 + k + w2) == k,
{
    lemma_white_space_characters(k[0]);
    lemma_white_space_characters(k.last());
    lemma_trim_fixed_points(k);
    lemma_trim_ignores_surrounding_white_space(w1, k, w2);
}

/// `STOP`, `STATUS` and `QUIT`, with any white space around them, stop the
/// task (answered `stopped`), ask for the status, and close the connection.
pub proof fn lemma_keywords(w1: Seq<char>, w2: Seq<char>)
    requires
        all_white_space(w1),
        all_white_space(w2),
    ensures
        parse_request(w1 + "STOP"@ + w2) == RequestView::Stop,
        action_for(parse_request(w1 + "STOP"@ + w2)) == ActionView::Forward(
            CommandView::StopTask,
            "stopped"@,
        ),
        parse_request(w1 + "STATUS"@ + w2) == RequestView::Status,
        action_for(parse_request(w1 + "STATUS"@ + w2)) == ActionView::AskStatus,
        parse_request(w1 + "QUIT"@ + w2) == RequestView::Quit,
        action_for(parse_request(w1 + "QUIT"@ + w2)) == ActionView::Close,
{
    reveal_strlit("STOP");
    reveal_strlit("STATUS");
    reveal_strlit("QUIT");
    reveal_strlit("START ");
    lemma_keyword_line(w1, "STOP"@, w2);
    lemma_keyword_line(w1, "STATUS"@, w2);
    lemma_keyword_line(w1, "QUIT"@, w2);
    assert(!"START "@.is_prefix_of("STOP"@));
    assert(!"START "@.is_prefix_of("STATUS"@)) by {
        assert("STATUS"@.subrange(0, 6)[3] == 'T');
    }
    assert(!"START "@.is_prefix_of("QUIT"@));
    assert("STATUS"@ != "STOP"@);
    assert("QUIT"@ != "STOP"@) by {
        assert("QUIT"@[0] != "STOP"@[0]);
    }
    assert("QUIT"@ != "STATUS"@);
}

} // verus!
