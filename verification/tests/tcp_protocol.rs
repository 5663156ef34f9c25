use my_tray_app::tcp_protocol::{after_reply, NextStep};
use my_tray_app::tcp_protocol::compose_status_line;
use my_tray_app::commands::{AppCommand, AppStatus};
use my_tray_app::tcp_protocol::{
    line_action, parse_line, reply_line, status_line, status_reply, TcpAction, TcpRequest,
    BYE_LINE, GREETING,
};

fn start_name(r: TcpRequest) -> String {
    match r {
        TcpRequest::Start(name) => name,
        other => panic!("expected a start, got {:?}", other),
    }
}

#[test]
fn parses_start_with_name() {
    assert_eq!(start_name(parse_line("START backup")), "backup");
}

#[test]
fn start_name_is_trimmed() {
    assert_eq!(start_name(parse_line("  START    backup \t")), "backup");
    assert_eq!(start_name(parse_line("START nightly backup")), "nightly backup");
}

#[test]
fn start_without_name_is_unknown() {
    assert!(matches!(parse_line("START"), TcpRequest::Unknown));
    assert!(matches!(parse_line("START   "), TcpRequest::Unknown));
}

#[test]
fn parses_plain_commands() {
    assert!(matches!(parse_line("STOP"), TcpRequest::Stop));
    assert!(matches!(parse_line(" STATUS\t"), TcpRequest::Status));
    assert!(matches!(parse_line("QUIT\r"), TcpRequest::Quit));
}

#[test]
fn commands_are_case_sensitive_and_exact() {
    assert!(matches!(parse_line("stop"), TcpRequest::Unknown));
    assert!(matches!(parse_line("STOPPED"), TcpRequest::Unknown));
    assert!(matches!(parse_line("STATUS now"), TcpRequest::Unknown));
    assert!(matches!(parse_line("STARTbackup"), TcpRequest::Unknown));
}

#[test]
fn blank_lines_are_blank() {
    assert!(matches!(parse_line(""), TcpRequest::Blank));
    assert!(matches!(parse_line("   \t "), TcpRequest::Blank));
}

#[test]
fn unicode_white_space_is_trimmed() {
    assert!(matches!(parse_line("\u{3000}STOP\u{a0}"), TcpRequest::Stop));
    assert_eq!(start_name(parse_line("START \u{2003}x\u{2028}")), "x");
    assert!(matches!(parse_line("START\u{2003}x"), TcpRequest::Unknown));
}

#[test]
fn surrounding_white_space_changes_nothing() {
    for line in ["START backup", "STOP", "STATUS", "QUIT", "nonsense", "START a b"] {
        let padded = format!(" \t{}\u{85} ", line);
        assert_eq!(format!("{:?}", parse_line(line)), format!("{:?}", parse_line(&padded)));
    }
}

#[test]
fn start_round_trip() {
    for name in ["backup", "a b c", "x", "naïve"] {
        assert_eq!(start_name(parse_line(&format!("START {}", name))), name);
    }
}

#[test]
fn actions_for_lines() {
    match line_action("START backup") {
        TcpAction::Forward { command: AppCommand::StartTask(name), reply } => {
            assert_eq!(name, "backup");
            assert_eq!(reply, "started");
        }
        other => panic!("unexpected {:?}", other),
    }
    match line_action("STOP") {
        TcpAction::Forward { command: AppCommand::StopTask, reply } => assert_eq!(reply, "stopped"),
        other => panic!("unexpected {:?}", other),
    }
    assert!(matches!(line_action("STATUS"), TcpAction::AskStatus));
    assert!(matches!(line_action("QUIT"), TcpAction::Close));
    assert!(matches!(line_action("  "), TcpAction::Skip));
    match line_action("HELLO") {
        TcpAction::Reply(reply) => assert_eq!(reply, "unknown command"),
        other => panic!("unexpected {:?}", other),
    }
}

#[test]
fn status_line_of_running_task() {
    let s = AppStatus { running: true, current_task: Some("backup".to_string()), task_count: 3 };
    assert_eq!(status_line(&s), "running=true current=Some(\"backup\") tasks=3");
}

#[test]
fn status_line_of_idle_state() {
    let s = AppStatus { running: false, current_task: None, task_count: 0 };
    assert_eq!(status_line(&s), "running=false current=None tasks=0");
}

#[test]
fn status_line_escapes_and_counts() {
    let s = AppStatus { running: true, current_task: Some("a\"b\\c".to_string()), task_count: 1234567890 };
    assert_eq!(status_line(&s), format!("running=true current={:?} tasks=1234567890", s.current_task));
    let s = AppStatus { running: false, current_task: None, task_count: usize::MAX };
    assert_eq!(status_line(&s), format!("running=false current=None tasks={}", usize::MAX));
    for n in [0usize, 9, 10, 99, 100, 101, 4096] {
        let s = AppStatus { running: false, current_task: None, task_count: n };
        assert_eq!(status_line(&s), format!("running=false current=None tasks={}", n));
    }
}

#[test]
fn status_reply_when_unavailable() {
    assert_eq!(status_reply(None), "unavailable");
    let s = AppStatus { running: false, current_task: None, task_count: 2 };
    assert_eq!(status_reply(Some(s)), "running=false current=None tasks=2");
}

#[test]
fn replies_end_in_newline() {
    assert_eq!(reply_line("started"), "started\n");
    assert_eq!(reply_line(""), "\n");
    assert_eq!(BYE_LINE, "bye\n");
    assert_eq!(GREETING, "my-tray-app tcp control. commands: START <name> | STOP | STATUS | QUIT\n");
}

#[test]
fn status_line_from_rendered_parts() {
    assert_eq!(compose_status_line(true, Some("\"backup\""), 3), "running=true current=Some(\"backup\") tasks=3");
    assert_eq!(compose_status_line(false, None, 0), "running=false current=None tasks=0");
    assert_eq!(compose_status_line(true, Some("q"), 10), "running=true current=Some(q) tasks=10");
}

#[test]
fn connection_closes_after_failed_write() {
    assert_eq!(after_reply(true), NextStep::ReadNext);
    assert_eq!(after_reply(false), NextStep::Close);
}
