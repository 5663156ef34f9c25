use my_tray_app::commands::AppStatus;
use my_tray_app::controller::{Effect, TrayApp};
use my_tray_app::tcp_protocol::{line_action, reply_line, status_reply, TcpAction};

/// `printf 'START backup\nSTATUS\n' | nc 127.0.0.1 4000`, with the main
/// thread in between.
#[test]
fn start_then_status_over_tcp() {
    let mut app = TrayApp::new(Some(0));
    let mut written = String::new();
    for line in ["START backup", "STATUS"] {
        match line_action(line) {
            TcpAction::Forward { command, reply } => {
                if let Effect::Persist(name) = app.handle(command) {
                    assert_eq!(name, "backup");
                    app.record_count(Some(1));
                }
                written.push_str(&reply_line(&reply));
            }
            TcpAction::AskStatus => {
                let (tx, mut rx) = tokio::sync::oneshot::channel::<AppStatus>();
                match app.handle(my_tray_app::commands::AppCommand::GetStatus { respond_to: tx }) {
                    Effect::ReplyStatus { respond_to, status } => {
                        respond_to.send(status).unwrap();
                    }
                    _ => panic!("status must be answered"),
                }
                written.push_str(&reply_line(&status_reply(rx.try_recv().ok())));
            }
            _ => panic!("unexpected action for {line}"),
        }
    }
    assert_eq!(written, "started\nrunning=true current=Some(\"backup\") tasks=1\n");
}

/// `STOP` then `STATUS` after a start: nothing runs, the count stays.
#[test]
fn stop_then_status_over_tcp() {
    let mut app = TrayApp::new(Some(4));
    let _ = app.handle(my_tray_app::commands::AppCommand::StartTask("x".to_string()));
    match line_action("STOP") {
        TcpAction::Forward { command, reply } => {
            assert!(matches!(app.handle(command), Effect::Nothing));
            assert_eq!(reply, "stopped");
        }
        other => panic!("unexpected {:?}", other),
    }
    let snapshot = app.status().snapshot();
    assert_eq!(status_reply(Some(snapshot)), "running=false current=None tasks=4");
}
