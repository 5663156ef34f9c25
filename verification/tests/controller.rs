use my_tray_app::commands::{AppCommand, AppStatus, TaskRow};
use my_tray_app::controller::{Effect, TrayApp};

fn fields(s: &AppStatus) -> (bool, Option<String>, usize) {
    (s.running, s.current_task.clone(), s.task_count)
}

#[test]
fn starts_idle_with_stored_count() {
    let app = TrayApp::new(Some(7));
    assert_eq!(fields(app.status()), (false, None, 7));
    let app = TrayApp::new(None);
    assert_eq!(fields(app.status()), (false, None, 0));
}

#[test]
fn start_task_runs_it_and_asks_for_a_write() {
    let mut app = TrayApp::new(Some(2));
    match app.handle(AppCommand::StartTask("backup".to_string())) {
        Effect::Persist(name) => assert_eq!(name, "backup"),
        _ => panic!("a start must be written"),
    }
    assert_eq!(fields(app.status()), (true, Some("backup".to_string()), 2));
    app.record_count(Some(3));
    assert_eq!(fields(app.status()), (true, Some("backup".to_string()), 3));
}

#[test]
fn failed_recount_keeps_the_count() {
    let mut app = TrayApp::new(Some(4));
    let _ = app.handle(AppCommand::StartTask("x".to_string()));
    app.record_count(None);
    assert_eq!(app.status().task_count, 4);
}

#[test]
fn stop_after_start() {
    let mut app = TrayApp::new(Some(1));
    let _ = app.handle(AppCommand::StartTask("backup".to_string()));
    assert!(matches!(app.handle(AppCommand::StopTask), Effect::Nothing));
    assert_eq!(fields(app.status()), (false, None, 1));
    assert!(matches!(app.handle(AppCommand::StopTask), Effect::Nothing));
    assert_eq!(fields(app.status()), (false, None, 1));
}

#[test]
fn last_start_wins() {
    let mut app = TrayApp::new(Some(0));
    let _ = app.handle(AppCommand::StartTask("first".to_string()));
    let _ = app.handle(AppCommand::StartTask("second".to_string()));
    assert_eq!(fields(app.status()), (true, Some("second".to_string()), 0));
}

#[test]
fn status_request_is_answered_with_the_status() {
    let mut app = TrayApp::new(Some(5));
    let _ = app.handle(AppCommand::StartTask("menu".to_string()));
    let (tx, mut rx) = tokio::sync::oneshot::channel::<AppStatus>();
    match app.handle(AppCommand::GetStatus { respond_to: tx }) {
        Effect::ReplyStatus { respond_to, status } => {
            assert_eq!(fields(&status), (true, Some("menu".to_string()), 5));
            respond_to.send(status).unwrap();
        }
        _ => panic!("a status request must be answered"),
    }
    let got = rx.try_recv().unwrap();
    assert_eq!(fields(&got), (true, Some("menu".to_string()), 5));
    assert_eq!(fields(app.status()), (true, Some("menu".to_string()), 5));
}

#[test]
fn task_list_request_keeps_its_responder() {
    let mut app = TrayApp::new(Some(5));
    let (tx, mut rx) = tokio::sync::oneshot::channel::<Vec<TaskRow>>();
    match app.handle(AppCommand::ListTasks { respond_to: tx }) {
        Effect::ReplyTasks { respond_to } => {
            respond_to
                .send(vec![TaskRow { id: 1, name: "a".to_string(), created_at: "t".to_string() }])
                .unwrap();
        }
        _ => panic!("a task list request must be answered"),
    }
    assert_eq!(rx.try_recv().unwrap()[0].name, "a");
    assert_eq!(fields(app.status()), (false, None, 5));
}

#[test]
fn running_exactly_when_a_task_is_current() {
    let mut app = TrayApp::new(Some(0));
    let script = ["a", "", "b", "", "", "c"];
    for step in script {
        if step.is_empty() {
            let _ = app.handle(AppCommand::StopTask);
        } else {
            let _ = app.handle(AppCommand::StartTask(step.to_string()));
            app.record_count(Some(9));
        }
        let s = app.status();
        assert_eq!(s.running, s.current_task.is_some());
    }
}
