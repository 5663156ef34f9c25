use my_tray_app::icon::{icon_candidates, IconBase};
use my_tray_app::commands::{AppCommand, AppStatus, TaskRow};
use my_tray_app::http_api::{status_or_idle, ACCEPTED_BODY, HEALTH_BODY};
use my_tray_app::icon::{fallback_icon_rgba, FALLBACK_ICON_SIZE};
use my_tray_app::menu::{menu_action, MenuAction};
use my_tray_app::storage::{rows_or_empty, task_count_from_sql};

#[test]
fn menu_items() {
    match menu_action("start") {
        MenuAction::Send(AppCommand::StartTask(name)) => assert_eq!(name, "menu"),
        other => panic!("unexpected {:?}", other),
    }
    assert!(matches!(menu_action("stop"), MenuAction::Send(AppCommand::StopTask)));
    assert!(matches!(menu_action("quit"), MenuAction::Quit));
    assert!(matches!(menu_action("Quit"), MenuAction::Ignore));
    assert!(matches!(menu_action(""), MenuAction::Ignore));
    assert!(matches!(menu_action("start "), MenuAction::Ignore));
}

#[test]
fn fallback_icon_is_a_blue_square() {
    let rgba = fallback_icon_rgba();
    assert_eq!(FALLBACK_ICON_SIZE, 32);
    assert_eq!(rgba.len(), 32 * 32 * 4);
    for px in rgba.chunks(4) {
        assert_eq!(px, &[70u8, 130, 220, 255]);
    }
}

#[test]
fn status_fallback_is_idle() {
    let s = status_or_idle(None);
    assert!(!s.running);
    assert_eq!(s.current_task, None);
    assert_eq!(s.task_count, 0);
    let s = status_or_idle(Some(AppStatus { running: true, current_task: Some("x".into()), task_count: 8 }));
    assert_eq!((s.running, s.current_task, s.task_count), (true, Some("x".to_string()), 8));
}

#[test]
fn http_bodies() {
    assert_eq!(HEALTH_BODY, "ok");
    assert_eq!(ACCEPTED_BODY, "accepted");
}

#[test]
fn rows_fall_back_to_empty() {
    assert!(rows_or_empty(None).is_empty());
    let rows = vec![TaskRow { id: 3, name: "b".into(), created_at: "2024-01-01T00:00:00+00:00".into() }];
    let got = rows_or_empty(Some(rows));
    assert_eq!((got[0].id, got[0].name.as_str()), (3, "b"));
}

#[test]
fn count_conversion() {
    assert_eq!(task_count_from_sql(0), 0);
    assert_eq!(task_count_from_sql(42), 42);
    assert_eq!(task_count_from_sql(-1), usize::MAX);
}

#[test]
fn icon_files_tried_in_order() {
    let with_exe: Vec<(IconBase, &str)> = icon_candidates(true).into_iter().map(|c| (c.base, c.relative)).collect();
    assert_eq!(
        with_exe,
        vec![
            (IconBase::WorkingDir, "examples/icon.png"),
            (IconBase::ExeDir, "examples/icon.png"),
            (IconBase::ExeDir, "icon.png"),
        ]
    );
    let without: Vec<(IconBase, &str)> = icon_candidates(false).into_iter().map(|c| (c.base, c.relative)).collect();
    assert_eq!(without, vec![(IconBase::WorkingDir, "examples/icon.png")]);
}
