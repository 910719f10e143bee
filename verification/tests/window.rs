// Window placement, settings display and watcher scenarios.

use sideline::display::{display_settings, native_changes, reload_result, with_rollback, NativeLayout};
use sideline::geometry::{covers, docked_rect, desired_rect, fallback_frame, fullscreen_verdict, monitor_rect, watch_tick, Frame, Rect};
use sideline::model::{Settings, Todo, Validate};

fn settings(side: &str, collapsed: bool, ontop: bool, completed_expanded: bool) -> Settings {
    Settings { side: side.to_string(), collapsed, ontop, completed_expanded }
}

#[test]
fn default_settings_are_right_expanded_on_top() {
    let d = Settings::default();
    assert_eq!(d, settings("right", false, true, false));
    assert_eq!(Settings::first_use(), d);
    assert!(d.validate().is_ok());
    assert!(<Vec<Todo> as Validate>::first_use().is_empty());
}

#[test]
fn only_left_and_right_are_valid_sides() {
    assert!(settings("left", false, true, false).validate().is_ok());
    assert!(settings("right", true, false, true).validate().is_ok());
    for side in ["top", "Left", "", "right "] {
        assert_eq!(settings(side, false, true, false).validate().unwrap_err(), "无效停靠方向：side 必须是 left 或 right");
    }
}

#[test]
fn error_display_expands_without_changing_saved_settings() {
    let saved = settings("left", true, false, true);
    assert_eq!(display_settings(&saved, true), settings("left", false, false, true));
    assert_eq!(display_settings(&saved, false), saved);
    let mut layout = NativeLayout::new(saved.clone());
    let (before, after) = layout.error_display_transition(true).unwrap();
    assert!(before.collapsed);
    assert!(!after.collapsed);
    layout.set_error_display(true);
    assert_eq!(layout.applied(), &saved);
    assert!(layout.error_display_transition(true).is_none());
    let (shown, next) = layout.transition_to(&settings("right", true, false, true));
    assert!(!shown.collapsed);
    assert_eq!(next, settings("right", false, false, true));
}

#[test]
fn native_changes_apply_only_what_differs() {
    let a = settings("right", false, true, false);
    let startup = native_changes(None, &a).unwrap();
    assert_eq!(startup.ontop, Some(true));
    assert!(startup.dock);
    let toggled = native_changes(Some(&a), &settings("right", false, true, true)).unwrap();
    assert_eq!(toggled.ontop, None);
    assert!(!toggled.dock);
    let moved = native_changes(Some(&a), &settings("left", false, false, false)).unwrap();
    assert_eq!(moved.ontop, Some(false));
    assert!(moved.dock);
    let back = native_changes(Some(&settings("left", false, false, false)), &a).unwrap();
    assert_eq!(back.ontop, Some(true));
    assert!(back.dock);
    assert!(native_changes(Some(&a), &settings("up", false, true, false)).is_err());
}

#[test]
fn rollback_errors_are_joined() {
    assert_eq!(with_rollback("置顶设置失败：x".to_string(), "；恢复窗口失败：", Ok(())), "置顶设置失败：x");
    assert_eq!(
        with_rollback("e1".to_string(), "；恢复窗口设置也失败：", Err("e2".to_string())),
        "e1；恢复窗口设置也失败：e2"
    );
}

#[test]
fn reload_result_carries_value_or_error_and_path() {
    let ok = reload_result::<u32>(Ok(7), "/d/t.json.unsaved-1".to_string());
    assert_eq!(ok.value, Some(7));
    assert!(ok.error.is_none());
    assert_eq!(ok.preserved_path, "/d/t.json.unsaved-1");
    let err = reload_result::<u32>(Err("bad".to_string()), "/p".to_string());
    assert!(err.value.is_none());
    assert_eq!(err.error.as_deref(), Some("bad"));
}

#[test]
fn fallback_frame_is_flush_with_the_edge() {
    let area = Rect { left: 0, top: 0, right: 1920, bottom: 1040 };
    assert_eq!(fallback_frame(area, 320, false), Frame { x: 1600, y: 0, width: 320, height: 1040 });
    assert_eq!(fallback_frame(area, 26, true), Frame { x: 0, y: 0, width: 26, height: 1040 });
}

#[test]
fn docking_keeps_the_monitor_edge_and_takes_the_vertical_span() {
    let mon = monitor_rect(1920, 0, 2560, 1440);
    assert_eq!(mon, Rect { left: 1920, top: 0, right: 4480, bottom: 1440 });
    assert_eq!(desired_rect(mon, 480, false), Rect { left: 4000, top: 0, right: 4480, bottom: 1440 });
    let queried = Rect { left: 3900, top: 0, right: 4400, bottom: 1400 };
    assert_eq!(docked_rect(mon, 480, false, queried), Rect { left: 4000, top: 0, right: 4480, bottom: 1400 });
    assert_eq!(docked_rect(mon, 39, true, queried), Rect { left: 1920, top: 0, right: 1959, bottom: 1400 });
}

#[test]
fn fullscreen_needs_another_window_covering_the_monitor() {
    let mon = Rect { left: 0, top: 0, right: 1920, bottom: 1080 };
    let game = Rect { left: -8, top: 5, right: 1915, bottom: 1080 };
    assert!(covers(game, mon));
    assert!(!covers(Rect { left: 9, top: 0, right: 1920, bottom: 1080 }, mon));
    assert!(fullscreen_verdict(true, Some(game), Some(mon)));
    assert!(!fullscreen_verdict(false, Some(game), Some(mon)));
    assert!(!fullscreen_verdict(true, None, Some(mon)));
    assert!(!fullscreen_verdict(true, Some(game), None));
}

#[test]
fn watcher_follows_fullscreen_and_repositions_while_visible() {
    let t = watch_tick(false, true);
    assert_eq!(t.toggle, Some(true));
    assert!(t.hidden && !t.reposition);
    let t = watch_tick(true, true);
    assert_eq!(t.toggle, None);
    let t = watch_tick(true, false);
    assert_eq!(t.toggle, Some(false));
    assert!(!t.hidden && t.reposition);
    let t = watch_tick(false, false);
    assert_eq!(t.toggle, None);
    assert!(t.reposition);
}
