use binocular::classifier::{WindowCandidate, EX_STYLE_TOOL_WINDOW, STYLE_CAPTION, STYLE_VISIBLE};
use binocular::registry::{
    focus_outcome, EnumerationError, FocusError, Window, WindowAction, WindowManager,
};

fn candidate(hwnd: isize, title: &str, pid: u32, visible: bool, tool: bool) -> WindowCandidate {
    WindowCandidate {
        hwnd,
        process_id: pid,
        visible,
        style: STYLE_VISIBLE | STYLE_CAPTION,
        ex_style: if tool { EX_STYLE_TOOL_WINDOW } else { 0 },
        title: title.to_string(),
        process_name: None,
        icon_base64: None,
    }
}

#[test]
fn new_registry_is_empty() {
    let registry = WindowManager::new(999);
    assert_eq!(registry.current_pid, 999);
    assert!(registry.snapshot().is_empty());
}

#[test]
fn three_synthetic_windows_surface_exactly_one() {
    // (a) visible and captioned, (b) tool-window flagged, (c) invisible.
    let walk = vec![
        candidate(1, "Editor", 100, true, false),
        candidate(2, "Palette", 100, true, true),
        candidate(3, "Background", 200, false, false),
    ];
    let mut registry = WindowManager::new(999);
    assert!(registry.refresh_window_list(Ok(walk)).is_ok());
    let snap = registry.snapshot();
    assert_eq!(snap.len(), 1);
    assert_eq!(snap[0].title, "Editor");
    assert_eq!(snap[0].process_id, 100);
    assert_eq!(snap[0].hwnd, 1);
}

#[test]
fn own_windows_are_excluded() {
    let walk = vec![
        candidate(1, "Switcher", 999, true, false),
        candidate(2, "Editor", 100, true, false),
    ];
    let mut registry = WindowManager::new(999);
    assert!(registry.refresh_window_list(Ok(walk)).is_ok());
    let snap = registry.snapshot();
    assert!(snap.iter().all(|w| w.process_id != 999));
    assert_eq!(snap.len(), 1);
    assert_eq!(snap[0].title, "Editor");
}

#[test]
fn refresh_replaces_the_snapshot_wholesale() {
    let mut registry = WindowManager::new(999);
    let first = vec![
        candidate(1, "Editor", 100, true, false),
        candidate(2, "Browser", 101, true, false),
    ];
    assert!(registry.refresh_window_list(Ok(first)).is_ok());
    assert_eq!(registry.snapshot().len(), 2);
    let second = vec![candidate(3, "Terminal", 102, true, false)];
    assert!(registry.refresh_window_list(Ok(second)).is_ok());
    let snap = registry.snapshot();
    assert_eq!(snap.len(), 1);
    assert_eq!(snap[0].title, "Terminal");
}

#[test]
fn walk_order_is_preserved() {
    let walk = vec![
        candidate(1, "Editor", 100, true, false),
        candidate(2, "Browser", 101, true, false),
        candidate(3, "Terminal", 102, true, false),
    ];
    let mut registry = WindowManager::new(999);
    assert!(registry.refresh_window_list(Ok(walk)).is_ok());
    let titles: Vec<String> = registry.snapshot().into_iter().map(|w| w.title).collect();
    assert_eq!(titles, vec!["Editor", "Browser", "Terminal"]);
}

#[test]
fn enrichment_is_carried_over() {
    let mut c = candidate(1, "Editor", 100, true, false);
    c.process_name = Some("editor.exe".to_string());
    c.icon_base64 = Some("data:image/png;base64,AAAA".to_string());
    let mut registry = WindowManager::new(999);
    assert!(registry.refresh_window_list(Ok(vec![c])).is_ok());
    let snap = registry.snapshot();
    assert_eq!(snap[0].process_name.as_deref(), Some("editor.exe"));
    assert_eq!(snap[0].icon_base64.as_deref(), Some("data:image/png;base64,AAAA"));
}

#[test]
fn failed_walk_reports_the_error_and_keeps_the_snapshot() {
    let mut registry = WindowManager::new(999);
    let walk = vec![candidate(1, "Editor", 100, true, false)];
    assert!(registry.refresh_window_list(Ok(walk)).is_ok());
    let before = registry.snapshot();

    let result = registry.refresh_window_list(Err(EnumerationError { os_error: 5 }));
    assert_eq!(result, Err(EnumerationError { os_error: 5 }));
    assert_eq!(registry.snapshot(), before);
}

#[test]
fn snapshot_is_a_copy_not_a_drain() {
    let mut registry = WindowManager::new(999);
    let walk = vec![candidate(1, "Editor", 100, true, false)];
    assert!(registry.refresh_window_list(Ok(walk)).is_ok());
    let first = registry.snapshot();
    let second = registry.snapshot();
    assert_eq!(first, second);
    assert_eq!(first.len(), 1);
}

fn editor_window() -> Window {
    Window {
        hwnd: 7,
        title: "Editor".to_string(),
        process_id: 100,
        process_name: None,
        icon_base64: None,
    }
}

#[test]
fn focus_of_unminimized_window_asks_only_for_foreground() {
    let w = editor_window();
    let plan = w.focus_window(false);
    assert_eq!(plan, vec![WindowAction::BringToForeground { hwnd: 7 }]);
}

#[test]
fn focus_of_minimized_window_restores_first() {
    let w = editor_window();
    let plan = w.focus_window(true);
    assert_eq!(
        plan,
        vec![WindowAction::Restore { hwnd: 7 }, WindowAction::BringToForeground { hwnd: 7 }]
    );
}

#[test]
fn focus_twice_is_idempotent() {
    let w = editor_window();
    let first = w.focus_window(false);
    let second = w.focus_window(false);
    assert_eq!(first, second);
    assert_eq!(first.len(), 1);
    assert!(focus_outcome(true).is_ok());
    assert!(focus_outcome(true).is_ok());
}

#[test]
fn refused_foreground_is_the_only_focus_error() {
    assert_eq!(focus_outcome(false), Err(FocusError::ForegroundRefused));
    assert_eq!(focus_outcome(true), Ok(()));
}

#[test]
fn close_is_a_single_fire_and_forget_request() {
    let w = editor_window();
    assert_eq!(w.close_window(), WindowAction::RequestClose { hwnd: 7 });
}
