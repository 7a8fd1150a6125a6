use binocular::bridge::{
    shell_event_triggers_refresh, SHELL_WINDOW_CREATED, SHELL_WINDOW_DESTROYED,
};
use binocular::process::executable_name;

#[test]
fn takes_the_final_path_component() {
    assert_eq!(executable_name("C:\\Windows\\System32\\notepad.exe"), "notepad.exe");
}

#[test]
fn a_bare_name_is_kept_whole() {
    assert_eq!(executable_name("notepad.exe"), "notepad.exe");
}

#[test]
fn a_trailing_separator_leaves_an_empty_name() {
    assert_eq!(executable_name("C:\\Windows\\"), "");
}

#[test]
fn an_empty_path_has_an_empty_name() {
    assert_eq!(executable_name(""), "");
}

#[test]
fn only_the_last_separator_counts() {
    assert_eq!(executable_name("a\\b\\c"), "c");
}

#[test]
fn window_lifecycle_events_trigger_a_refresh() {
    assert!(shell_event_triggers_refresh(SHELL_WINDOW_CREATED));
    assert!(shell_event_triggers_refresh(SHELL_WINDOW_DESTROYED));
}

#[test]
fn other_shell_events_are_ignored() {
    assert!(!shell_event_triggers_refresh(0));
    assert!(!shell_event_triggers_refresh(3));
    assert!(!shell_event_triggers_refresh(0x8000_0006));
}
