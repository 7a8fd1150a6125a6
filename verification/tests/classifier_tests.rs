use binocular::classifier::{
    should_surface, WindowCandidate, EX_STYLE_TOOL_WINDOW, STYLE_CAPTION, STYLE_VISIBLE,
};

fn candidate(title: &str, pid: u32) -> WindowCandidate {
    WindowCandidate {
        hwnd: 42,
        process_id: pid,
        visible: true,
        style: STYLE_VISIBLE | STYLE_CAPTION,
        ex_style: 0,
        title: title.to_string(),
        process_name: None,
        icon_base64: None,
    }
}

#[test]
fn surfaces_a_plain_captioned_window() {
    let c = candidate("Editor", 100);
    assert!(should_surface(999, &c));
}

#[test]
fn classification_is_deterministic() {
    let c = candidate("Editor", 100);
    let first = should_surface(999, &c);
    let second = should_surface(999, &c);
    assert_eq!(first, second);
    assert!(first);
}

#[test]
fn rejects_own_process() {
    let c = candidate("Editor", 999);
    assert!(!should_surface(999, &c));
}

#[test]
fn rejects_invisible_window() {
    let mut c = candidate("Editor", 100);
    c.visible = false;
    assert!(!should_surface(999, &c));
}

#[test]
fn rejects_window_without_caption_style() {
    let mut c = candidate("Editor", 100);
    c.style = STYLE_VISIBLE;
    assert!(!should_surface(999, &c));
}

#[test]
fn rejects_window_without_visible_style_bit() {
    let mut c = candidate("Editor", 100);
    c.style = STYLE_CAPTION;
    assert!(!should_surface(999, &c));
}

#[test]
fn rejects_tool_window() {
    let mut c = candidate("Palette", 100);
    c.ex_style = EX_STYLE_TOOL_WINDOW;
    assert!(!should_surface(999, &c));
}

#[test]
fn rejects_empty_title() {
    let c = candidate("", 100);
    assert!(!should_surface(999, &c));
}

#[test]
fn extra_style_bits_do_not_exclude() {
    let mut c = candidate("Editor", 100);
    c.style = STYLE_VISIBLE | STYLE_CAPTION | 0x0001_0000;
    c.ex_style = 0x0000_0100;
    assert!(should_surface(999, &c));
}
