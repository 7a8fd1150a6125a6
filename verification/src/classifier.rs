//! The window classifier: a pure predicate deciding whether one raw entry
//! of the operating system's window walk is a real, user-switchable
//! top-level application window.

use vstd::prelude::*;

verus! {

/// Style bit the OS sets on windows it currently shows (`WS_VISIBLE`).
pub const STYLE_VISIBLE: u32 = 0x1000_0000;

/// Style bits of a window that has a caption / title bar (`WS_CAPTION`).
pub const STYLE_CAPTION: u32 = 0x00C0_0000;

/// Extended style bit of an auxiliary tool window (`WS_EX_TOOLWINDOW`).
pub const EX_STYLE_TOOL_WINDOW: u32 = 0x0000_0080;

/// One raw entry of the operating system's window walk: the attributes the
/// OS reports for a top-level window, plus the best-effort enrichment
/// (process name, icon) that the walk driver resolves for entries that pass
/// the classifier. Enrichment of an entry that does not pass is ignored.
pub struct WindowCandidate {
    /// Opaque OS window handle: a weak, copyable token that may go stale at
    /// any time after capture; never dereferenced by this library.
    pub hwnd: isize,
    /// Identifier of the process owning the window.
    pub process_id: u32,
    /// Whether the OS reports the window as currently visible.
    pub visible: bool,
    /// Raw window style bits.
    pub style: u32,
    /// Raw extended window style bits.
    pub ex_style: u32,
    /// Caption text at enumeration time.
    pub title: String,
    /// Resolved executable name, when resolution succeeded.
    pub process_name: Option<String>,
    /// Encoded icon image as a data URI, when extraction succeeded.
    pub icon_base64: Option<String>,
}

/// The classification rule: a candidate is surfaced exactly when it is not
/// owned by the enumerating process itself, the OS reports it visible, its
/// style carries both the visible and the caption bits, it is not flagged
/// as a tool window, and its caption text is non-empty.
pub open spec fn surfaces(own_pid: u32, c: WindowCandidate) -> bool {
    &&& c.process_id != own_pid
    &&& c.visible
    &&& c.style & (STYLE_VISIBLE | STYLE_CAPTION) == (STYLE_VISIBLE | STYLE_CAPTION)
    &&& c.ex_style & EX_STYLE_TOOL_WINDOW == 0
    &&& c.title@.len() > 0
}

/// Decide whether a raw walk entry is surfaced. The decision is a pure
/// function of the candidate's attributes, evaluated short-circuit in the
/// order of the rules, so a repeated call on equal attributes returns the
/// same answer.
pub fn should_surface(own_pid: u32, c: &WindowCandidate) -> (surfaced: bool)
    ensures
        surfaced == surfaces(own_pid, *c),
{
    if c.process_id == own_pid {
        return false;
    }
    if !c.visible {
        return false;
    }
    if c.style & (STYLE_VISIBLE | STYLE_CAPTION) != (STYLE_VISIBLE | STYLE_CAPTION) {
        return false;
    }
    if c.ex_style & EX_STYLE_TOOL_WINDOW != 0 {
        return false;
    }
    !c.title.as_str().is_empty()
}

/// A candidate missing any single required attribute is rejected: the
/// enumerator's own windows, invisible windows, windows without the
/// caption-and-visible style bits, tool windows, and windows with an empty
/// caption never surface.
pub proof fn lemma_classifier_rejections(own_pid: u32, c: WindowCandidate)
    ensures
        c.process_id == own_pid ==> !surfaces(own_pid, c),
        !c.visible ==> !surfaces(own_pid, c),
        c.style & (STYLE_VISIBLE | STYLE_CAPTION) != (STYLE_VISIBLE | STYLE_CAPTION)
            ==> !surfaces(own_pid, c),
        c.ex_style & EX_STYLE_TOOL_WINDOW != 0 ==> !surfaces(own_pid, c),
        c.title@.len() == 0 ==> !surfaces(own_pid, c),
{
}

} // verus!
