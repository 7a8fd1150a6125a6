//! The change-notification bridge's decision rule: which OS shell events
//! make the registry walk the window table again. Registering the listener
//! window and receiving the messages is the driver's work.

use vstd::prelude::*;

verus! {

/// Shell notification code for "a top-level window was created"
/// (`HSHELL_WINDOWCREATED`).
pub const SHELL_WINDOW_CREATED: u32 = 1;

/// Shell notification code for "a top-level window was destroyed"
/// (`HSHELL_WINDOWDESTROYED`).
pub const SHELL_WINDOW_DESTROYED: u32 = 2;

/// Decide whether a shell notification triggers a refresh of the registry:
/// exactly the window-created and window-destroyed events do; every other
/// shell message is ignored.
pub fn shell_event_triggers_refresh(event: u32) -> (refresh: bool)
    ensures
        refresh == (event == SHELL_WINDOW_CREATED || event == SHELL_WINDOW_DESTROYED),
{
    event == SHELL_WINDOW_CREATED || event == SHELL_WINDOW_DESTROYED
}

} // verus!
