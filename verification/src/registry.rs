//! The window registry: owner of the snapshot of surfaced windows, the one
//! write path that replaces it wholesale on a refresh, and the decision
//! rules for the two mutating requests a user can make of a window (bring
//! it to the foreground, ask it to close).
//!
//! The registry itself is single-threaded data; the shell that embeds it
//! serializes every read and the one write path behind a single lock, so a
//! reader always sees either the complete previous snapshot or the complete
//! new one, never a partial mix.

use vstd::prelude::*;

use crate::classifier::{should_surface, surfaces, WindowCandidate};

verus! {

/// The operating system refused the window walk as a whole. Transient: the
/// previous snapshot stays authoritative and the next trigger retries.
#[derive(Clone, Copy, Debug, PartialEq, Eq, Structural)]
pub struct EnumerationError {
    /// Raw OS error code reported by the failed walk.
    pub os_error: u32,
}

/// The operating system refused to bring the requested window to the
/// foreground, typically because it vanished after the last refresh or
/// because focus stealing was denied.
#[derive(Clone, Copy, Debug, PartialEq, Eq, Structural)]
pub enum FocusError {
    ForegroundRefused,
}

/// One surfaced window: the record the user's list is made of. Records are
/// built fresh on every refresh; the handle is a weak back-reference whose
/// continued validity is never assumed.
#[derive(Clone, Debug, PartialEq, Eq)]
pub struct Window {
    /// Opaque OS window handle captured at enumeration time.
    pub hwnd: isize,
    /// Caption text captured at enumeration time; not kept live.
    pub title: String,
    /// Identifier of the process owning the window.
    pub process_id: u32,
    /// Resolved executable name, when resolution succeeded.
    pub process_name: Option<String>,
    /// Encoded icon image as a data URI, when extraction succeeded.
    pub icon_base64: Option<String>,
}

/// One OS request that a focus or close decision asks the driver to perform
/// on a window handle.
#[derive(Clone, Copy, Debug, PartialEq, Eq, Structural)]
pub enum WindowAction {
    /// Restore a minimized window (`ShowWindow` with `SW_RESTORE`).
    Restore { hwnd: isize },
    /// Ask the OS to bring the window to the foreground.
    BringToForeground { hwnd: isize },
    /// Post a close request to the window; the OS handles the rest.
    RequestClose { hwnd: isize },
}

/// The record a surfaced candidate turns into.
pub open spec fn record_of(c: WindowCandidate) -> Window {
    Window {
        hwnd: c.hwnd,
        title: c.title,
        process_id: c.process_id,
        process_name: c.process_name,
        icon_base64: c.icon_base64,
    }
}

/// The snapshot a successful walk produces: the records of exactly the
/// candidates that pass the classifier, in walk order.
pub open spec fn snapshot_of(own_pid: u32, cands: Seq<WindowCandidate>) -> Seq<Window>
    decreases cands.len(),
{
    if cands.len() == 0 {
        Seq::empty()
    } else if surfaces(own_pid, cands.last()) {
        snapshot_of(own_pid, cands.drop_last()).push(record_of(cands.last()))
    } else {
        snapshot_of(own_pid, cands.drop_last())
    }
}

/// The request sequence that focuses a window: restore it first when the OS
/// reports it minimized, then ask for the foreground.
pub open spec fn focus_plan(hwnd: isize, minimized: bool) -> Seq<WindowAction> {
    if minimized {
        seq![(WindowAction::Restore { hwnd }), (WindowAction::BringToForeground { hwnd })]
    } else {
        seq![(WindowAction::BringToForeground { hwnd })]
    }
}

/// The caller-facing result of a focus request, given whether the OS
/// accepted the foreground request. A failed restore never surfaces here:
/// it is logged by the driver and the foreground request still goes out.
pub open spec fn focus_result(foreground_ok: bool) -> Result<(), FocusError> {
    if foreground_ok {
        Ok(())
    } else {
        Err(FocusError::ForegroundRefused)
    }
}

impl Window {
    /// Decide the OS requests that focusing this window takes: a restore
    /// first exactly when the OS reports the window minimized, then the
    /// foreground request. The driver performs them in order; it logs a
    /// failed restore and does not cancel the foreground request for it.
    pub fn focus_window(&self, minimized: bool) -> (plan: Vec<WindowAction>)
        ensures
            plan@ == focus_plan(self.hwnd, minimized),
    {
        let mut plan: Vec<WindowAction> = Vec::new();
        if minimized {
            plan.push(WindowAction::Restore { hwnd: self.hwnd });
        }
        plan.push(WindowAction::BringToForeground { hwnd: self.hwnd });
        proof {
            assert(plan@ =~= focus_plan(self.hwnd, minimized));
        }
        plan
    }

    /// Decide the close request for this window: fire-and-forget, the OS
    /// handles graceful shutdown or prompts asynchronously, and no failure
    /// is ever reported back.
    pub fn close_window(&self) -> (action: WindowAction)
        ensures
            action == (WindowAction::RequestClose { hwnd: self.hwnd }),
    {
        WindowAction::RequestClose { hwnd: self.hwnd }
    }
}

/// Fold the driver-reported outcome of the foreground request into the
/// caller-facing result: only a refused foreground request is an error.
pub fn focus_outcome(foreground_ok: bool) -> (result: Result<(), FocusError>)
    ensures
        result == focus_result(foreground_ok),
{
    if foreground_ok {
        Ok(())
    } else {
        Err(FocusError::ForegroundRefused)
    }
}

/// The registry: the current snapshot of surfaced windows and the
/// enumerating process's own identifier, fixed at construction and used by
/// the classifier's self-exclusion rule.
pub struct WindowManager {
    /// The current snapshot, replaced wholesale by every successful refresh.
    pub windows: Vec<Window>,
    /// The enumerating process's own identifier.
    pub current_pid: u32,
}

/// Copy an optional string, preserving the value exactly.
fn clone_opt_string(source: &Option<String>) -> (copy: Option<String>)
    ensures
        copy == *source,
{
    match source {
        Some(s) => Some(s.clone()),
        None => None,
    }
}

/// Copy a record, preserving the value exactly.
fn clone_window(w: &Window) -> (copy: Window)
    ensures
        copy == *w,
{
    Window {
        hwnd: w.hwnd,
        title: w.title.clone(),
        process_id: w.process_id,
        process_name: clone_opt_string(&w.process_name),
        icon_base64: clone_opt_string(&w.icon_base64),
    }
}

impl WindowManager {
    /// A registry starts empty, remembering only the live process's own
    /// identifier.
    pub fn new(current_pid: u32) -> (registry: WindowManager)
        ensures
            registry.windows@ == Seq::<Window>::empty(),
            registry.current_pid == current_pid,
    {
        WindowManager { windows: Vec::new(), current_pid }
    }

    /// Replace the snapshot with the outcome of one full window walk.
    ///
    /// A successful walk replaces the snapshot wholesale with the records
    /// of exactly the candidates that pass the classifier, in walk order;
    /// per-candidate enrichment is carried over as the walk resolved it,
    /// best-effort. A failed walk is reported back unchanged and leaves the
    /// previous snapshot in place: the refresh is all-or-nothing.
    pub fn refresh_window_list(
        &mut self,
        walk: Result<Vec<WindowCandidate>, EnumerationError>,
    ) -> (result: Result<(), EnumerationError>)
        ensures
            final(self).current_pid == old(self).current_pid,
            (match walk {
                Ok(cands) => {
                    &&& result == Ok::<(), EnumerationError>(())
                    &&& final(self).windows@ == snapshot_of(old(self).current_pid, cands@)
                },
                Err(e) => {
                    &&& result == Err::<(), EnumerationError>(e)
                    &&& final(self).windows@ == old(self).windows@
                },
            }),
    {
        match walk {
            Err(e) => Err(e),
            Ok(cands) => {
                let own_pid = self.current_pid;
                let mut fresh: Vec<Window> = Vec::new();
                let mut i: usize = 0;
                while i < cands.len()
                    invariant
                        i <= cands.len(),
                        fresh@ == snapshot_of(own_pid, cands@.take(i as int)),
                    decreases cands.len() - i,
                {
                    let c = &cands[i];
                    if should_surface(own_pid, c) {
                        fresh.push(Window {
                            hwnd: c.hwnd,
                            title: c.title.clone(),
                            process_id: c.process_id,
                            process_name: clone_opt_string(&c.process_name),
                            icon_base64: clone_opt_string(&c.icon_base64),
                        });
                    }
                    proof {
                        assert(cands@.take(i + 1).drop_last() =~= cands@.take(i as int));
                        assert(cands@.take(i + 1).last() == cands@[i as int]);
                    }
                    i += 1;
                }
                proof {
                    assert(cands@.take(cands.len() as int) =~= cands@);
                }
                self.windows = fresh;
                Ok(())
            },
        }
    }

    /// A full copy of the current snapshot. Never triggers a refresh and
    /// never mutates the registry.
    pub fn snapshot(&self) -> (snap: Vec<Window>)
        ensures
            snap@ == self.windows@,
    {
        let mut snap: Vec<Window> = Vec::new();
        let mut i: usize = 0;
        while i < self.windows.len()
            invariant
                i <= self.windows.len(),
                snap@ == self.windows@.take(i as int),
            decreases self.windows.len() - i,
        {
            snap.push(clone_window(&self.windows[i]));
            proof {
                assert(self.windows@.take(i + 1) =~= self.windows@.take(i as int).push(
                    self.windows@[i as int],
                ));
            }
            i += 1;
        }
        proof {
            assert(self.windows@.take(self.windows.len() as int) =~= self.windows@);
        }
        snap
    }
}

/// Self-exclusion: no record of a snapshot built from a walk is owned by
/// the enumerating process itself.
pub proof fn lemma_snapshot_self_excluded(own_pid: u32, cands: Seq<WindowCandidate>)
    ensures
        forall|i: int|
            0 <= i < snapshot_of(own_pid, cands).len() ==> (#[trigger] snapshot_of(
                own_pid,
                cands,
            )[i]).process_id != own_pid,
    decreases cands.len(),
{
    if cands.len() > 0 {
        lemma_snapshot_self_excluded(own_pid, cands.drop_last());
    }
}

/// Focus idempotence: focusing a window that is not minimized issues
/// exactly one foreground request, the same on every call, and the request
/// succeeds whenever the OS accepts it; nothing in the decision depends on
/// how often it was made before.
pub proof fn lemma_focus_unminimized_idempotent(w: Window)
    ensures
        focus_plan(w.hwnd, false) == seq![(WindowAction::BringToForeground { hwnd: w.hwnd })],
        focus_result(true) == Ok::<(), FocusError>(()),
{
}

} // verus!
