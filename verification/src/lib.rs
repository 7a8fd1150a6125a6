//! Window registry and enumeration engine for a task-switcher overlay.
//!
//! The library holds the decision logic of the switcher's core: the
//! classifier that decides which raw windows of the operating system's
//! window table are surfaced to the user, the registry that owns the
//! resulting snapshot and replaces it wholesale on every refresh, the
//! focus/close decision rules, the icon-encoding pipeline, the process-name
//! resolver, and the shell-notification bridge's trigger rule.
//!
//! Everything that must talk to the operating system (the window walk, the
//! attribute queries, icon rendering, process inspection) lives in a thin
//! driver outside this crate; the driver hands plain values in and carries
//! the decided actions out.

pub mod bridge;
pub mod classifier;
pub mod icon;
pub mod process;
pub mod registry;
