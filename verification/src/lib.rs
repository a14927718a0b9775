//! A dual-pane text comparison view: two documents ("old" and "new") shown
//! side by side with a shared, atomically republished difference snapshot.
//!
//! The crate verifies the two stateful cores of such a view:
//!
//! - the debounce/recompute engine, which coalesces bursts of edit
//!   notifications into single diff recomputations and republishes the
//!   result without ever exposing a partial or stale-after-edit snapshot
//!   ([`engine`]);
//! - the focus/delegation state machine, which tracks the active pane and
//!   routes every single-target host operation either to that pane or,
//!   deliberately, to the editable "new" side ([`view`]).
//!
//! The host process (windowing, editors, the actual diff algorithm, timers)
//! drives these machines from outside; every decision the machines make is
//! specified and proved here.

pub mod engine;
pub mod laws;
pub mod signal;
pub mod view;
