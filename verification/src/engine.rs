//! The debounce/recompute engine.
//!
//! The engine is the decision core of the background task that keeps the
//! published diff up to date. The host drives it with four kinds of
//! occurrences — a document event, the expiry of a debounce timer, the
//! completion of a diff computation, and the destruction of the view —
//! and obeys the directives the transitions hand back: arm a timer with a
//! given epoch, take snapshots and start a diff computation, publish a
//! finished snapshot. Every transition is specified as a pure function of
//! the abstract state, so the burst-coalescing, freshness and cancellation
//! guarantees are proved once, over the model, and hold of any host that
//! follows the directives.
//!
//! Document versions are modelled as counters: each recognized event on a
//! document bumps its counter, and a snapshot is identified by the pair of
//! counters at the moment it was taken. "The published diff is fresh"
//! then reads: the published pair equals the version pair of some
//! recomputation whose snapshots were current when it started.

use vstd::prelude::*;

use crate::signal::{ChangeSlot, DocRole, DocumentEvent, triggers_recompute};

verus! {

/// How long a quiet period must last, in milliseconds, before the window
/// closes and a recomputation starts. The host runs each debounce timer
/// for this duration.
pub const RECALCULATE_DIFF_DEBOUNCE_MILLIS: u64 = 250;

/// The recompute loop's control state.
#[derive(Clone, Copy, PartialEq, Eq, Structural, Debug)]
pub enum EngineState {
    /// No unprocessed change; the loop is parked waiting for a signal.
    Idle,
    /// A change arrived; the loop is waiting for a quiet period to elapse.
    Debouncing,
    /// Snapshots were taken and a diff computation is in flight.
    Recomputing,
    /// The view was torn down; the loop has exited and nothing moves again.
    Destroyed,
}

/// Identifies a pair of snapshots by the document version counters at the
/// moment the pair was taken.
#[derive(Clone, Copy, PartialEq, Eq, Structural, Debug)]
pub struct SnapshotPair {
    /// Version of the "old" document when the pair was taken.
    pub old_version: u64,
    /// Version of the "new" document when the pair was taken.
    pub new_version: u64,
}

/// The abstract state of the debounce/recompute loop for one view.
#[derive(Clone, Copy, Debug)]
pub struct DiffEngine {
    /// Control state of the loop.
    pub state: EngineState,
    /// The single-slot change signal feeding the loop.
    pub signal: ChangeSlot,
    /// Epoch of the debounce timer most recently armed. A timer expiry is
    /// honoured only if it carries the current epoch, so an expiry that
    /// raced with a later change signal is ignored.
    pub timer_epoch: u64,
    /// Version counter of the "old" document: bumped on each recognized event.
    pub old_version: u64,
    /// Version counter of the "new" document: bumped on each recognized event.
    pub new_version: u64,
    /// The snapshot pair of the recomputation in flight, if one is.
    pub in_flight: Option<SnapshotPair>,
    /// The snapshot pair from which the currently published diff was computed.
    pub published: SnapshotPair,
}

/// A counter bumped by one, staying put at its ceiling.
pub open spec fn bump(v: u64) -> u64 {
    if v == u64::MAX {
        v
    } else {
        (v + 1) as u64
    }
}

/// Bumps a counter by one, staying put at its ceiling.
fn bump_counter(v: u64) -> (r: u64)
    ensures
        r == bump(v),
{
    if v == u64::MAX {
        v
    } else {
        v + 1
    }
}

/// The engine as construction leaves it: idle, no pending signal, and the
/// initial diff (computed during construction from the initial snapshots
/// of both documents) published.
pub open spec fn initial_engine() -> DiffEngine {
    DiffEngine {
        state: EngineState::Idle,
        signal: ChangeSlot { pending: false },
        timer_epoch: 0,
        old_version: 0,
        new_version: 0,
        in_flight: None,
        published: SnapshotPair { old_version: 0, new_version: 0 },
    }
}

/// The version counters after a recognized event on the document in `role`.
pub open spec fn bump_role(e: DiffEngine, role: DocRole) -> DiffEngine {
    match role {
        DocRole::Old => DiffEngine { old_version: bump(e.old_version), ..e },
        DocRole::New => DiffEngine { new_version: bump(e.new_version), ..e },
    }
}

/// Transition on a document event.
///
/// An unrecognized event, or any event after destruction, changes nothing.
/// A recognized event bumps the document's version and sends on the signal
/// slot; the loop consumes it at once when it is parked (`Idle`) or racing
/// the timer (`Debouncing`) — in both cases (re)arming the debounce timer
/// under a fresh epoch — and leaves it pending while a recomputation is in
/// flight, coalescing with any signal already pending there.
pub open spec fn spec_on_document_event(e: DiffEngine, role: DocRole, event: DocumentEvent) -> DiffEngine {
    if e.state is Destroyed || !triggers_recompute(event) {
        e
    } else {
        let b = bump_role(e, role);
        match e.state {
            EngineState::Idle => DiffEngine {
                state: EngineState::Debouncing,
                signal: ChangeSlot { pending: false },
                timer_epoch: bump(b.timer_epoch),
                ..b
            },
            EngineState::Debouncing => DiffEngine {
                signal: ChangeSlot { pending: false },
                timer_epoch: bump(b.timer_epoch),
                ..b
            },
            EngineState::Recomputing => DiffEngine { signal: ChangeSlot { pending: true }, ..b },
            EngineState::Destroyed => e,
        }
    }
}

/// The timer directive a document event hands the host: `Some(epoch)` when
/// a debounce timer of that epoch must be (re)armed, `None` otherwise.
pub open spec fn spec_document_event_directive(e: DiffEngine, role: DocRole, event: DocumentEvent) -> Option<u64> {
    if !(e.state is Destroyed) && triggers_recompute(event) && (e.state is Idle
        || e.state is Debouncing) {
        Some(spec_on_document_event(e, role, event).timer_epoch)
    } else {
        None
    }
}

/// Transition on the expiry of the debounce timer armed under `epoch`.
///
/// Honoured only while debouncing and only for the current epoch: an
/// expiry that raced with a later change signal carries a stale epoch and
/// is ignored, so a quiet period is measured from the latest signal. An
/// honoured expiry takes the snapshot pair at the current versions and
/// starts the recomputation.
pub open spec fn spec_on_timer(e: DiffEngine, epoch: u64) -> DiffEngine {
    if e.state is Debouncing && epoch == e.timer_epoch {
        DiffEngine {
            state: EngineState::Recomputing,
            in_flight: Some(SnapshotPair { old_version: e.old_version, new_version: e.new_version }),
            ..e
        }
    } else {
        e
    }
}

/// Transition on completion of the in-flight diff computation.
///
/// On success the in-flight snapshot pair is published in place; on
/// failure the previously published pair stays untouched. Either way the
/// loop then re-checks the signal slot: a signal that arrived during the
/// recomputation re-enters debouncing at once (no change is ever dropped),
/// otherwise the loop parks idle. A completion arriving in any other state
/// — in particular after destruction — changes nothing.
pub open spec fn spec_on_recompute_done(e: DiffEngine, success: bool) -> DiffEngine {
    if e.state is Recomputing {
        let published = if success {
            e.in_flight->0
        } else {
            e.published
        };
        if e.signal.pending {
            DiffEngine {
                state: EngineState::Debouncing,
                signal: ChangeSlot { pending: false },
                timer_epoch: bump(e.timer_epoch),
                in_flight: None,
                published,
                ..e
            }
        } else {
            DiffEngine { state: EngineState::Idle, in_flight: None, published, ..e }
        }
    } else {
        e
    }
}

/// Transition on destruction of the view: the loop exits, any in-flight
/// recomputation is torn down before publishing, and the signal slot is
/// dropped. The published diff is left exactly as it was.
pub open spec fn spec_destroy(e: DiffEngine) -> DiffEngine {
    DiffEngine {
        state: EngineState::Destroyed,
        signal: ChangeSlot { pending: false },
        in_flight: None,
        ..e
    }
}

impl DiffEngine {
    /// Structural soundness of an engine state: at most one recomputation
    /// is in flight (and exactly while `Recomputing`), a signal can only
    /// be left pending while a recomputation runs, nothing is in flight
    /// after destruction, and no snapshot pair the engine holds is newer
    /// than the documents themselves.
    pub open spec fn wf(self) -> bool {
        &&& (self.state is Recomputing <==> self.in_flight is Some)
        &&& (self.signal.pending ==> self.state is Recomputing)
        &&& (self.in_flight is Some ==> self.in_flight->0.old_version <= self.old_version
            && self.in_flight->0.new_version <= self.new_version)
        &&& (self.in_flight is Some ==> self.in_flight->0.old_version
            >= self.published.old_version && self.in_flight->0.new_version
            >= self.published.new_version)
        &&& self.published.old_version <= self.old_version
        &&& self.published.new_version <= self.new_version
    }

    /// A fresh engine, as view construction leaves it once the initial
    /// diff has been computed and published.
    pub fn new() -> (r: DiffEngine)
        ensures
            r == initial_engine(),
            r.wf(),
    {
        DiffEngine {
            state: EngineState::Idle,
            signal: ChangeSlot::new(),
            timer_epoch: 0,
            old_version: 0,
            new_version: 0,
            in_flight: None,
            published: SnapshotPair { old_version: 0, new_version: 0 },
        }
    }

    /// Feeds one document event to the engine.
    ///
    /// Returns `Some(epoch)` when the host must (re)arm the debounce timer
    /// under that epoch — the trailing-edge restart that coalesces a burst
    /// — and `None` when nothing is to be done (the event was not
    /// recognized, the view is destroyed, or a recomputation is in flight
    /// and the signal merely stays pending for the post-completion check).
    pub fn on_document_event(&mut self, role: DocRole, event: DocumentEvent) -> (arm: Option<u64>)
        requires
            old(self).wf(),
        ensures
            *final(self) == spec_on_document_event(*old(self), role, event),
            arm == spec_document_event_directive(*old(self), role, event),
            arm is Some ==> arm->0 == final(self).timer_epoch && final(self).state is Debouncing,
            final(self).published == old(self).published,
            final(self).wf(),
    {
        if matches!(self.state, EngineState::Destroyed) || !crate::signal::event_triggers_recompute(
            event,
        ) {
            return None;
        }
        match role {
            DocRole::Old => {
                self.old_version = bump_counter(self.old_version);
            },
            DocRole::New => {
                self.new_version = bump_counter(self.new_version);
            },
        }
        self.signal.send();
        match self.state {
            EngineState::Idle | EngineState::Debouncing => {
                let _ = self.signal.take();
                self.state = EngineState::Debouncing;
                self.timer_epoch = bump_counter(self.timer_epoch);
                Some(self.timer_epoch)
            },
            EngineState::Recomputing => None,
            EngineState::Destroyed => None,
        }
    }

    /// Feeds the expiry of the debounce timer armed under `epoch`.
    ///
    /// Returns true exactly when the quiet period really elapsed — the
    /// expiry carries the current epoch and the loop was debouncing — in
    /// which case the host must now take fresh snapshots of both documents
    /// and start the diff computation. A stale expiry returns false and
    /// changes nothing.
    pub fn on_timer_elapsed(&mut self, epoch: u64) -> (start: bool)
        requires
            old(self).wf(),
        ensures
            *final(self) == spec_on_timer(*old(self), epoch),
            start == (old(self).state is Debouncing && epoch == old(self).timer_epoch),
            start ==> final(self).in_flight == Some(
                SnapshotPair {
                    old_version: old(self).old_version,
                    new_version: old(self).new_version,
                },
            ),
            final(self).published == old(self).published,
            final(self).wf(),
    {
        if matches!(self.state, EngineState::Debouncing) && epoch == self.timer_epoch {
            self.state = EngineState::Recomputing;
            self.in_flight = Some(
                SnapshotPair { old_version: self.old_version, new_version: self.new_version },
            );
            true
        } else {
            false
        }
    }

    /// Feeds the completion of the diff computation; `success` says
    /// whether it produced a snapshot.
    ///
    /// Returns `(publish, rearm)`: `publish` is true exactly when the
    /// completion belongs to the recomputation in flight and succeeded, in
    /// which case the host must now publish the computed snapshot into the
    /// shared diff container — and never otherwise, so a computation that
    /// outlives the view is discarded unpublished. `rearm` is `Some(epoch)`
    /// when a signal arrived during the recomputation and the host must
    /// arm a fresh debounce timer at once.
    pub fn on_recompute_done(&mut self, success: bool) -> (r: (bool, Option<u64>))
        requires
            old(self).wf(),
        ensures
            *final(self) == spec_on_recompute_done(*old(self), success),
            r.0 == (old(self).state is Recomputing && success),
            r.0 ==> final(self).published == old(self).in_flight->0,
            !r.0 ==> final(self).published == old(self).published,
            r.1 is Some <==> (old(self).state is Recomputing && old(self).signal.pending),
            r.1 is Some ==> r.1->0 == final(self).timer_epoch && final(self).state is Debouncing,
            final(self).wf(),
    {
        if !matches!(self.state, EngineState::Recomputing) {
            return (false, None);
        }
        if success {
            if let Some(pair) = self.in_flight {
                self.published = pair;
            }
        }
        self.in_flight = None;
        let publish = success;
        if self.signal.take() {
            self.state = EngineState::Debouncing;
            self.timer_epoch = bump_counter(self.timer_epoch);
            (publish, Some(self.timer_epoch))
        } else {
            self.state = EngineState::Idle;
            (publish, None)
        }
    }

    /// Tears the engine down with its view: the background loop exits, an
    /// in-flight recomputation is discarded before publishing, and the
    /// published diff is left exactly as it was.
    pub fn destroy(&mut self)
        requires
            old(self).wf(),
        ensures
            *final(self) == spec_destroy(*old(self)),
            final(self).published == old(self).published,
            final(self).wf(),
    {
        self.state = EngineState::Destroyed;
        self.signal = ChangeSlot::new();
        self.in_flight = None;
    }
}

} // verus!
