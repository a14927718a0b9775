//! The engine's laws: what holds of every run of the debounce/recompute
//! loop, stated over traces of the occurrences the host can feed it and
//! proved from the transition model in [`crate::engine`].

use vstd::prelude::*;

use crate::engine::{
    DiffEngine, SnapshotPair, spec_destroy, spec_on_document_event, spec_on_recompute_done,
    spec_on_timer,
};
use crate::signal::{DocRole, DocumentEvent, triggers_recompute};

verus! {

/// One occurrence the host can feed the engine.
#[derive(Clone, Copy, PartialEq, Eq, Structural, Debug)]
pub enum EngineEvent {
    /// A document reported an event.
    DocChanged(DocRole, DocumentEvent),
    /// The debounce timer armed under the given epoch expired.
    TimerElapsed(u64),
    /// The in-flight diff computation completed; the flag says whether it
    /// produced a snapshot.
    RecomputeDone(bool),
    /// The view was torn down.
    ViewDestroyed,
}

/// The engine state after one occurrence.
pub open spec fn next(e: DiffEngine, ev: EngineEvent) -> DiffEngine {
    match ev {
        EngineEvent::DocChanged(role, event) => spec_on_document_event(e, role, event),
        EngineEvent::TimerElapsed(epoch) => spec_on_timer(e, epoch),
        EngineEvent::RecomputeDone(success) => spec_on_recompute_done(e, success),
        EngineEvent::ViewDestroyed => spec_destroy(e),
    }
}

/// The engine state after a trace of occurrences, in order.
pub open spec fn apply_events(e: DiffEngine, evs: Seq<EngineEvent>) -> DiffEngine
    decreases evs.len(),
{
    if evs.len() == 0 {
        e
    } else {
        apply_events(next(e, evs[0]), evs.drop_first())
    }
}

/// Whether this occurrence starts a recomputation.
pub open spec fn starts_recompute(e: DiffEngine, ev: EngineEvent) -> bool {
    !(e.state is Recomputing) && next(e, ev).state is Recomputing
}

/// How many recomputations a trace of occurrences starts.
pub open spec fn recomputations_started(e: DiffEngine, evs: Seq<EngineEvent>) -> nat
    decreases evs.len(),
{
    if evs.len() == 0 {
        0nat
    } else {
        (if starts_recompute(e, evs[0]) {
            1nat
        } else {
            0nat
        }) + recomputations_started(next(e, evs[0]), evs.drop_first())
    }
}

/// A recognized document event: one that sends a change signal.
pub open spec fn is_recognized_doc_event(ev: EngineEvent) -> bool {
    ev matches EngineEvent::DocChanged(_, de) && triggers_recompute(de)
}

/// Well-formedness is preserved by every occurrence.
pub proof fn lemma_next_preserves_wf(e: DiffEngine, ev: EngineEvent)
    requires
        e.wf(),
    ensures
        next(e, ev).wf(),
{
}

/// Well-formedness is preserved by every trace.
pub proof fn lemma_apply_preserves_wf(e: DiffEngine, evs: Seq<EngineEvent>)
    requires
        e.wf(),
    ensures
        apply_events(e, evs).wf(),
    decreases evs.len(),
{
    if evs.len() > 0 {
        lemma_next_preserves_wf(e, evs[0]);
        lemma_apply_preserves_wf(next(e, evs[0]), evs.drop_first());
    }
}

/// Counting recomputations over a trace extended by one occurrence.
proof fn lemma_recomputations_started_push(e: DiffEngine, evs: Seq<EngineEvent>, ev: EngineEvent)
    ensures
        recomputations_started(e, evs.push(ev)) == recomputations_started(e, evs) + (
        if starts_recompute(apply_events(e, evs), ev) {
            1nat
        } else {
            0nat
        }),
    decreases evs.len(),
{
    if evs.len() == 0 {
        assert(evs.push(ev)[0] == ev);
        assert(evs.push(ev).drop_first() =~= Seq::<EngineEvent>::empty());
        assert(recomputations_started(e, evs.push(ev)) == (if starts_recompute(e, ev) {
            1nat
        } else {
            0nat
        }) + recomputations_started(next(e, ev), Seq::<EngineEvent>::empty()));
    } else {
        assert(evs.push(ev)[0] == evs[0]);
        assert(evs.push(ev).drop_first() =~= evs.drop_first().push(ev));
        lemma_recomputations_started_push(next(e, evs[0]), evs.drop_first(), ev);
        assert(recomputations_started(e, evs.push(ev)) == (if starts_recompute(e, evs[0]) {
            1nat
        } else {
            0nat
        }) + recomputations_started(next(e, evs[0]), evs.drop_first().push(ev)));
        assert(apply_events(e, evs) == apply_events(next(e, evs[0]), evs.drop_first()));
        assert(recomputations_started(e, evs) == (if starts_recompute(e, evs[0]) {
            1nat
        } else {
            0nat
        }) + recomputations_started(next(e, evs[0]), evs.drop_first()));
    }
}

/// During a burst of recognized document events inside one debounce
/// window, the loop stays debouncing: no recomputation starts, the
/// published diff does not move, and every event bumps exactly one
/// document version.
pub proof fn lemma_burst_keeps_debouncing(e: DiffEngine, burst: Seq<EngineEvent>)
    requires
        e.wf(),
        e.state is Debouncing,
        forall|i: int| 0 <= i < burst.len() ==> is_recognized_doc_event(#[trigger] burst[i]),
        e.old_version + burst.len() <= u64::MAX,
        e.new_version + burst.len() <= u64::MAX,
    ensures
        ({
            let closed = apply_events(e, burst);
            &&& closed.wf()
            &&& closed.state is Debouncing
            &&& closed.published == e.published
            &&& closed.old_version + closed.new_version == e.old_version + e.new_version
                + burst.len()
            &&& closed.old_version >= e.old_version
            &&& closed.new_version >= e.new_version
        }),
        recomputations_started(e, burst) == 0,
    decreases burst.len(),
{
    if burst.len() > 0 {
        let e1 = next(e, burst[0]);
        lemma_next_preserves_wf(e, burst[0]);
        lemma_burst_keeps_debouncing(e1, burst.drop_first());
    }
}

/// Law (debounce coalescing): all edit notifications arriving during one
/// active debounce window coalesce into exactly one recomputation. None
/// starts while the burst lasts; the expiry of the timer armed by the
/// last notification starts exactly one; and the snapshot pair it uses is
/// the document versions as they stand after the entire burst — strictly
/// after every notification in it.
pub proof fn lemma_debounced_burst_recomputes_once(e: DiffEngine, burst: Seq<EngineEvent>)
    requires
        e.wf(),
        e.state is Debouncing,
        burst.len() > 0,
        forall|i: int| 0 <= i < burst.len() ==> is_recognized_doc_event(#[trigger] burst[i]),
        e.old_version + burst.len() <= u64::MAX,
        e.new_version + burst.len() <= u64::MAX,
    ensures
        ({
            let closed = apply_events(e, burst);
            let closing = EngineEvent::TimerElapsed(closed.timer_epoch);
            let started = next(closed, closing);
            &&& recomputations_started(e, burst.push(closing)) == 1
            &&& started.state is Recomputing
            &&& started.in_flight == Some(
                SnapshotPair {
                    old_version: closed.old_version,
                    new_version: closed.new_version,
                },
            )
            &&& closed.old_version + closed.new_version == e.old_version + e.new_version
                + burst.len()
            &&& next(started, EngineEvent::RecomputeDone(true)).published == SnapshotPair {
                old_version: closed.old_version,
                new_version: closed.new_version,
            }
        }),
{
    lemma_burst_keeps_debouncing(e, burst);
    let closed = apply_events(e, burst);
    let closing = EngineEvent::TimerElapsed(closed.timer_epoch);
    lemma_recomputations_started_push(e, burst, closing);
    assert(starts_recompute(closed, closing));
}

/// Law (no lost update): a change signal racing the timer wins. A timer
/// expiry armed before the latest notification carries a stale epoch and
/// is ignored, so the debounce restarts instead of a recomputation firing
/// on snapshots older than that notification.
pub proof fn lemma_signal_beats_timer(e: DiffEngine, role: DocRole, event: DocumentEvent)
    requires
        e.wf(),
        e.state is Debouncing,
        triggers_recompute(event),
        e.timer_epoch < u64::MAX,
    ensures
        ({
            let signalled = spec_on_document_event(e, role, event);
            let stale = EngineEvent::TimerElapsed(e.timer_epoch);
            &&& next(signalled, stale) == signalled
            &&& !starts_recompute(signalled, stale)
        }),
{
}

/// Law (freshness): whenever an occurrence starts a recomputation, the
/// snapshot pair it records is the documents' versions at that very
/// moment — never an older pair.
pub proof fn lemma_recompute_starts_fresh(e: DiffEngine, ev: EngineEvent)
    requires
        e.wf(),
    ensures
        starts_recompute(e, ev) ==> next(e, ev).in_flight == Some(
            SnapshotPair { old_version: e.old_version, new_version: e.new_version },
        ),
{
}

/// Law (single flight): while a recomputation is in flight, no occurrence
/// starts another, and whatever stays in flight is the same snapshot pair.
pub proof fn lemma_single_recompute_in_flight(e: DiffEngine, ev: EngineEvent)
    requires
        e.wf(),
        e.state is Recomputing,
    ensures
        !starts_recompute(e, ev),
        next(e, ev).state is Recomputing ==> next(e, ev).in_flight == e.in_flight,
{
}

/// Law (coalescing bound): more than one notification inside a single
/// debounce window still yields exactly one recomputation — fewer than
/// the number of notifications.
pub proof fn lemma_rapid_edits_coalesce(e: DiffEngine, burst: Seq<EngineEvent>)
    requires
        e.wf(),
        e.state is Debouncing,
        burst.len() > 1,
        forall|i: int| 0 <= i < burst.len() ==> is_recognized_doc_event(#[trigger] burst[i]),
        e.old_version + burst.len() <= u64::MAX,
        e.new_version + burst.len() <= u64::MAX,
    ensures
        ({
            let closed = apply_events(e, burst);
            let closing = EngineEvent::TimerElapsed(closed.timer_epoch);
            recomputations_started(e, burst.push(closing)) < burst.len()
        }),
{
    lemma_debounced_burst_recomputes_once(e, burst);
}

/// Law (publication only advances): the published diff never goes back
/// to an older snapshot pair — each occurrence leaves it where it was or
/// moves it to a pair at least as new.
pub proof fn lemma_published_never_regresses(e: DiffEngine, ev: EngineEvent)
    requires
        e.wf(),
    ensures
        next(e, ev).published.old_version >= e.published.old_version,
        next(e, ev).published.new_version >= e.published.new_version,
{
}

/// Law (publication only advances, over a whole trace).
pub proof fn lemma_published_never_regresses_trace(e: DiffEngine, evs: Seq<EngineEvent>)
    requires
        e.wf(),
    ensures
        apply_events(e, evs).published.old_version >= e.published.old_version,
        apply_events(e, evs).published.new_version >= e.published.new_version,
    decreases evs.len(),
{
    if evs.len() > 0 {
        lemma_published_never_regresses(e, evs[0]);
        lemma_next_preserves_wf(e, evs[0]);
        lemma_published_never_regresses_trace(next(e, evs[0]), evs.drop_first());
    }
}

/// After destruction nothing moves: every later occurrence leaves the
/// engine — the published diff included — exactly as destruction left it.
pub proof fn lemma_destroyed_engine_is_inert(e: DiffEngine, evs: Seq<EngineEvent>)
    requires
        e.wf(),
        e.state is Destroyed,
    ensures
        apply_events(e, evs) == e,
    decreases evs.len(),
{
    if evs.len() > 0 {
        assert(next(e, evs[0]) == e);
        lemma_destroyed_engine_is_inert(e, evs.drop_first());
    }
}

/// Law (clean teardown): destroying the view while a recomputation is
/// mid-flight discards the in-flight snapshot unpublished, and no later
/// occurrence — not even the completion of that computation — ever
/// mutates the published diff again.
pub proof fn lemma_destroy_mid_flight(e: DiffEngine, evs: Seq<EngineEvent>)
    requires
        e.wf(),
        e.state is Recomputing,
    ensures
        ({
            let down = next(e, EngineEvent::ViewDestroyed);
            &&& down.published == e.published
            &&& down.in_flight is None
            &&& apply_events(down, evs) == down
        }),
{
    lemma_next_preserves_wf(e, EngineEvent::ViewDestroyed);
    lemma_destroyed_engine_is_inert(next(e, EngineEvent::ViewDestroyed), evs);
}

/// Law (failure recovery): a failed recomputation leaves the previously
/// published diff untouched and the loop alive: the very next recognized
/// notification debounces as usual, and the expiry of the timer it armed
/// starts a recomputation — still with the failed attempt's publication
/// untouched. Failure never latches.
pub proof fn lemma_failure_keeps_published_and_recovers(
    e: DiffEngine,
    role: DocRole,
    event: DocumentEvent,
)
    requires
        e.wf(),
        e.state is Recomputing,
        triggers_recompute(event),
    ensures
        ({
            let failed = next(e, EngineEvent::RecomputeDone(false));
            let signalled = next(failed, EngineEvent::DocChanged(role, event));
            let closing = EngineEvent::TimerElapsed(signalled.timer_epoch);
            &&& failed.published == e.published
            &&& !(failed.state is Destroyed)
            &&& !(failed.state is Recomputing)
            &&& signalled.state is Debouncing
            &&& starts_recompute(signalled, closing)
            &&& next(signalled, closing).published == e.published
        }),
{
}

} // verus!
