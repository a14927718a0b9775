use side_by_side_diff::engine::{DiffEngine, EngineState, SnapshotPair};
use side_by_side_diff::signal::{ChangeSlot, DocRole, DocumentEvent, event_triggers_recompute};

#[test]
fn fresh_engine_is_idle_with_initial_publication() {
    let e = DiffEngine::new();
    assert_eq!(e.state, EngineState::Idle);
    assert!(!e.signal.pending);
    assert_eq!(e.in_flight, None);
    assert_eq!(e.published, SnapshotPair { old_version: 0, new_version: 0 });
}

#[test]
fn recognized_events_trigger_and_others_do_not() {
    assert!(event_triggers_recompute(DocumentEvent::Edited));
    assert!(event_triggers_recompute(DocumentEvent::LanguageChanged));
    assert!(event_triggers_recompute(DocumentEvent::Reparsed));
    assert!(!event_triggers_recompute(DocumentEvent::Other));
}

#[test]
fn unrecognized_event_changes_nothing() {
    let mut e = DiffEngine::new();
    let arm = e.on_document_event(DocRole::New, DocumentEvent::Other);
    assert_eq!(arm, None);
    assert_eq!(e.state, EngineState::Idle);
    assert_eq!(e.new_version, 0);
}

#[test]
fn change_slot_coalesces_sends() {
    let mut slot = ChangeSlot::new();
    assert!(!slot.pending);
    slot.send();
    slot.send();
    slot.send();
    assert!(slot.pending);
    assert!(slot.take());
    assert!(!slot.take());
}

#[test]
fn burst_of_edits_coalesces_into_one_recomputation() {
    let mut e = DiffEngine::new();
    // Three rapid edits inside one debounce window: each restarts the
    // timer under a fresh epoch.
    assert_eq!(e.on_document_event(DocRole::New, DocumentEvent::Edited), Some(1));
    assert_eq!(e.on_document_event(DocRole::New, DocumentEvent::Edited), Some(2));
    assert_eq!(e.on_document_event(DocRole::Old, DocumentEvent::Reparsed), Some(3));
    assert_eq!(e.state, EngineState::Debouncing);
    // The timers restarted by the first two edits expired in vain: their
    // epochs are stale and start nothing.
    assert!(!e.on_timer_elapsed(1));
    assert!(!e.on_timer_elapsed(2));
    assert_eq!(e.state, EngineState::Debouncing);
    // Only the timer armed by the last edit closes the window, and the
    // snapshot pair is taken after the whole burst.
    assert!(e.on_timer_elapsed(3));
    assert_eq!(e.state, EngineState::Recomputing);
    assert_eq!(e.in_flight, Some(SnapshotPair { old_version: 1, new_version: 2 }));
    // Exactly one recomputation for the three edits.
    let (publish, rearm) = e.on_recompute_done(true);
    assert!(publish);
    assert_eq!(rearm, None);
    assert_eq!(e.state, EngineState::Idle);
    assert_eq!(e.published, SnapshotPair { old_version: 1, new_version: 2 });
}

#[test]
fn stale_timer_expiry_never_uses_an_old_snapshot() {
    let mut e = DiffEngine::new();
    assert_eq!(e.on_document_event(DocRole::New, DocumentEvent::Edited), Some(1));
    // An edit arrives while the first timer is expiring: the expiry loses
    // the race and the debounce restarts instead of recomputing.
    assert_eq!(e.on_document_event(DocRole::New, DocumentEvent::Edited), Some(2));
    assert!(!e.on_timer_elapsed(1));
    assert_eq!(e.state, EngineState::Debouncing);
    assert_eq!(e.in_flight, None);
    // The restarted timer closes the window with both edits in view.
    assert!(e.on_timer_elapsed(2));
    assert_eq!(e.in_flight, Some(SnapshotPair { old_version: 0, new_version: 2 }));
}

#[test]
fn edit_during_recomputation_is_not_lost() {
    let mut e = DiffEngine::new();
    assert_eq!(e.on_document_event(DocRole::New, DocumentEvent::Edited), Some(1));
    assert!(e.on_timer_elapsed(1));
    // A signal arriving while the computation runs stays pending...
    assert_eq!(e.on_document_event(DocRole::Old, DocumentEvent::Edited), None);
    assert!(e.signal.pending);
    // ...and on completion the loop publishes and re-enters debouncing at
    // once, so the late edit gets its own recomputation.
    let (publish, rearm) = e.on_recompute_done(true);
    assert!(publish);
    assert_eq!(rearm, Some(2));
    assert_eq!(e.state, EngineState::Debouncing);
    assert_eq!(e.published, SnapshotPair { old_version: 0, new_version: 1 });
    assert!(e.on_timer_elapsed(2));
    assert_eq!(e.in_flight, Some(SnapshotPair { old_version: 1, new_version: 1 }));
}

#[test]
fn failed_recomputation_keeps_published_diff_and_recovers() {
    let mut e = DiffEngine::new();
    assert_eq!(e.on_document_event(DocRole::New, DocumentEvent::Edited), Some(1));
    assert!(e.on_timer_elapsed(1));
    let (publish, rearm) = e.on_recompute_done(false);
    assert!(!publish);
    assert_eq!(rearm, None);
    // The stale-but-valid diff stays visible.
    assert_eq!(e.published, SnapshotPair { old_version: 0, new_version: 0 });
    assert_eq!(e.state, EngineState::Idle);
    // The loop accepts subsequent signals normally.
    assert_eq!(e.on_document_event(DocRole::New, DocumentEvent::LanguageChanged), Some(2));
    assert!(e.on_timer_elapsed(2));
    let (publish, _) = e.on_recompute_done(true);
    assert!(publish);
    assert_eq!(e.published, SnapshotPair { old_version: 0, new_version: 2 });
}

#[test]
fn destroy_mid_flight_discards_the_computation_unpublished() {
    let mut e = DiffEngine::new();
    assert_eq!(e.on_document_event(DocRole::New, DocumentEvent::Edited), Some(1));
    assert!(e.on_timer_elapsed(1));
    assert_eq!(e.state, EngineState::Recomputing);
    e.destroy();
    assert_eq!(e.state, EngineState::Destroyed);
    assert_eq!(e.in_flight, None);
    // The computation completes after teardown: it must not publish.
    let (publish, rearm) = e.on_recompute_done(true);
    assert!(!publish);
    assert_eq!(rearm, None);
    assert_eq!(e.published, SnapshotPair { old_version: 0, new_version: 0 });
    // Nothing moves ever again.
    assert_eq!(e.on_document_event(DocRole::New, DocumentEvent::Edited), None);
    assert!(!e.on_timer_elapsed(1));
    assert_eq!(e.state, EngineState::Destroyed);
}
