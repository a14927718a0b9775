//! The change notifier: document events, the classification that decides
//! which of them demand a diff recomputation, and the single-slot
//! most-recent-wins signal that carries them to the recompute engine.

use vstd::prelude::*;

verus! {

/// Which of the two compared documents an event came from.
#[derive(Clone, Copy, PartialEq, Eq, Structural, Debug)]
pub enum DocRole {
    /// The read-only baseline document.
    Old,
    /// The editable document whose surface owns saving and navigation.
    New,
}

/// A tagged change event emitted by a document.
///
/// Only the first three kinds can alter what a diff of the document's text
/// should show; everything else a document may report is `Other`.
#[derive(Clone, Copy, PartialEq, Eq, Structural, Debug)]
pub enum DocumentEvent {
    /// The text content was edited.
    Edited,
    /// The language/grammar classification of the document changed.
    LanguageChanged,
    /// A re-parse of the document completed.
    Reparsed,
    /// Any other event kind; never triggers a recomputation.
    Other,
}

/// True exactly for the event kinds that must trigger a change signal:
/// content edits, language changes and completed re-parses.
pub open spec fn triggers_recompute(event: DocumentEvent) -> bool {
    match event {
        DocumentEvent::Edited => true,
        DocumentEvent::LanguageChanged => true,
        DocumentEvent::Reparsed => true,
        DocumentEvent::Other => false,
    }
}

/// Decides whether `event` is one of the recognized kinds that demand a
/// diff recomputation.
pub fn event_triggers_recompute(event: DocumentEvent) -> (r: bool)
    ensures
        r == triggers_recompute(event),
{
    match event {
        DocumentEvent::Edited => true,
        DocumentEvent::LanguageChanged => true,
        DocumentEvent::Reparsed => true,
        DocumentEvent::Other => false,
    }
}

/// A single-slot, most-recent-wins notification channel.
///
/// Any number of sends before a receive collapse into one pending
/// notification: the slot is a bounded queue of capacity one with
/// overwrite-on-full semantics, which is what bounds the backlog and
/// gives debouncing its coalescing property.
#[derive(Clone, Copy, PartialEq, Eq, Structural, Debug)]
pub struct ChangeSlot {
    /// Whether a notification has been sent and not yet consumed.
    pub pending: bool,
}

impl ChangeSlot {
    /// A fresh slot with no pending notification.
    pub fn new() -> (r: ChangeSlot)
        ensures
            !r.pending,
    {
        ChangeSlot { pending: false }
    }

    /// Sends a notification. Idempotent: if one is already pending the
    /// send collapses into it and the slot is unchanged.
    pub fn send(&mut self)
        ensures
            final(self).pending,
            old(self).pending ==> *final(self) == *old(self),
    {
        self.pending = true;
    }

    /// Consumes the pending notification, if any, and reports whether one
    /// was pending.
    pub fn take(&mut self) -> (was_pending: bool)
        ensures
            !final(self).pending,
            was_pending == old(self).pending,
    {
        let was_pending = self.pending;
        self.pending = false;
        was_pending
    }
}

} // verus!
