//! The asynchronous event bridge: race-free event capture between an
//! interrupt-style callback and a cooperatively scheduled waiter.
//!
//! A callback records the latest event payload in an [`EventRecord`] and, with
//! every record, toggles a two-valued sequence marker.  A waiter captures the
//! marker when it begins waiting and then polls "has the marker changed from
//! my captured value?" — never caching the answer, since a callback may run
//! between any two polls.  The marker changes at least once per event, so an
//! event that arrives and is overwritten before the waiter polls still wakes
//! it (with the newer payload: accepted best-effort semantics); and because
//! the marker strictly alternates, a stale event is never re-observed as new.

use vstd::prelude::*;

verus! {

/// The two values the sequence marker alternates between.
#[derive(Copy, Clone, Debug, PartialEq, Eq, Structural)]
pub enum RecordId {
    A,
    B,
}

impl RecordId {
    /// The other marker value.
    pub open spec fn spec_next(self) -> RecordId {
        match self {
            RecordId::A => RecordId::B,
            RecordId::B => RecordId::A,
        }
    }

    /// The other marker value.
    #[verifier::when_used_as_spec(spec_next)]
    pub fn next(self) -> (next: Self)
        ensures
            next == self.spec_next(),
    {
        match self {
            RecordId::A => RecordId::B,
            RecordId::B => RecordId::A,
        }
    }
}

/// The most recently observed event payload, plus the alternating marker that
/// distinguishes "a new event happened" from "nothing since you last looked".
/// Written only by callbacks; read only by waiters.
pub struct EventRecord<T> {
    pub payload: T,
    pub record_id: RecordId,
}

impl<T> EventRecord<T> {
    /// A record holding `initial` that no event has been recorded into yet.
    pub fn new(initial: T) -> (record: Self)
        ensures
            record.payload == initial,
            record.record_id == RecordId::A,
    {
        EventRecord { payload: initial, record_id: RecordId::A }
    }

    /// Records one event: the payload is replaced and the marker toggles, so
    /// every waiter that captured the old marker value will wake.
    pub fn record(&mut self, payload: T)
        ensures
            final(self).payload == payload,
            final(self).record_id == old(self).record_id.spec_next(),
    {
        self.payload = payload;
        self.record_id = self.record_id.next();
    }

    /// Begins one wait on this record by capturing the current marker.
    pub fn listen(&self) -> (listener: EventListener)
        ensures
            listener.last_seen() == self.record_id,
    {
        EventListener { last_seen_record_id: self.record_id }
    }
}

/// What one poll of a waiter that captured `last_seen` returns against the
/// record state `record`: the fresh payload exactly when the marker moved.
pub open spec fn poll_outcome<T>(last_seen: RecordId, record: EventRecord<T>) -> Option<T> {
    if record.record_id == last_seen {
        None
    } else {
        Some(record.payload)
    }
}

/// Law: a waiter that captured marker value `v` never wakes while the marker
/// still equals `v` — waking always means a callback has recorded at least
/// one event since the capture.
pub proof fn lemma_no_wakeup_without_new_event<T>(v: RecordId, record: EventRecord<T>)
    ensures
        poll_outcome(v, record) is Some ==> record.record_id != v,
        poll_outcome(v, record) is None ==> record.record_id == v,
{
}

/// One waiter's pending suspension: the marker value it captured when it
/// began waiting. It exists only for the duration of one wait; abandoning it
/// leaves the record and its subscription untouched.
pub struct EventListener {
    last_seen_record_id: RecordId,
}

impl EventListener {
    /// The marker value this waiter captured last.
    pub closed spec fn last_seen(self) -> RecordId {
        self.last_seen_record_id
    }

    /// One scheduler wake-up: evaluates the marker freshly against `record`.
    /// Returns the recorded payload exactly when the marker has changed from
    /// the captured value, re-capturing the new marker value so the same
    /// event is never observed as new twice.
    pub fn poll<T: Copy>(&mut self, record: &EventRecord<T>) -> (woke: Option<T>)
        ensures
            woke == poll_outcome(old(self).last_seen(), *record),
            woke is Some ==> final(self).last_seen() == record.record_id
                && record.record_id != old(self).last_seen(),
            woke is None ==> *final(self) == *old(self),
    {
        if record.record_id == self.last_seen_record_id {
            None
        } else {
            self.last_seen_record_id = record.record_id;
            Some(record.payload)
        }
    }
}

} // verus!
