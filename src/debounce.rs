//! Debouncing of editor events: per event family, a slot holds at most one
//! pending timer; a new event cancels it and installs a fresh one.
use vstd::prelude::*;

verus! {

/// Delay of every debounced event family, in milliseconds.
pub const DEBOUNCE_MS: u64 = 10;

/// Name of the editor autocommand group that holds the hooks.
pub const AUGROUP_NAME: &'static str = "AmpExtrasNotifications";

/// What the host does when an event arrives: stop the timer `cancel` (if
/// any) and start a one-shot timer `start` of `delay_ms`.
#[derive(Debug, Clone, Copy, PartialEq, Eq)]
pub struct Restart {
    pub cancel: Option<u64>,
    pub start: u64,
    pub delay_ms: u64,
}

/// A debounce slot: the token of the pending timer, if any, and the token
/// the next timer gets.
#[derive(Debug, Clone, Copy, PartialEq, Eq)]
pub struct DebounceSlot {
    pub pending: Option<u64>,
    pub next_token: u64,
}

/// The slot after an event, and the timer to cancel.
pub open spec fn trigger_spec(s: DebounceSlot) -> (DebounceSlot, Option<u64>) {
    (DebounceSlot { pending: Some(s.next_token), next_token: (s.next_token + 1) as u64 }, s.pending)
}

/// Whether a firing timer runs the handler, and the slot afterwards: only
/// the pending timer runs it, once.
pub open spec fn fire_spec(s: DebounceSlot, token: u64) -> (bool, DebounceSlot) {
    if s.pending == Some(token) {
        (true, DebounceSlot { pending: None, next_token: s.next_token })
    } else {
        (false, s)
    }
}

/// The slot after `n` events in a row.
pub open spec fn triggers(s: DebounceSlot, n: nat) -> DebounceSlot
    decreases n,
{
    if n == 0 {
        s
    } else {
        trigger_spec(triggers(s, (n - 1) as nat)).0
    }
}

impl DebounceSlot {
    /// The slot's invariant: a pending token was handed out already.
    pub open spec fn wf(&self) -> bool {
        self.pending matches Some(t) ==> t < self.next_token
    }

    /// An idle slot.
    pub fn new() -> (r: DebounceSlot)
        ensures
            r.wf(),
            r.pending is None,
    {
        DebounceSlot { pending: None, next_token: 0 }
    }

    /// An event arrived: cancel the pending timer and start a new one.
    pub fn trigger(&mut self) -> (r: Restart)
        requires
            old(self).wf(),
            old(self).next_token < u64::MAX,
        ensures
            final(self).wf(),
            (*final(self), r.cancel) == trigger_spec(*old(self)),
            r.start == old(self).next_token,
            r.delay_ms == DEBOUNCE_MS,
    {
        let cancel = self.pending;
        let start = self.next_token;
        self.pending = Some(start);
        self.next_token = start + 1;
        Restart { cancel, start, delay_ms: DEBOUNCE_MS }
    }

    /// The timer `token` fired: true when the handler runs.
    pub fn fire(&mut self, token: u64) -> (run: bool)
        requires
            old(self).wf(),
        ensures
            final(self).wf(),
            (run, *final(self)) == fire_spec(*old(self), token),
    {
        if self.pending == Some(token) {
            self.pending = None;
            true
        } else {
            false
        }
    }
}

/// After `n` events within the window, only the timer of the last one is
/// pending: it runs the handler once, and every earlier timer does nothing.
pub proof fn law_burst_runs_once(s: DebounceSlot, n: nat)
    requires
        n >= 1,
        s.next_token + n <= u64::MAX,
    ensures
        triggers(s, n).pending == Some((s.next_token + n - 1) as u64),
        triggers(s, n).next_token == s.next_token + n,
        fire_spec(triggers(s, n), (s.next_token + n - 1) as u64).0,
        !fire_spec(fire_spec(triggers(s, n), (s.next_token + n - 1) as u64).1, (s.next_token + n - 1) as u64).0,
        forall|t: u64| s.next_token <= t < s.next_token + n - 1 ==> !#[trigger] fire_spec(triggers(s, n), t).0,
    decreases n,
{
    let prev = triggers(s, (n - 1) as nat);
    assert(triggers(s, n) == trigger_spec(prev).0);
    if n > 1 {
        law_burst_runs_once(s, (n - 1) as nat);
    } else {
        assert(prev == s);
    }
}

} // verus!
