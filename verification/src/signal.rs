//! The button signal: a single-slot, overwrite-on-write, take-once
//! notification, and the debouncer that feeds it.
//!
//! The signal is a binary flag, not a counter or queue: any number of
//! posts before the consumer looks collapse into one pending switch.
//! The producer task in the board layer waits for a button edge, calls
//! [`ButtonDebouncer::on_press_edge`], and thereby posts at most once per
//! refractory interval, suppressing mechanical bounce.

use vstd::prelude::*;

verus! {

/// Single-slot overwrite notification used to request a mode switch.
pub struct ButtonSignal {
    pending: bool,
}

/// The pending state of a signal after `n` further posts.
pub open spec fn pending_after_posts(pending: bool, n: nat) -> bool {
    if n == 0 {
        pending
    } else {
        true
    }
}

impl ButtonSignal {
    /// Whether a switch request is pending.
    pub closed spec fn pending_spec(&self) -> bool {
        self.pending
    }

    pub fn new() -> (s: ButtonSignal)
        ensures
            !s.pending_spec(),
    {
        ButtonSignal { pending: false }
    }

    /// Posts a switch request, overwriting any pending one.
    pub fn post(&mut self)
        ensures
            final(self).pending_spec(),
            final(self).pending_spec() == pending_after_posts(old(self).pending_spec(), 1),
    {
        self.pending = true;
    }

    /// Takes the pending request, if any: returns whether one was
    /// pending and leaves none behind.
    pub fn take(&mut self) -> (was: bool)
        ensures
            was == old(self).pending_spec(),
            !final(self).pending_spec(),
    {
        let was = self.pending;
        self.pending = false;
        was
    }
}

/// Law: the signal collapses bursts. Any burst of `n >= 1` posts leaves
/// the same single pending notification as one post does, so the
/// consumer sees exactly one switch request, not `n`.
pub proof fn lemma_burst_collapses(pending: bool, n: nat)
    requires
        n >= 1,
    ensures
        pending_after_posts(pending, n),
        pending_after_posts(pending, n) == pending_after_posts(pending, 1),
{
}

/// The debouncing state of the button task: after each accepted press it
/// ignores further edges until a refractory interval has passed.
pub struct ButtonDebouncer {
    /// Length of the refractory interval, in milliseconds.
    pub refractory_ms: u64,
    /// Earliest time at which the next edge is accepted.
    pub ready_at_ms: u64,
}

impl ButtonDebouncer {
    pub fn new(refractory_ms: u64) -> (d: ButtonDebouncer)
        ensures
            d.refractory_ms == refractory_ms,
            d.ready_at_ms == 0,
    {
        ButtonDebouncer { refractory_ms, ready_at_ms: 0 }
    }

    /// Handles a rising edge of the button line seen at `now_ms`: posts a
    /// switch request if and only if the refractory interval since the
    /// last accepted press has elapsed.
    pub fn on_press_edge(&mut self, now_ms: u64, signal: &mut ButtonSignal) -> (posted: bool)
        ensures
            posted == (now_ms >= old(self).ready_at_ms),
            final(self).refractory_ms == old(self).refractory_ms,
            posted ==> final(signal).pending_spec() && final(self).ready_at_ms == (
            if now_ms + old(self).refractory_ms <= u64::MAX {
                now_ms + old(self).refractory_ms
            } else {
                u64::MAX as int
            }),
            !posted ==> *final(signal) == *old(signal) && *final(self) == *old(self),
    {
        if now_ms >= self.ready_at_ms {
            self.ready_at_ms = if now_ms <= u64::MAX - self.refractory_ms {
                now_ms + self.refractory_ms
            } else {
                u64::MAX
            };
            signal.post();
            true
        } else {
            false
        }
    }
}

} // verus!
