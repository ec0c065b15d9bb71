//! Spacing of Dexscreener requests: each request goes at a slot at least
//! the minimum interval after the slot given to the one before.
use vstd::prelude::*;

verus! {

/// The least time between two requests, in nanoseconds (300 ms).
pub const MIN_INTERVAL_NANOS: u64 = 300_000_000;

/// The rate gate: the time slot given to the latest request, in
/// nanoseconds on a monotonic clock, if any request went through yet.
#[derive(Debug, Clone, Copy)]
pub struct RateGate {
    pub last: Option<u64>,
}

/// The slot a request arriving at `now` goes at: at once when no request
/// went through yet, otherwise the later of `now` and the minimum interval
/// after the last slot.
pub open spec fn gate_slot(last: Option<u64>, now: u64) -> int {
    match last {
        Some(l) => if now >= l + MIN_INTERVAL_NANOS { now as int } else { l + MIN_INTERVAL_NANOS },
        None => now as int,
    }
}

/// How long a request arriving at `now` waits: until its slot.
pub open spec fn gate_delay(last: Option<u64>, now: u64) -> int {
    gate_slot(last, now) - now
}

/// The latest slot, if any, leaves room on the clock for one more interval.
pub open spec fn slot_fits(last: Option<u64>) -> bool {
    match last {
        Some(l) => l <= u64::MAX - MIN_INTERVAL_NANOS,
        None => true,
    }
}

impl RateGate {
    /// A gate that no request has gone through.
    pub fn new() -> (g: RateGate)
        ensures
            g.last is None,
    {
        RateGate { last: None }
    }

    /// Whether a request arriving at `now` can be booked on this gate's clock.
    pub fn can_book(&self, now: u64) -> (b: bool)
        ensures
            b == (now <= u64::MAX - MIN_INTERVAL_NANOS && slot_fits(self.last)),
    {
        now <= u64::MAX - MIN_INTERVAL_NANOS && match self.last {
            Some(l) => l <= u64::MAX - MIN_INTERVAL_NANOS,
            None => true,
        }
    }

    /// Lets a request arriving at `now` through: returns how long it must
    /// wait, and books the slot it goes at (`now` plus the wait).
    pub fn pass(&mut self, now: u64) -> (wait: u64)
        requires
            now <= u64::MAX - MIN_INTERVAL_NANOS,
            slot_fits(old(self).last),
        ensures
            wait as int == gate_delay(old(self).last, now),
            final(self).last == Some(gate_slot(old(self).last, now) as u64),
    {
        let slot: u64 = match self.last {
            Some(l) => {
                let earliest = l + MIN_INTERVAL_NANOS;
                if now >= earliest { now } else { earliest }
            },
            None => now,
        };
        self.last = Some(slot);
        slot - now
    }
}

/// Every request's slot lies at least the minimum interval after the slot
/// before it, whenever it arrives, and never before it arrives.
pub proof fn lemma_gate_spaces_requests(last: u64, now: u64)
    ensures
        gate_slot(Some(last), now) >= last + MIN_INTERVAL_NANOS,
        gate_slot(Some(last), now) >= now,
{
}

/// A request that arrives after the last slot never waits longer than the
/// minimum interval, and the first one does not wait.
pub proof fn lemma_gate_wait_bounded(last: Option<u64>, now: u64)
    ensures
        0 <= gate_delay(last, now),
        (last matches Some(l) && now >= l) ==> gate_delay(last, now) <= MIN_INTERVAL_NANOS,
        last is None ==> gate_delay(last, now) == 0,
{
}

/// The slot is the earliest one allowed: the arrival time itself when the
/// interval since the last slot has passed (or for the first request),
/// otherwise exactly one interval after the last slot.
pub proof fn lemma_gate_slot_earliest(last: Option<u64>, now: u64)
    ensures
        last is None ==> gate_slot(last, now) == now,
        forall|l: u64| #![auto] last == Some(l) && now >= l + 300_000_000 ==> gate_slot(last, now) == now,
        forall|l: u64| #![auto] last == Some(l) && now < l + 300_000_000 ==> gate_slot(last, now) == l + 300_000_000,
{
}

/// The minimum interval is 300 milliseconds.
pub proof fn lemma_interval_is_300ms()
    ensures
        MIN_INTERVAL_NANOS == 300_000_000,
{
}

} // verus!
