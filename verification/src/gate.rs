use vstd::prelude::*;

verus! {

/// Least time between two accepted button presses, in milliseconds.
pub const DEBOUNCE_MS: u64 = 50;

/// Debounce for the interface buttons: a press is accepted only when at least
/// 50 ms have passed since the last accepted press (or since start-up).
#[derive(Debug)]
pub struct ClickGate {
    last_ms: u64,
}

impl ClickGate {
    /// The time of the last accepted press.
    pub closed spec fn last(&self) -> u64 {
        self.last_ms
    }

    /// Whether a press at `now_ms` is accepted.
    pub open spec fn accepts(&self, now_ms: u64) -> bool {
        now_ms >= self.last() && now_ms - self.last() >= DEBOUNCE_MS
    }

    /// State of the debounce once a press at `now_ms` is decided.
    pub closed spec fn after(self, now_ms: u64) -> ClickGate {
        if self.accepts(now_ms) { ClickGate { last_ms: now_ms } } else { self }
    }

    /// A gate whose clock starts at `now_ms`.
    pub fn new(now_ms: u64) -> (r: ClickGate)
        ensures
            r.last() == now_ms,
    {
        ClickGate { last_ms: now_ms }
    }

    /// Decides on a press at `now_ms`.
    pub fn can_click(&mut self, now_ms: u64) -> (accepted: bool)
        ensures
            accepted == old(self).accepts(now_ms),
            *final(self) == old(self).after(now_ms),
            accepted <==> (now_ms >= old(self).last() && now_ms - old(self).last() >= DEBOUNCE_MS),
            final(self).last() == if accepted { now_ms } else { old(self).last() },
    {
        let elapsed = now_ms.saturating_sub(self.last_ms);
        if elapsed >= DEBOUNCE_MS {
            self.last_ms = now_ms;
            true
        } else {
            false
        }
    }

    /// A press at least 50 ms after the last accepted press is always
    /// accepted, however long after; a press sooner than that (or before
    /// it) is always refused.
    pub proof fn law_press_liveness(self, now_ms: u64)
        ensures
            now_ms as int >= self.last() + DEBOUNCE_MS ==> self.accepts(now_ms),
            now_ms as int >= self.last() + DEBOUNCE_MS ==> self.after(now_ms).last() == now_ms,
            now_ms < self.last() + DEBOUNCE_MS ==> !self.accepts(now_ms),
    {
    }

    /// Two accepted presses are at least 50 ms apart, and a refused press
    /// changes nothing.
    pub proof fn law_presses_apart(self, t: u64, u: u64)
        ensures
            self.accepts(t) ==> self.after(t).last() == t,
            self.accepts(t) && self.after(t).accepts(u) ==> u >= t + DEBOUNCE_MS,
            !self.accepts(t) ==> self.after(t) == self,
    {
    }
}

} // verus!
