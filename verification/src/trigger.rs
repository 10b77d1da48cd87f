use vstd::prelude::*;

verus! {

/// Where the current gain reduction lies relative to the two thresholds of
/// the quack trigger.
#[derive(Clone, Copy, Debug, PartialEq, Eq, Structural)]
pub enum GrZone {
    /// Deeper than -1.5 dB: ducking hard enough to fire.
    Deep,
    /// Between -1.5 dB and -0.2 dB (both included).
    Hold,
    /// Shallower than -0.2 dB: ducking has let go.
    Released,
}

/// One step of the trigger: fires (and disarms) on a deep reduction while
/// armed; re-arms once the reduction is released; otherwise nothing changes.
/// The result is the new armed flag and whether the quack fires.
pub open spec fn trigger_step(armed: bool, zone: GrZone) -> (bool, bool) {
    if armed && zone == GrZone::Deep {
        (false, true)
    } else if zone == GrZone::Released {
        (true, false)
    } else {
        (armed, false)
    }
}

/// The armed flag after the first `n` zones of a run.
pub open spec fn armed_after(start: bool, zones: Seq<GrZone>, n: nat) -> bool
    decreases n,
{
    if n == 0 {
        start
    } else {
        trigger_step(armed_after(start, zones, (n - 1) as nat), zones[n - 1]).0
    }
}

/// Whether the quack fires on zone `i` of a run.
pub open spec fn fires_at(start: bool, zones: Seq<GrZone>, i: nat) -> bool {
    trigger_step(armed_after(start, zones, i), zones[i as int]).1
}

/// Hysteresis that keeps the quack from retriggering like a burst: after it
/// fires, it fires again only once the gain reduction has been released.
#[derive(Debug)]
pub struct QuackTrigger {
    armed: bool,
}

impl QuackTrigger {
    /// Whether the next deep reduction fires.
    pub closed spec fn is_armed(&self) -> bool {
        self.armed
    }

    /// A trigger that fires on the first deep reduction.
    pub fn new() -> (r: QuackTrigger)
        ensures
            r.is_armed(),
    {
        QuackTrigger { armed: true }
    }

    /// Feeds the zone of the current sample; returns whether the quack fires.
    pub fn update(&mut self, zone: GrZone) -> (fire: bool)
        ensures
            (final(self).is_armed(), fire) == trigger_step(old(self).is_armed(), zone),
            fire <==> (old(self).is_armed() && zone == GrZone::Deep),
            final(self).is_armed() == (zone == GrZone::Released || (old(self).is_armed() && zone
                == GrZone::Hold)),
    {
        if self.armed && zone == GrZone::Deep {
            self.armed = false;
            true
        } else {
            if zone == GrZone::Released {
                self.armed = true;
            }
            false
        }
    }
}

proof fn lemma_stays_disarmed(start: bool, zones: Seq<GrZone>, i: nat, j: nat)
    requires
        i < j <= zones.len(),
        fires_at(start, zones, i),
        forall|k: int| i < k < j ==> zones[k] != GrZone::Released,
    ensures
        !armed_after(start, zones, j),
    decreases j - i,
{
    if j > i + 1 {
        lemma_stays_disarmed(start, zones, i, (j - 1) as nat);
    }
}

/// Between two quacks of a run there is always a released reduction.
pub proof fn law_no_retrigger_without_release(start: bool, zones: Seq<GrZone>, i: nat, j: nat)
    requires
        i < j < zones.len(),
        fires_at(start, zones, i),
        fires_at(start, zones, j),
    ensures
        exists|k: int| i < k < j && zones[k] == GrZone::Released,
{
    if forall|k: int| i < k < j ==> zones[k] != GrZone::Released {
        lemma_stays_disarmed(start, zones, i, j);
    }
}

/// An armed trigger fires on the first deep reduction; a released reduction
/// always re-arms it.
pub proof fn law_arming(armed: bool, zone: GrZone)
    ensures
        armed && zone == GrZone::Deep ==> trigger_step(armed, zone) == (false, true),
        zone == GrZone::Released ==> trigger_step(armed, zone) == (true, false),
        !trigger_step(armed, zone).1 || zone == GrZone::Deep,
        !armed ==> !trigger_step(armed, zone).1,
        zone == GrZone::Hold ==> trigger_step(armed, zone) == (armed, false),
        !armed && zone == GrZone::Deep ==> trigger_step(armed, zone) == (false, false),
{
}

} // verus!
