//! Failure detector with local-health-aware probing.
//!
//! This is modeled after Lifeguard paper sec. 4.A: the local health
//! multiplier grows on every failed, missed or refuted probe, up to the
//! maximum multiplier, and shrinks on every successful one, down to 0; probe
//! intervals and timeouts scale with it.
use vstd::prelude::*;

use crate::reactor;

verus! {

/// Base seconds between liveness probes.
pub const PROBE_BASE_INTERVAL_SECS: u64 = 1;

/// Base milliseconds for `ack` timeout on each probe.
pub const PROBE_BASE_TIMEOUT_MILLIS: u64 = 500;

/// Maximum local-health multiplier.
pub const PROBE_MAX_HEALTH: u64 = 8;

/// Initial local health.
pub const PROBE_INITIAL_HEALTH: u64 = 0;

/// `u64::saturating_mul`: the product, or `u64::MAX` where it overflows.
pub assume_specification[ u64::saturating_mul ](x: u64, rhs: u64) -> (r: u64)
    ensures
        r == (if x * rhs > u64::MAX {
            u64::MAX
        } else {
            (x * rhs) as u64
        }),
;

/// Internal detector event.
#[derive(Debug)]
pub enum Event {
    /// Notification, probing period tick.
    Tick,
    /// Notification, successful probe.
    ProbeOk,
    /// Notification, failed probe.
    ProbeFailed,
    /// Notification, missed probe.
    ProbeMissed,
    /// Notification, refuting a suspect.
    SuspectSelf,
}

/// `a + b`, saturating at `u64::MAX`.
pub open spec fn sat_add(a: u64, b: u64) -> u64 {
    if a + b > u64::MAX {
        u64::MAX
    } else {
        (a + b) as u64
    }
}

/// `a * b`, saturating at `u64::MAX`.
pub open spec fn sat_mul(a: u64, b: u64) -> u64 {
    if a * b > u64::MAX {
        u64::MAX
    } else {
        (a * b) as u64
    }
}

/// `a - b`, saturating at 0.
pub open spec fn sat_sub(a: u64, b: u64) -> u64 {
    if a < b {
        0
    } else {
        (a - b) as u64
    }
}

/// Local health after a probe result: one more when `increase`, but not
/// above the highest health (`PROBE_MAX_HEALTH - 1`), else one less, but
/// not below 0.
pub open spec fn health_after(h: u64, increase: bool) -> u64 {
    if increase {
        if sat_add(h, 1) < PROBE_MAX_HEALTH {
            sat_add(h, 1)
        } else {
            (PROBE_MAX_HEALTH - 1) as u64
        }
    } else {
        sat_sub(h, 1)
    }
}

/// Milliseconds to wait for the answer to a probe, at local health `h`.
pub open spec fn spec_probe_timeout_millis(h: u64) -> u64 {
    sat_mul(sat_add(h, 1), PROBE_BASE_TIMEOUT_MILLIS)
}

/// Seconds between probes, at local health `h`.
pub open spec fn spec_probe_interval_secs(h: u64) -> u64 {
    sat_mul(sat_add(h, 1), PROBE_BASE_INTERVAL_SECS)
}

/// Update health after probe result.
pub fn update_health(local_health: &mut u64, increase: bool)
    ensures
        *final(local_health) == health_after(*old(local_health), increase),
{
    if increase {
        let next = local_health.saturating_add(1);
        *local_health = if next < PROBE_MAX_HEALTH {
            next
        } else {
            PROBE_MAX_HEALTH - 1
        };
    } else {
        *local_health = local_health.saturating_sub(1);
    }
}

/// Milliseconds to wait for the answer to a probe, at the given local health.
pub fn probe_timeout_millis(local_health: u64) -> (r: u64)
    ensures
        r == spec_probe_timeout_millis(local_health),
{
    local_health.saturating_add(1).saturating_mul(PROBE_BASE_TIMEOUT_MILLIS)
}

/// Seconds between two probing ticks, at the given local health.
pub fn probe_interval_secs(local_health: u64) -> (r: u64)
    ensures
        r == spec_probe_interval_secs(local_health),
{
    local_health.saturating_add(1).saturating_mul(PROBE_BASE_INTERVAL_SECS)
}

/// Local health after detector event `e`, from health `h`.
pub open spec fn health_after_event(h: u64, e: Event) -> u64 {
    match e {
        Event::Tick => h,
        Event::ProbeOk => health_after(h, false),
        _ => health_after(h, true),
    }
}

/// What the detector asks of the membership reactor on event `e`, at
/// health `h`: a probe with the health-scaled timeout on a tick, else
/// nothing.
pub open spec fn detector_request(h: u64, e: Event) -> Option<reactor::Event> {
    match e {
        Event::Tick => Some(reactor::Event::Probe(spec_probe_timeout_millis(h))),
        _ => None,
    }
}

/// Local health after the events `evs`, in order, from health `h`.
pub open spec fn health_after_events(h: u64, evs: Seq<Event>) -> u64
    decreases evs.len(),
{
    if evs.len() == 0 {
        h
    } else {
        health_after_event(health_after_events(h, evs.drop_last()), evs.last())
    }
}

/// Dispatch a detector tick: the membership event that starts probing a
/// peer, with a timeout scaled by the local health.
pub fn tick(local_health: &u64) -> (r: reactor::Event)
    ensures
        r == reactor::Event::Probe(spec_probe_timeout_millis(*local_health)),
{
    reactor::Event::Probe(probe_timeout_millis(*local_health))
}

/// State of the failure detector: the local health multiplier.
pub struct Detector {
    local_health: u64,
}

impl Detector {
    /// The local health stays below the maximum multiplier.
    #[verifier::type_invariant]
    spec fn inv(self) -> bool {
        self.local_health < PROBE_MAX_HEALTH
    }

    /// The local health multiplier.
    pub closed spec fn health_spec(self) -> u64 {
        self.local_health
    }

    /// A detector at the initial local health.
    pub fn new() -> (r: Detector)
        ensures
            r.health_spec() == PROBE_INITIAL_HEALTH,
    {
        Detector { local_health: PROBE_INITIAL_HEALTH }
    }

    /// The local health multiplier.
    pub fn local_health(&self) -> (r: u64)
        ensures
            r == self.health_spec(),
            r < PROBE_MAX_HEALTH,
    {
        proof {
            use_type_invariant(self);
        }
        self.local_health
    }

    /// Serve one detector event: a tick asks the membership reactor to probe
    /// a peer; a successful probe lowers the local health; a failed or missed
    /// probe, or a suspicion to refute, raises it.
    pub fn step(&mut self, event: Event) -> (r: Option<reactor::Event>)
        ensures
            final(self).health_spec() < PROBE_MAX_HEALTH,
            final(self).health_spec() == health_after_event(old(self).health_spec(), event),
            r == detector_request(old(self).health_spec(), event),
    {
        proof {
            use_type_invariant(&*self);
        }
        match event {
            Event::Tick => Some(tick(&self.local_health)),
            Event::ProbeOk => {
                let mut h = self.local_health;
                update_health(&mut h, false);
                self.local_health = h;
                None
            },
            Event::ProbeFailed | Event::ProbeMissed | Event::SuspectSelf => {
                let mut h = self.local_health;
                update_health(&mut h, true);
                self.local_health = h;
                None
            },
        }
    }
}

/// Law: the local health stays below the maximum multiplier, whatever the
/// probe results.
pub proof fn lemma_health_bounded(h: u64, increase: bool)
    requires
        h < PROBE_MAX_HEALTH,
    ensures
        health_after(h, increase) < PROBE_MAX_HEALTH,
{
}

/// Law: a successful probe undoes a failed one, unless the failure found
/// the health already at its highest.
pub proof fn lemma_health_undo(h: u64)
    requires
        h + 1 < PROBE_MAX_HEALTH,
    ensures
        health_after(health_after(h, true), false) == h,
{
}

/// Law: a failure never lowers the local health, and a success never
/// raises it; at the highest health a failure keeps it there.
pub proof fn lemma_health_monotone(h: u64)
    requires
        h < PROBE_MAX_HEALTH,
    ensures
        health_after(h, true) >= h,
        health_after(h, false) <= h,
        h == PROBE_MAX_HEALTH - 1 ==> health_after(h, true) == h,
{
}

/// Law: below the maximum multiplier, probe timeouts and intervals grow
/// linearly with the local health and never saturate.
pub proof fn lemma_probe_scaling(h: u64)
    requires
        h < PROBE_MAX_HEALTH,
    ensures
        spec_probe_timeout_millis(h) == (h + 1) * PROBE_BASE_TIMEOUT_MILLIS,
        spec_probe_interval_secs(h) == (h + 1) * PROBE_BASE_INTERVAL_SECS,
        spec_probe_timeout_millis(h) <= PROBE_MAX_HEALTH * PROBE_BASE_TIMEOUT_MILLIS,
{
}


/// Law: from the initial health, over any sequence of detector events, the
/// local health stays below the maximum multiplier, and each tick asks for a
/// probe whose timeout is `(h + 1) * PROBE_BASE_TIMEOUT_MILLIS`, `h` being
/// the health left by the events before it.
pub proof fn lemma_detector_run(evs: Seq<Event>)
    ensures
        forall|k: int|
            0 <= k <= evs.len() ==> #[trigger] health_after_events(
                PROBE_INITIAL_HEALTH,
                evs.take(k),
            ) < PROBE_MAX_HEALTH,
        forall|k: int|
            0 <= k < evs.len() && (#[trigger] evs[k]) is Tick ==> detector_request(
                health_after_events(PROBE_INITIAL_HEALTH, evs.take(k)),
                evs[k],
            ) == Some(
                reactor::Event::Probe(
                    ((health_after_events(PROBE_INITIAL_HEALTH, evs.take(k)) + 1)
                        * PROBE_BASE_TIMEOUT_MILLIS) as u64,
                ),
            ),
    decreases evs.len(),
{
    if evs.len() > 0 {
        let prefix = evs.drop_last();
        lemma_detector_run(prefix);
        assert forall|k: int| 0 <= k <= evs.len() implies #[trigger] health_after_events(
            PROBE_INITIAL_HEALTH,
            evs.take(k),
        ) < PROBE_MAX_HEALTH by {
            if k < evs.len() {
                assert(evs.take(k) =~= prefix.take(k));
            } else {
                assert(evs.take(k) =~= evs);
                assert(prefix.take(prefix.len() as int) =~= prefix);
                let h = health_after_events(PROBE_INITIAL_HEALTH, prefix);
                assert(h < PROBE_MAX_HEALTH);
                lemma_health_bounded(h, true);
                lemma_health_bounded(h, false);
            }
        }
        assert forall|k: int| 0 <= k < evs.len() && (#[trigger] evs[k]) is Tick implies detector_request(
            health_after_events(PROBE_INITIAL_HEALTH, evs.take(k)),
            evs[k],
        ) == Some(
            reactor::Event::Probe(
                ((health_after_events(PROBE_INITIAL_HEALTH, evs.take(k)) + 1)
                    * PROBE_BASE_TIMEOUT_MILLIS) as u64,
            ),
        ) by {
            let h = health_after_events(PROBE_INITIAL_HEALTH, evs.take(k));
            assert(h < PROBE_MAX_HEALTH);
            lemma_probe_scaling(h);
        }
    }
}


/// Law: a failed probe raises the local health by exactly one, up to the
/// highest health, where it stays; a successful probe lowers it by exactly
/// one, down to 0, where it stays.
pub proof fn lemma_health_steps(h: u64)
    ensures
        h + 1 < PROBE_MAX_HEALTH ==> health_after(h, true) == h + 1,
        h + 1 >= PROBE_MAX_HEALTH ==> health_after(h, true) == PROBE_MAX_HEALTH - 1,
        h > 0 ==> health_after(h, false) == h - 1,
        h == 0 ==> health_after(h, false) == 0,
{
}

/// Law: the probe timeout is `(h + 1)` times the base timeout, and the
/// probe interval `(h + 1)` times the base interval, saturating at
/// `u64::MAX`.
pub proof fn lemma_probe_formulas(h: u64)
    ensures
        (h as int + 1) * 500 <= u64::MAX ==> spec_probe_timeout_millis(h) == (h as int + 1) * 500,
        (h as int + 1) * 500 > u64::MAX ==> spec_probe_timeout_millis(h) == u64::MAX,
        h < u64::MAX ==> spec_probe_interval_secs(h) == h + 1,
        h == u64::MAX ==> spec_probe_interval_secs(h) == u64::MAX,
{
}


/// Law: a tick leaves the local health as it is and asks for one probe with
/// the timeout of that health; a successful probe lowers the health, a
/// failed or missed probe or a suspicion raises it, and none of these asks
/// for anything.
pub proof fn lemma_detector_events(h: u64)
    ensures
        health_after_event(h, Event::Tick) == h,
        detector_request(h, Event::Tick) == Some(reactor::Event::Probe(spec_probe_timeout_millis(h))),
        health_after_event(h, Event::ProbeOk) == health_after(h, false),
        health_after_event(h, Event::ProbeFailed) == health_after(h, true),
        health_after_event(h, Event::ProbeMissed) == health_after(h, true),
        health_after_event(h, Event::SuspectSelf) == health_after(h, true),
        detector_request(h, Event::ProbeOk) is None,
        detector_request(h, Event::ProbeFailed) is None,
        detector_request(h, Event::ProbeMissed) is None,
        detector_request(h, Event::SuspectSelf) is None,
{
}

} // verus!
