use vstd::prelude::*;
use crate::duty::DutyCycle;
use crate::store::DutyStore;
use crate::timing::IterationPlan;
use crate::timing::correction_ns;
use crate::timing::correction_ns_spec;
use crate::timing::high_ns_spec;
use crate::timing::low_ns_spec;
use crate::timing::period_ns_of;
use crate::timing::period_ns_spec;
use crate::timing::plan_iteration;
use crate::timing::NANOS_PER_SEC;

verus! {

/// One software-PWM output channel: a fixed positive frequency and a shared
/// store holding its mutable duty cycle.
///
/// The channel owns the timing decisions only. The caller that runs the
/// channel's loop owns the digital output line and the clock: each iteration
/// it asks [`Channel::plan_next`] what to hold and for how long, drives the
/// line, and hands the measured elapsed time to [`Channel::correction`] for
/// the re-anchoring suspension. The duty cycle is read once per iteration,
/// so a concurrent write takes effect at the next iteration boundary.
pub struct Channel {
    frequency_hz: u64,
    period_ns: u64,
    store: DutyStore,
}

impl Channel {
    /// The channel's frequency in whole hertz.
    pub closed spec fn frequency_spec(&self) -> u64 {
        self.frequency_hz
    }

    /// The channel's period in nanoseconds.
    pub closed spec fn period_spec(&self) -> u64 {
        self.period_ns
    }

    #[verifier::type_invariant]
    spec fn wf(&self) -> bool {
        &&& self.frequency_hz > 0
        &&& self.period_ns == period_ns_spec(self.frequency_hz)
    }

    /// Build a channel with a fixed frequency and an initial duty cycle.
    /// The frequency stays positive for the channel's whole lifetime.
    pub fn new(frequency_hz: u64, initial: DutyCycle) -> (c: Self)
        requires
            frequency_hz > 0,
        ensures
            c.frequency_spec() == frequency_hz,
            c.period_spec() == period_ns_spec(frequency_hz),
    {
        let period_ns = period_ns_of(frequency_hz);
        Channel { frequency_hz, period_ns, store: DutyStore::new(initial) }
    }

    pub fn frequency_hz(&self) -> (f: u64)
        ensures
            f == self.frequency_spec(),
    {
        self.frequency_hz
    }

    /// The period in nanoseconds: the reciprocal of the frequency.
    pub fn period_ns(&self) -> (p: u64)
        ensures
            p == self.period_spec(),
            p == period_ns_spec(self.frequency_spec()),
            p <= NANOS_PER_SEC,
    {
        proof {
            use_type_invariant(self);
        }
        self.period_ns
    }

    /// A handle on this channel's duty-cycle store for an external writer:
    /// whatever it writes, whenever, is picked up by a later iteration.
    pub fn control_handle(&self) -> (s: DutyStore)
        ensures
            self.store_shares_cell_with(&s),
    {
        self.store.control_handle()
    }

    /// True when `s` refers to this channel's own duty-cycle store.
    pub closed spec fn store_shares_cell_with(&self, s: &DutyStore) -> bool {
        s.shares_cell_with(&self.store)
    }

    /// Decide one iteration: read the duty cycle once from the store, and
    /// compute from it and the period the two hold times. Returns the duty
    /// cycle that was read beside the plan it fully determines.
    pub fn plan_next(&self) -> (r: (DutyCycle, IterationPlan))
        ensures
            r.1.high_ns == high_ns_spec(self.period_spec(), r.0.parts),
            r.1.low_ns == low_ns_spec(self.period_spec(), r.0.parts),
    {
        let duty = self.store.read();
        (duty, plan_iteration(self.period_ns, duty))
    }

    /// The drift-correction suspension for an iteration of this channel that
    /// took `elapsed_ns`: the rest of the period, or zero after an overrun.
    pub fn correction(&self, elapsed_ns: u64) -> (c: u64)
        ensures
            c == correction_ns_spec(self.period_spec(), elapsed_ns),
    {
        correction_ns(self.period_ns, elapsed_ns)
    }
}

} // verus!
