use vstd::prelude::*;

verus! {

/// Number of parts in a full duty cycle: a `DutyCycle` with `parts == DUTY_FULL`
/// holds the output high for the whole period.
pub const DUTY_FULL: u64 = 1_000_000;

/// A duty cycle, the fraction `parts / DUTY_FULL` of one period during which
/// the output is held high.
///
/// Writers are responsible for supplying values intended to lie in
/// `[0, DUTY_FULL]`; nothing here clamps or rejects a larger value. An
/// out-of-range duty cycle passes through to the timing computations, which
/// saturate rather than produce a negative interval.
#[derive(Clone, Copy, PartialEq, Eq, Structural, Debug)]
pub struct DutyCycle {
    pub parts: u64,
}

impl DutyCycle {
    /// True when the value lies in the intended range `[0, DUTY_FULL]`.
    pub open spec fn in_range(self) -> bool {
        self.parts <= DUTY_FULL
    }

    pub fn new(parts: u64) -> (d: Self)
        ensures
            d.parts == parts,
    {
        DutyCycle { parts }
    }

    /// The duty cycle that never holds the output high.
    pub fn zero() -> (d: Self)
        ensures
            d.parts == 0,
            d.in_range(),
    {
        DutyCycle { parts: 0 }
    }

    /// The duty cycle that holds the output high for the whole period.
    pub fn full() -> (d: Self)
        ensures
            d.parts == DUTY_FULL,
            d.in_range(),
    {
        DutyCycle { parts: DUTY_FULL }
    }
}

} // verus!
