use vstd::prelude::*;
use crate::duty::DutyCycle;
use crate::duty::DUTY_FULL;

verus! {

pub const NANOS_PER_SEC: u64 = 1_000_000_000;

/// Length of one period in nanoseconds for a frequency in whole hertz:
/// the reciprocal of the frequency, truncated to nanoseconds.
pub open spec fn period_ns_spec(freq_hz: u64) -> int {
    NANOS_PER_SEC as int / freq_hz as int
}

/// Nanoseconds the output is held high in one period: the duty fraction of
/// the period, truncated, and saturated at `u64::MAX` should an out-of-range
/// duty cycle push it past that.
pub open spec fn high_ns_spec(period_ns: u64, parts: u64) -> int {
    let raw = (period_ns as int * parts as int) / (DUTY_FULL as int);
    if raw > u64::MAX as int {
        u64::MAX as int
    } else {
        raw
    }
}

/// Nanoseconds the output is held low in one period: the remainder of the
/// period, and zero — never negative — when an out-of-range duty cycle makes
/// the high time exceed the period.
pub open spec fn low_ns_spec(period_ns: u64, parts: u64) -> int {
    if high_ns_spec(period_ns, parts) >= period_ns as int {
        0
    } else {
        period_ns as int - high_ns_spec(period_ns, parts)
    }
}

/// Extra suspension that re-anchors an iteration to its own start time:
/// whatever is left of the period once the iteration's work is done, and
/// zero — never negative — when the iteration overran the period.
pub open spec fn correction_ns_spec(period_ns: u64, elapsed_ns: u64) -> int {
    if elapsed_ns < period_ns {
        period_ns as int - elapsed_ns as int
    } else {
        0
    }
}

/// The computed suspend intervals for one iteration of a timing loop:
/// drive high and hold `high_ns`, then drive low and hold `low_ns`.
#[derive(Clone, Copy, PartialEq, Eq, Structural, Debug)]
pub struct IterationPlan {
    pub high_ns: u64,
    pub low_ns: u64,
}

/// One period in nanoseconds for a frequency in whole hertz.
pub fn period_ns_of(freq_hz: u64) -> (p: u64)
    requires
        freq_hz > 0,
    ensures
        p == period_ns_spec(freq_hz),
        p <= NANOS_PER_SEC,
{
    NANOS_PER_SEC / freq_hz
}

/// Compute the high and low hold times for one iteration from the period and
/// the duty cycle read at the iteration's start.
pub fn plan_iteration(period_ns: u64, duty: DutyCycle) -> (plan: IterationPlan)
    ensures
        plan.high_ns == high_ns_spec(period_ns, duty.parts),
        plan.low_ns == low_ns_spec(period_ns, duty.parts),
{
    proof {
        assert(period_ns as int * duty.parts as int <= u64::MAX as int * u64::MAX as int)
            by (nonlinear_arith)
            requires
                period_ns <= u64::MAX,
                duty.parts <= u64::MAX,
        ;
    }
    let wide: u128 = (period_ns as u128) * (duty.parts as u128) / (DUTY_FULL as u128);
    let high_ns: u64 = if wide > u64::MAX as u128 {
        u64::MAX
    } else {
        wide as u64
    };
    let low_ns: u64 = if high_ns >= period_ns {
        0
    } else {
        period_ns - high_ns
    };
    IterationPlan { high_ns, low_ns }
}

/// The drift-correction suspension for one iteration, from the period and the
/// time the iteration's work took. Zero when the iteration overran the
/// period: an overrun is absorbed, never turned into a negative suspension,
/// and nothing is carried into later iterations.
pub fn correction_ns(period_ns: u64, elapsed_ns: u64) -> (c: u64)
    ensures
        c == correction_ns_spec(period_ns, elapsed_ns),
{
    if elapsed_ns < period_ns {
        period_ns - elapsed_ns
    } else {
        0
    }
}

/// Law: for an in-range duty cycle the two hold times partition the period
/// exactly, and the high time is the duty fraction of the period up to
/// integer truncation — `DUTY_FULL * high_ns` falls within one `DUTY_FULL`
/// below `parts * period_ns` — so sampling over many identical iterations
/// yields a high ratio that matches the duty cycle to the representation's
/// grain.
pub proof fn lemma_duty_ratio(period_ns: u64, duty: DutyCycle)
    requires
        duty.in_range(),
    ensures
        high_ns_spec(period_ns, duty.parts) <= period_ns as int,
        high_ns_spec(period_ns, duty.parts) + low_ns_spec(period_ns, duty.parts)
            == period_ns as int,
        (DUTY_FULL as int) * high_ns_spec(period_ns, duty.parts)
            <= (duty.parts as int) * (period_ns as int),
        (duty.parts as int) * (period_ns as int)
            < (DUTY_FULL as int) * (high_ns_spec(period_ns, duty.parts) + 1),
{
    let a = period_ns as int * duty.parts as int;
    let d = DUTY_FULL as int;
    let q = a / d;
    assert(d * q <= a && a < d * (q + 1)) by (nonlinear_arith)
        requires
            a >= 0,
            d > 0,
            q == a / d,
    ;
    assert(q <= period_ns as int) by (nonlinear_arith)
        requires
            a == period_ns as int * duty.parts as int,
            duty.parts as int <= d,
            d > 0,
            q == a / d,
    ;
    assert(high_ns_spec(period_ns, duty.parts) == q);
    assert(d * q <= (duty.parts as int) * (period_ns as int) && (duty.parts as int) * (
    period_ns as int) < d * (q + 1)) by (nonlinear_arith)
        requires
            a == period_ns as int * duty.parts as int,
            d * q <= a,
            a < d * (q + 1),
    ;
}

/// Law: a zero duty cycle yields no high time at all, and a full duty cycle
/// yields no low time at all; the other hold fills the whole period.
pub proof fn lemma_duty_extremes(period_ns: u64)
    ensures
        high_ns_spec(period_ns, 0) == 0,
        low_ns_spec(period_ns, 0) == period_ns as int,
        high_ns_spec(period_ns, DUTY_FULL) == period_ns as int,
        low_ns_spec(period_ns, DUTY_FULL) == 0,
{
    let d = DUTY_FULL as int;
    assert(period_ns as int * 0int == 0) by (nonlinear_arith);
    assert(0int / d == 0) by (nonlinear_arith)
        requires
            d > 0,
    ;
    assert(period_ns as int * d / d == period_ns as int) by (nonlinear_arith)
        requires
            d > 0,
    ;
}

/// Law: the drift correction re-anchors each iteration to its own start.
/// When the iteration's work fits in the period, work plus correction equals
/// the period exactly; when it overran, the correction is zero — not
/// negative, and nothing obliges a later iteration to make up the loss,
/// since the correction is a function of that one iteration's elapsed time
/// alone.
pub proof fn lemma_correction_reanchors(period_ns: u64, elapsed_ns: u64)
    ensures
        elapsed_ns < period_ns
            ==> (elapsed_ns as int) + correction_ns_spec(period_ns, elapsed_ns)
                == period_ns as int,
        elapsed_ns >= period_ns ==> correction_ns_spec(period_ns, elapsed_ns) == 0,
        correction_ns_spec(period_ns, elapsed_ns) >= 0,
        correction_ns_spec(period_ns, elapsed_ns) <= period_ns as int,
{
}

} // verus!
