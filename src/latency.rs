use vstd::prelude::*;

verus! {

/// The delay that brings two endpoints in step: half the difference of the
/// round trips (rounded down), assigned to the endpoint with the shorter one.
pub open spec fn spec_compensation(rtt_a: int, rtt_b: int) -> (int, int) {
    if rtt_a > rtt_b {
        (0, (rtt_a - rtt_b) / 2)
    } else {
        ((rtt_b - rtt_a) / 2, 0)
    }
}

/// Computes the pair of delays `(delay_a, delay_b)` that hold back the nearer
/// of two endpoints, from their measured round trips `rtt_a` and `rtt_b`
/// (all in microseconds). At least one delay is zero, and after the delays the
/// two one-way arrival times differ by less than a microsecond.
pub fn compensation_delays(rtt_a: u64, rtt_b: u64) -> (r: (u64, u64))
    ensures
        (r.0 as int, r.1 as int) == spec_compensation(rtt_a as int, rtt_b as int),
        r.0 == 0 || r.1 == 0,
        -1 <= (rtt_a + 2 * r.0) - (rtt_b + 2 * r.1) <= 1,
{
    if rtt_a > rtt_b {
        (0, (rtt_a - rtt_b) / 2)
    } else {
        ((rtt_b - rtt_a) / 2, 0)
    }
}

} // verus!
