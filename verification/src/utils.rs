//! Small time helpers shared across the phases.

use vstd::prelude::*;

verus! {

/// The effective time for a reward claim: the earlier of the current time
/// and the phase end, so accrual stops when the phase ends.
pub fn get_effective_claim_time(current_time: u64, phase_end: u64) -> (r: u64)
    ensures
        r == if current_time > phase_end {
            phase_end
        } else {
            current_time
        },
{
    if current_time > phase_end {
        phase_end
    } else {
        current_time
    }
}

/// Whether `required_duration` seconds have passed since `reference_time`,
/// stated over unbounded integers so a sum near the machine limit cannot
/// make the comparison wrap.
pub fn has_time_passed(current_time: u64, reference_time: u64, required_duration: u64) -> (r: bool)
    ensures
        r == (current_time >= reference_time + required_duration),
{
    match reference_time.checked_add(required_duration) {
        Some(t) => current_time >= t,
        None => false,
    }
}

} // verus!
