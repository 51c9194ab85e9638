//! The clock of `embassy-time`.
//!
//! What is stated here of functions outside this crate is believed, not proved.

use vstd::prelude::*;

verus! {

/// The ticks of the clock in a millisecond.
pub const TICKS_PER_MILLI: u64 = 1000;

/// `embassy_time::Duration::from_millis`, in ticks (`embassy_time::Duration::as_ticks`): the clock
/// ticks once in a microsecond.
#[verifier::external_body]
pub(crate) fn millis_to_ticks(millis: u64) -> (ticks: u64)
    requires
        millis * TICKS_PER_MILLI <= u64::MAX,
    ensures
        ticks == millis * TICKS_PER_MILLI,
{
    embassy_time::Duration::from_millis(millis).as_ticks()
}

} // verus!
