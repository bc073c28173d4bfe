//! Durations, counted in ticks of the system clock.
use vstd::prelude::*;

verus! {

/// How often the system clock ticks in a second.
pub const TICKS_PER_SECOND: u64 = 1_000_000;

/// How often the system clock ticks in a millisecond.
pub const TICKS_PER_MILLISECOND: u64 = 1_000;

/// `embassy_time::Duration::from_millis`, read with `as_ticks`: the clock is configured to a
/// million ticks per second, so a millisecond is a thousand ticks, without rounding.
#[verifier::external_body]
pub(crate) fn from_millis(millis: u64) -> (ticks: u64)
    requires
        millis * TICKS_PER_MILLISECOND <= u64::MAX,
    ensures
        ticks == millis * TICKS_PER_MILLISECOND,
{
    embassy_time::Duration::from_millis(millis).as_ticks()
}

/// `embassy_time::Duration::from_secs`, read with `as_ticks`: the clock is configured to a
/// million ticks per second.
#[verifier::external_body]
pub(crate) fn from_secs(secs: u64) -> (ticks: u64)
    requires
        secs * TICKS_PER_SECOND <= u64::MAX,
    ensures
        ticks == secs * TICKS_PER_SECOND,
{
    embassy_time::Duration::from_secs(secs).as_ticks()
}

} // verus!
