//! The monotonic clock, read as whole seconds.
use vstd::prelude::*;

verus! {

/// Tick rate of the monotonic clock: one tick every tenth of a second.
pub const MONO_HZ: u64 = 10;

/// Period of the timeout tracker, in seconds.
pub const TRACKER_PERIOD_SECS: u64 = 1;

/// Relies on `fugit::Duration::<u64, 1, 10>::to_secs`, which for this tick
/// rate divides the tick count by ten, rounding down.
#[verifier::external_body]
fn duration_to_secs(ticks: u64) -> (r: u64)
    ensures
        r == ticks / MONO_HZ,
{
    fugit::TimerDurationU64::<10>::from_ticks(ticks).to_secs()
}

/// Whether a clock reading of `ticks` since the epoch fits whole seconds in a `u32`.
pub open spec fn secs_fit(ticks: u64) -> bool {
    ticks / MONO_HZ <= u32::MAX
}

/// Whole seconds elapsed at a clock reading of `ticks` since the epoch.
pub fn monotonic_secs(ticks: u64) -> (r: u32)
    requires
        secs_fit(ticks),
    ensures
        r == ticks / MONO_HZ,
{
    duration_to_secs(ticks) as u32
}

/// Whole seconds elapsed at a clock reading of `ticks`, or `None` when they
/// do not fit in a `u32`.
pub fn try_monotonic_secs(ticks: u64) -> (r: Option<u32>)
    ensures
        secs_fit(ticks) ==> r == Some((ticks / MONO_HZ) as u32),
        !secs_fit(ticks) ==> r is None,
{
    let secs = duration_to_secs(ticks);
    if secs <= u32::MAX as u64 {
        Some(secs as u32)
    } else {
        None
    }
}

} // verus!
