//! Arming of the minute timer: the next minute boundary after a given
//! instant, and the request that arms a timer for it.

use vstd::prelude::*;

verus! {

/// Seconds between two fires of the timer.
pub const INTERVAL_SECS: u64 = 60;

/// The first whole minute strictly after `t`, in seconds since the epoch.
pub open spec fn next_boundary(t: int) -> int {
    (t / 60 + 1) * 60
}

/// Whether the minute boundary after `now_secs` can be held in a `u64`.
pub open spec fn boundary_fits(now_secs: u64) -> bool {
    next_boundary(now_secs as int) <= u64::MAX
}

/// The absolute time, in seconds since the epoch, at which a timer armed at
/// `now_secs` fires first.
pub fn next_fire(now_secs: u64) -> (next: u64)
    requires
        boundary_fits(now_secs),
    ensures
        next == next_boundary(now_secs as int),
        now_secs < next <= now_secs + 60,
        next % 60 == 0,
{
    (now_secs / 60 + 1) * 60
}

/// What the kernel is asked for when the timer is armed.
#[derive(Clone, Copy, Debug, PartialEq, Eq)]
pub struct ArmRequest {
    /// First fire, in seconds since the epoch.
    pub first_fire_secs: u64,
    /// Seconds between later fires.
    pub interval_secs: u64,
    /// The first fire is a wall-clock instant, not a delay.
    pub absolute: bool,
    /// A read fails as canceled when the realtime clock is stepped.
    pub cancel_on_clock_step: bool,
}

/// The request that arms a timer at `now_secs` for every minute boundary
/// after it.
pub open spec fn request_at(now_secs: u64) -> ArmRequest {
    ArmRequest {
        first_fire_secs: next_boundary(now_secs as int) as u64,
        interval_secs: 60,
        absolute: true,
        cancel_on_clock_step: true,
    }
}

/// Why a timer could not be armed.
#[derive(Clone, Copy, Debug, PartialEq, Eq)]
pub enum ArmError {
    /// The current time could not be read.
    ClockUnreadable,
    /// The kernel refused the request, with this error number.
    Rejected { errno: i32 },
}

impl ArmRequest {
    /// Builds the request for a timer armed at `now_secs`, or `None` when the
    /// next minute boundary is beyond what a `u64` holds.
    pub fn for_time(now_secs: u64) -> (request: Option<ArmRequest>)
        ensures
            request.is_some() <==> boundary_fits(now_secs),
            request.is_some() ==> request.unwrap() == request_at(now_secs),
    {
        if now_secs / 60 < u64::MAX / 60 {
            Some(
                ArmRequest {
                    first_fire_secs: next_fire(now_secs),
                    interval_secs: INTERVAL_SECS,
                    absolute: true,
                    cancel_on_clock_step: true,
                },
            )
        } else {
            None
        }
    }
}

/// Tells whether the kernel armed the timer, from what the call that arms it
/// returned and the error number it left: a negative return is a refusal.
pub fn arm_result(ret: i32, errno: i32) -> (result: Result<(), ArmError>)
    ensures
        ret >= 0 ==> result == Ok::<(), ArmError>(()),
        ret < 0 ==> result == Err::<(), ArmError>(ArmError::Rejected { errno }),
{
    if ret < 0 {
        Err(ArmError::Rejected { errno })
    } else {
        Ok(())
    }
}

/// The boundary computed for an instant lies strictly after it, at most a
/// minute away, and on a whole minute.
pub proof fn lemma_next_boundary_is_next_minute(t: int)
    requires
        0 <= t,
    ensures
        next_boundary(t) == (t / 60 + 1) * 60,
        t < next_boundary(t) <= t + 60,
        next_boundary(t) % 60 == 0,
{
}

/// Arming again never moves the target back: at the same instant it is the
/// same target, at a later instant the same or a later one.
pub proof fn lemma_rearm_never_regresses(first: int, second: int)
    requires
        0 <= first <= second,
    ensures
        next_boundary(first) <= next_boundary(second),
        first == second ==> next_boundary(first) == next_boundary(second),
{
}

/// Two instants within the same minute are armed for the same boundary.
pub proof fn lemma_same_minute_same_boundary(first: int, second: int)
    requires
        0 <= first,
        0 <= second,
        first / 60 == second / 60,
    ensures
        next_boundary(first) == next_boundary(second),
{
}

} // verus!
