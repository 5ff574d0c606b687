//! The readiness bridge: what one read from the timer's descriptor means,
//! and the steps that a wait performs after it.
//!
//! A wait suspends until the poller reports the descriptor readable, which
//! hands it a readiness token. From there on this module decides, and the
//! caller performs: [`on_ready`] gives the step that follows the report,
//! [`Bridge::on_read`] the steps that follow the read, in order, and
//! [`resolve_rearm`] the result of a wait that had to arm the timer again.

use vstd::prelude::*;
use crate::schedule::ArmError;

verus! {

/// Bytes asked of the descriptor in the one read of a wait, and the size of
/// the fire counter that a tick delivers.
pub const TICK_BYTES: usize = 8;

/// What a read from the timer's descriptor turned out to be.
#[derive(Clone, Copy, Debug, PartialEq, Eq)]
pub enum ReadClass {
    /// The whole counter was read: the minute has turned.
    Tick,
    /// The read failed because the realtime clock was stepped: no tick, and
    /// the timer must be armed again.
    Canceled,
    /// Fewer bytes than a counter holds.
    Truncated,
    /// More bytes than were asked for.
    Oversized,
    /// The read failed for another reason.
    Failed,
}

/// The class of a read that returned `ret` and, where `ret` is negative, left
/// the error number `errno`, on a platform that reports a canceled operation
/// as `cancel_code`.
pub open spec fn read_class(ret: int, errno: int, cancel_code: int) -> ReadClass {
    if ret < 0 {
        if errno == cancel_code {
            ReadClass::Canceled
        } else {
            ReadClass::Failed
        }
    } else if ret < 8 {
        ReadClass::Truncated
    } else if ret == 8 {
        ReadClass::Tick
    } else {
        ReadClass::Oversized
    }
}

/// How a wait ends when it succeeds.
#[derive(Clone, Copy, Debug, PartialEq, Eq)]
pub enum Wake {
    /// The timer fired on a minute boundary.
    Tick,
    /// The clock was stepped and the timer has been armed again; no minute
    /// has turned.
    Resynced,
}

/// How a wait ends when it fails. Each of these is fatal.
#[derive(Clone, Copy, Debug, PartialEq, Eq)]
pub enum WakeError {
    /// The poller could not report readiness, with this error number.
    Poll { errno: i32 },
    /// The read failed with this error number.
    Read { errno: i32 },
    /// The read returned `got` bytes, fewer than a counter holds.
    Truncated { got: usize },
    /// The read returned `got` bytes, more than were asked for.
    Oversized { got: usize },
    /// The clock was stepped and the timer could not be armed again.
    Rearm(ArmError),
}

/// One step of a wait.
#[derive(Clone, Copy, Debug, PartialEq, Eq)]
pub enum WaitAction {
    /// Read from the descriptor once, asking for `len` bytes.
    Read { len: usize },
    /// Clear the readiness token.
    ClearReady,
    /// Arm the timer for the next minute boundary.
    Rearm,
    /// End the wait with this result.
    Resolve(Result<Wake, WakeError>),
}

/// The step that follows the poller's report: the one read of a wait where
/// the descriptor is readable, and the end of the wait where the poller
/// failed with an error number.
pub open spec fn ready_actions(readiness: Result<(), i32>) -> Seq<WaitAction> {
    match readiness {
        Ok(_) => seq![WaitAction::Read { len: 8 }],
        Err(errno) => seq![WaitAction::Resolve(Err(WakeError::Poll { errno }))],
    }
}

/// The steps that follow a read, in order.
pub open spec fn read_actions(ret: int, errno: i32, cancel_code: i32) -> Seq<WaitAction> {
    match read_class(ret, errno as int, cancel_code as int) {
        ReadClass::Tick => seq![WaitAction::ClearReady, WaitAction::Resolve(Ok(Wake::Tick))],
        ReadClass::Canceled => seq![WaitAction::ClearReady, WaitAction::Rearm],
        ReadClass::Truncated => seq![
            WaitAction::ClearReady,
            WaitAction::Resolve(Err(WakeError::Truncated { got: ret as usize })),
        ],
        ReadClass::Oversized => seq![
            WaitAction::ClearReady,
            WaitAction::Resolve(Err(WakeError::Oversized { got: ret as usize })),
        ],
        ReadClass::Failed => seq![
            WaitAction::ClearReady,
            WaitAction::Resolve(Err(WakeError::Read { errno })),
        ],
    }
}

/// The result of a wait whose timer was armed again with the result `armed`.
pub open spec fn rearm_resolution(armed: Result<(), ArmError>) -> Result<Wake, WakeError> {
    match armed {
        Ok(_) => Ok(Wake::Resynced),
        Err(e) => Err(WakeError::Rearm(e)),
    }
}

/// Every step of a wait on a readable descriptor: the read, the steps after
/// it and, where they arm the timer again, the step that ends the wait once
/// arming has returned `armed`.
pub open spec fn wait_script(
    ret: int,
    errno: i32,
    cancel_code: i32,
    armed: Result<(), ArmError>,
) -> Seq<WaitAction> {
    let until_read = ready_actions(Ok(())) + read_actions(ret, errno, cancel_code);
    if read_class(ret, errno as int, cancel_code as int) == ReadClass::Canceled {
        until_read.push(WaitAction::Resolve(rearm_resolution(armed)))
    } else {
        until_read
    }
}

/// The result with which a wait on a readable descriptor ends.
pub open spec fn wait_result(
    ret: int,
    errno: i32,
    cancel_code: i32,
    armed: Result<(), ArmError>,
) -> Result<Wake, WakeError> {
    match read_class(ret, errno as int, cancel_code as int) {
        ReadClass::Tick => Ok(Wake::Tick),
        ReadClass::Canceled => rearm_resolution(armed),
        ReadClass::Truncated => Err(WakeError::Truncated { got: ret as usize }),
        ReadClass::Oversized => Err(WakeError::Oversized { got: ret as usize }),
        ReadClass::Failed => Err(WakeError::Read { errno }),
    }
}

/// The error number under which this platform reports a canceled operation,
/// `libc::ECANCELED`. The number differs between targets, so it is not
/// stated. What is claimed is that it is not 0, the number that stands for
/// no error: libc defines the constant as a literal for each target, and
/// none of those literals is 0.
#[verifier::external_body]
fn platform_cancel_code() -> (code: i32)
    ensures
        code != 0,
{
    libc::ECANCELED
}

/// The bridge between a timer's descriptor and the loop that waits on it.
#[derive(Clone, Copy, Debug, PartialEq, Eq)]
pub struct Bridge {
    /// The error number that marks a read as canceled by a clock step.
    pub cancel_code: i32,
}

impl Bridge {
    /// A bridge for the platform the program runs on: its cancel code is the
    /// platform's error number for a canceled operation. That number is
    /// never 0, so a failed read that left no error number is a failure and
    /// not a cancellation.
    pub fn for_platform() -> (bridge: Bridge)
        ensures
            bridge.cancel_code != 0,
            forall|ret: int| #[trigger]
                read_class(ret, 0, bridge.cancel_code as int) != ReadClass::Canceled,
    {
        Bridge { cancel_code: platform_cancel_code() }
    }

    /// A bridge for a descriptor that reports a canceled read as
    /// `cancel_code`.
    pub fn with_cancel_code(cancel_code: i32) -> (bridge: Bridge)
        ensures
            bridge.cancel_code == cancel_code,
    {
        Bridge { cancel_code }
    }

    /// Classifies a read that returned `ret`. `errno` is the error number
    /// that the read left; it is looked at only when `ret` is negative.
    pub fn classify(&self, ret: isize, errno: i32) -> (class: ReadClass)
        ensures
            class == read_class(ret as int, errno as int, self.cancel_code as int),
    {
        if ret < 0 {
            if errno == self.cancel_code {
                ReadClass::Canceled
            } else {
                ReadClass::Failed
            }
        } else if ret < 8 {
            ReadClass::Truncated
        } else if ret == 8 {
            ReadClass::Tick
        } else {
            ReadClass::Oversized
        }
    }

    /// The steps that a wait performs after its read returned `ret` and left
    /// the error number `errno`, in order. The token is cleared first,
    /// whatever the read returned. A canceled read is followed by arming the
    /// timer again, and [`resolve_rearm`] then ends the wait; every other read
    /// ends it at once.
    pub fn on_read(&self, ret: isize, errno: i32) -> (actions: Vec<WaitAction>)
        ensures
            actions@ == read_actions(ret as int, errno, self.cancel_code),
    {
        let actions = match self.classify(ret, errno) {
            ReadClass::Tick => vec![WaitAction::ClearReady, WaitAction::Resolve(Ok(Wake::Tick))],
            ReadClass::Canceled => vec![WaitAction::ClearReady, WaitAction::Rearm],
            ReadClass::Truncated => vec![
                WaitAction::ClearReady,
                WaitAction::Resolve(Err(WakeError::Truncated { got: ret as usize })),
            ],
            ReadClass::Oversized => vec![
                WaitAction::ClearReady,
                WaitAction::Resolve(Err(WakeError::Oversized { got: ret as usize })),
            ],
            ReadClass::Failed => vec![
                WaitAction::ClearReady,
                WaitAction::Resolve(Err(WakeError::Read { errno })),
            ],
        };
        assert(actions@ =~= read_actions(ret as int, errno, self.cancel_code));
        actions
    }
}

/// The step that follows the poller's report `readiness`, which is the error
/// number where the poller failed: a readable descriptor is read once, for
/// [`TICK_BYTES`] bytes, and a failure of the poller ends the wait.
pub fn on_ready(readiness: Result<(), i32>) -> (actions: Vec<WaitAction>)
    ensures
        actions@ == ready_actions(readiness),
{
    let actions = match readiness {
        Ok(_) => vec![WaitAction::Read { len: TICK_BYTES }],
        Err(errno) => vec![WaitAction::Resolve(Err(WakeError::Poll { errno }))],
    };
    assert(actions@ =~= ready_actions(readiness));
    actions
}

/// Ends a wait whose read was canceled, once arming the timer again has
/// returned `armed`: the wake is swallowed where the timer is armed, and the
/// failure to arm is fatal.
pub fn resolve_rearm(armed: Result<(), ArmError>) -> (result: Result<Wake, WakeError>)
    ensures
        result == rearm_resolution(armed),
{
    match armed {
        Ok(_) => Ok(Wake::Resynced),
        Err(e) => Err(WakeError::Rearm(e)),
    }
}

/// A read of a whole counter is a tick; a shorter one is truncated and a
/// longer one oversized; a failed read is a cancellation exactly when its
/// error number is the platform's code for a canceled operation.
pub proof fn lemma_read_classes(ret: int, errno: int, cancel_code: int)
    ensures
        ret == 8 <==> read_class(ret, errno, cancel_code) == ReadClass::Tick,
        0 <= ret < 8 <==> read_class(ret, errno, cancel_code) == ReadClass::Truncated,
        ret > 8 <==> read_class(ret, errno, cancel_code) == ReadClass::Oversized,
        ret < 0 && errno == cancel_code <==> read_class(ret, errno, cancel_code)
            == ReadClass::Canceled,
        ret < 0 && errno != cancel_code <==> read_class(ret, errno, cancel_code)
            == ReadClass::Failed,
{
}

/// Whatever the read returned and however arming went, a wait on a readable
/// descriptor reads once, first of all, and then clears the readiness token
/// exactly once, before every later step; it arms the timer again exactly
/// when the read was canceled; and its last step, and no earlier one, ends it,
/// with the result of the wait.
pub proof fn lemma_token_cleared_once(
    ret: int,
    errno: i32,
    cancel_code: i32,
    armed: Result<(), ArmError>,
)
    ensures
        ({
            let script = wait_script(ret, errno, cancel_code, armed);
            let canceled = read_class(ret, errno as int, cancel_code as int)
                == ReadClass::Canceled;
            &&& script.len() == if canceled { 4nat } else { 3nat }
            &&& script[0] == WaitAction::Read { len: 8 }
            &&& script[1] == WaitAction::ClearReady
            &&& forall|i: int|
                0 <= i < script.len() && i != 1 ==> script[i] != WaitAction::ClearReady
            &&& forall|i: int| 0 < i < script.len() ==> !(script[i] is Read)
            &&& forall|i: int|
                0 <= i < script.len() ==> (script[i] == WaitAction::Rearm <==> canceled && i == 2)
            &&& script.last() == WaitAction::Resolve(wait_result(ret, errno, cancel_code, armed))
            &&& forall|i: int| 0 <= i < script.len() - 1 ==> !(script[i] is Resolve)
        }),
{
}

/// A wait succeeds only with the timer armed: either the timer fired, and
/// goes on firing every minute, or the clock was stepped and the timer has
/// been armed again. A canceled read after which arming fails is fatal.
pub proof fn lemma_success_leaves_timer_armed(
    ret: int,
    errno: i32,
    cancel_code: i32,
    armed: Result<(), ArmError>,
)
    ensures
        ({
            let class = read_class(ret, errno as int, cancel_code as int);
            let result = wait_result(ret, errno, cancel_code, armed);
            &&& result == Ok::<Wake, WakeError>(Wake::Tick) <==> class == ReadClass::Tick
            &&& result == Ok::<Wake, WakeError>(Wake::Resynced) <==> class == ReadClass::Canceled
                && armed is Ok
            &&& class == ReadClass::Canceled && armed is Err ==> result == Err::<Wake, WakeError>(
                WakeError::Rearm(armed->Err_0),
            )
        }),
{
}

} // verus!
