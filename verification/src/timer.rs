//! One-shot timers on an FFRT worker thread: the timeout handed to FFRT and the
//! handle of an armed timer.
use vstd::prelude::*;

verus! {

/// Default QoS for the FFRT worker that runs timer callbacks (`ffrt_qos_default`).
pub const FFRT_QOS_DEFAULT: i32 = 2;

/// The timeout in whole milliseconds FFRT is armed with for a timeout of `millis`
/// milliseconds: at least one millisecond, truncated to 64 bits.
pub open spec fn spec_timeout_ms(millis: u128) -> u64 {
    (if millis < 1 {
        1u128
    } else {
        millis
    }) as u64
}

/// The FFRT timeout for a timeout of `millis` milliseconds.
pub fn timeout_ms(millis: u128) -> (ms: u64)
    ensures
        ms == spec_timeout_ms(millis),
{
    let clamped: u128 = if millis < 1 {
        1
    } else {
        millis
    };
    clamped as u64
}

/// The timer fires after the time asked for: any timeout of at least one millisecond
/// that fits in 64 bits is handed to FFRT unchanged, a zero timeout becomes one
/// millisecond, and a longer timeout never fires sooner than a shorter one.
pub proof fn lemma_timeout_is_the_requested_time(millis: u128, other: u128)
    ensures
        1 <= millis <= u64::MAX ==> spec_timeout_ms(millis) == millis,
        millis == 0 ==> spec_timeout_ms(millis) == 1,
        millis <= u64::MAX ==> spec_timeout_ms(millis) >= 1,
        millis <= other <= u64::MAX ==> spec_timeout_ms(millis) <= spec_timeout_ms(other),
{
}

/// Handle to a running one-shot FFRT timer.
#[derive(Debug)]
pub struct OpenHarmonyTimer {
    handle: i32,
}

impl OpenHarmonyTimer {
    /// The FFRT handle.
    pub closed spec fn spec_handle(self) -> i32 {
        self.handle
    }

    /// The timer FFRT armed, given the handle `ffrt_timer_start` returned; `None` when
    /// FFRT declined (a negative handle), so the caller keeps its callback.
    pub fn from_handle(handle: i32) -> (t: Option<Self>)
        ensures
            handle < 0 ==> t is None,
            handle >= 0 ==> (t matches Some(timer) && timer.spec_handle() == handle),
    {
        if handle < 0 {
            None
        } else {
            Some(OpenHarmonyTimer { handle })
        }
    }

    /// The FFRT handle, for cancelling the timer.
    pub fn handle(&self) -> (h: i32)
        ensures
            h == self.spec_handle(),
            h >= 0,
    {
        proof {
            use_type_invariant(self);
        }
        self.handle
    }

    /// An armed timer has a non-negative handle.
    #[verifier::type_invariant]
    spec fn armed(self) -> bool {
        self.handle >= 0
    }
}

} // verus!
