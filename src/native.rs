//! The native waitable-object backend: an auto-reset kernel event, set by `SetEvent` and
//! consumed by `WaitForSingleObject`, which already release one waiter per set and reset the
//! object on a successful wait. What is left to decide is how each return value reads.
use vstd::prelude::*;

use crate::syscall::Verdict;

verus! {

/// The timeout that `WaitForSingleObject` reads as "wait without end".
pub const INFINITE: u32 = 0xFFFF_FFFF;

/// `WaitForSingleObject`: the object was signalled, and the wait consumed the signal.
pub const WAIT_OBJECT_0: u32 = 0;

/// `WaitForSingleObject`: the timeout elapsed with the object unsignalled.
pub const WAIT_TIMEOUT: u32 = 258;

/// A handle value that `CreateEventW` never returns for a created object.
pub open spec fn is_invalid_handle(raw: isize) -> bool {
    raw == 0 || raw == -1
}

/// Whether `CreateEventW` created an object: it returns a null handle on failure, and
/// `INVALID_HANDLE_VALUE` (all bits set) is refused as well.
pub fn handle_created(raw: isize) -> (r: bool)
    ensures
        r == !is_invalid_handle(raw),
{
    raw != 0 && raw != -1
}

/// How a bounded or non-blocking `WaitForSingleObject` reads: signalled and consumed, timed
/// out, or failed.
pub fn after_wait(res: u32) -> (r: Verdict)
    ensures
        (r is Signalled) == (res == WAIT_OBJECT_0),
        (r is NotSignalled) == (res == WAIT_TIMEOUT),
        (r is Failed) == (res != WAIT_OBJECT_0 && res != WAIT_TIMEOUT),
{
    if res == WAIT_OBJECT_0 {
        Verdict::Signalled
    } else if res == WAIT_TIMEOUT {
        Verdict::NotSignalled
    } else {
        Verdict::Failed
    }
}

/// How a `WaitForSingleObject` with an `INFINITE` timeout reads: it can only return once the
/// object was signalled, so anything else is a failure.
pub fn after_blocking_wait(res: u32) -> (r: Verdict)
    ensures
        (r is Signalled) == (res == WAIT_OBJECT_0),
        (r is Failed) == (res != WAIT_OBJECT_0),
{
    if res == WAIT_OBJECT_0 {
        Verdict::Signalled
    } else {
        Verdict::Failed
    }
}

/// Whether `SetEvent` succeeded: it returns a nonzero `BOOL` on success and zero on failure.
pub fn set_succeeded(res: i32) -> (r: bool)
    ensures
        r == (res != 0),
{
    res != 0
}

} // verus!
