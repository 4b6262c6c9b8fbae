//! The event-queue backend: a user event registered edge-triggered and auto-clearing
//! (`EV_CLEAR`) on a kernel event queue, paired with a pipe whose read end is the descriptor
//! exposed for polling. A signal triggers the user event and then writes one byte to the pipe;
//! a wait retrieves the user event from the queue and leaves the pipe as it is.
use vstd::prelude::*;

use crate::syscall::Verdict;

verus! {

/// Reads the result of a `kevent` call that retrieves at most one event: -1 is a failure, a
/// positive count means the user event fired and was cleared, and zero means the timeout
/// elapsed first.
pub fn after_queue_wait(res: i32) -> (r: Verdict)
    ensures
        (r is Failed) == (res == -1),
        (r is Signalled) == (res > 0),
        (r is NotSignalled) == (res != -1 && res <= 0),
{
    if res == -1 {
        Verdict::Failed
    } else if res > 0 {
        Verdict::Signalled
    } else {
        Verdict::NotSignalled
    }
}

} // verus!
