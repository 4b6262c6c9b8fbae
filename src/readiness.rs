//! The descriptor backends (the counting descriptor and the plain pipe) wait with a bounded
//! `poll` for readability and then consume with a `read`. Between the two another thread may
//! consume the same signal; the read then reports that it would block, which is an ordinary
//! "not signalled", not a failure.
use vstd::prelude::*;

use crate::syscall::Verdict;

verus! {

/// What a `poll` on the one descriptor of interest found.
#[derive(Clone, Copy, Debug, PartialEq, Eq, Structural)]
pub enum PollStep {
    /// The call failed: a valid descriptor never gives this.
    Failed,
    /// The timeout elapsed, or the descriptor reported no readable data: not signalled.
    NotReady,
    /// The descriptor is readable: read it to consume the signal.
    Ready,
}

/// Whether `poll` reported the descriptor readable: it returned a positive count and set the
/// `readable` bit in `revents`.
pub open spec fn reported_readable(ret: i32, revents: i16, readable: i16) -> bool {
    ret > 0 && revents & readable != 0
}

/// Reads the result `ret` of `poll` and the `revents` it wrote, where `readable` is the bit
/// that was asked for.
pub fn after_poll(ret: i32, revents: i16, readable: i16) -> (r: PollStep)
    ensures
        (r is Failed) == (ret == -1),
        (r is Ready) == reported_readable(ret, revents, readable),
        (r is NotReady) == (ret != -1 && !reported_readable(ret, revents, readable)),
{
    if ret == -1 {
        PollStep::Failed
    } else if ret > 0 && (revents & readable) != 0 {
        PollStep::Ready
    } else {
        PollStep::NotReady
    }
}

/// Reads the result of the `read` that follows a positive `poll`, where `would_block` tells
/// whether a failure was `EAGAIN`/`EWOULDBLOCK`: a racing waiter took the signal first.
pub fn after_consuming_read(ret: isize, would_block: bool) -> (r: Verdict)
    ensures
        (r is Signalled) == (ret != -1),
        (r is NotSignalled) == (ret == -1 && would_block),
        (r is Failed) == (ret == -1 && !would_block),
{
    if ret != -1 {
        Verdict::Signalled
    } else if would_block {
        Verdict::NotSignalled
    } else {
        Verdict::Failed
    }
}

} // verus!
