//! What the result of a kernel call says, shared by the descriptor-based backends.
use vstd::prelude::*;

verus! {

/// What a consuming call found: a pending signal, which it consumed; no signal; or an error
/// that a valid kernel object never gives, which ends the process.
#[derive(Clone, Copy, Debug, PartialEq, Eq, Structural)]
pub enum Verdict {
    Signalled,
    NotSignalled,
    Failed,
}

/// The descriptor that a creating call (`eventfd`, `kqueue`, `pipe`) handed back, or `None`
/// where it failed; these calls report failure with -1 and nothing else.
pub fn created(ret: i32) -> (r: Option<i32>)
    ensures
        ret == -1 ==> r is None,
        ret != -1 ==> r == Some(ret),
{
    if ret == -1 {
        None
    } else {
        Some(ret)
    }
}

/// Whether a call that reports failure with -1 and success with anything else (`fcntl`, a
/// `kevent` that only submits changes) succeeded.
pub fn succeeded(ret: i32) -> (r: bool)
    ensures
        r == (ret != -1),
{
    ret != -1
}

/// Whether a non-blocking `write` of a signal left the event signalled: it wrote, or it would
/// have blocked because the object is full, which means that a wake is already pending. Any
/// other failure is fatal.
pub fn signal_delivered(ret: isize, would_block: bool) -> (r: bool)
    ensures
        r == (ret != -1 || would_block),
{
    ret != -1 || would_block
}

} // verus!
