//! Timeouts, given as whole seconds and a sub-second part in nanoseconds, converted to the form
//! that each kernel wait call takes. A timeout that does not fit is clamped to the largest finite
//! value that the call accepts; it is never rejected, and never turned into an infinite wait.
use vstd::prelude::*;

use crate::native::INFINITE;

verus! {

pub const MILLIS_PER_SEC: u64 = 1000;

pub const NANOS_PER_MILLI: u32 = 1_000_000;

pub const MAX_SUBSEC_NANOS: i64 = 999_999_999;

/// The timeout argument of `poll` for a wait without end; only `wait` passes it.
pub const POLL_FOREVER: i32 = -1;

/// The whole milliseconds in `secs` seconds and `nanos` nanoseconds; the part below one
/// millisecond is dropped.
pub open spec fn whole_millis(secs: u64, nanos: u32) -> int {
    secs * 1000 + nanos / 1_000_000
}

/// A timeout below the clamp is asked of the kernel rounded down to the millisecond: the wait
/// is never longer than the timeout, and falls short of it by less than one millisecond.
pub proof fn lemma_whole_millis_rounds_down(secs: u64, nanos: u32)
    ensures
        whole_millis(secs, nanos) * 1_000_000 <= secs * 1_000_000_000 + nanos,
        secs * 1_000_000_000 + nanos < (whole_millis(secs, nanos) + 1) * 1_000_000,
{
    let q = nanos / 1_000_000;
    let r = nanos % 1_000_000;
    assert(nanos == q * 1_000_000 + r && 0 <= r < 1_000_000);
    assert(whole_millis(secs, nanos) * 1_000_000 == secs * 1_000_000_000 + q * 1_000_000)
        by (nonlinear_arith)
        requires
            whole_millis(secs, nanos) == secs * 1000 + q,
    ;
}

pub open spec fn clamp(x: int, max: int) -> int {
    if x <= max {
        x
    } else {
        max
    }
}

/// Whole milliseconds of the timeout, or `max` where there are more.
fn millis_at_most(secs: u64, nanos: u32, max: u64) -> (r: u64)
    requires
        max < 0x1_0000_0000_0000,
    ensures
        r == clamp(whole_millis(secs, nanos), max as int),
{
    let sub: u64 = (nanos / NANOS_PER_MILLI) as u64;
    if secs > max / MILLIS_PER_SEC {
        assert(secs * 1000 + sub > max) by (nonlinear_arith)
            requires
                secs > max / 1000,
                sub >= 0,
        ;
        max
    } else {
        assert(secs * 1000 <= max) by (nonlinear_arith)
            requires
                secs <= max / 1000,
        ;
        let m: u64 = secs * MILLIS_PER_SEC + sub;
        if m > max {
            max
        } else {
            m
        }
    }
}

/// The timeout argument of `poll`: whole milliseconds, at most `i32::MAX`. A negative value
/// would ask for an infinite wait, and none is ever produced.
pub fn poll_millis(secs: u64, nanos: u32) -> (r: i32)
    ensures
        r as int == clamp(whole_millis(secs, nanos), i32::MAX as int),
        0 <= r,
{
    millis_at_most(secs, nanos, i32::MAX as u64) as i32
}

/// The timeout argument of `WaitForSingleObject`: whole milliseconds, at most one below
/// `INFINITE`, which that call reads as a wait without end.
pub fn native_wait_millis(secs: u64, nanos: u32) -> (r: u32)
    ensures
        r as int == clamp(whole_millis(secs, nanos), INFINITE as int - 1),
        r != INFINITE,
{
    millis_at_most(secs, nanos, (INFINITE - 1) as u64) as u32
}

/// A timeout as the kernel event queue takes it: seconds and nanoseconds, both signed.
#[derive(Clone, Copy, Debug, PartialEq, Eq, Structural)]
pub struct Timespec {
    pub secs: i64,
    pub nanos: i64,
}

/// The timeout argument of `kevent`. Seconds beyond `i64::MAX` give the largest timespec, with
/// the nanoseconds at their maximum.
pub fn kevent_timespec(secs: u64, nanos: u32) -> (r: Timespec)
    ensures
        secs <= i64::MAX ==> r == (Timespec { secs: secs as i64, nanos: nanos as i64 }),
        secs > i64::MAX ==> r == (Timespec { secs: i64::MAX, nanos: MAX_SUBSEC_NANOS }),
{
    if secs <= i64::MAX as u64 {
        Timespec { secs: secs as i64, nanos: nanos as i64 }
    } else {
        Timespec { secs: i64::MAX, nanos: MAX_SUBSEC_NANOS }
    }
}

} // verus!
