//! A model of the kernel object behind each backend, and the laws of the autoreset event proved
//! over it. The kernel serialises the calls made on one object, so a run of the event is a
//! sequence of signals and consuming calls. A consuming call (`wait`, `try_wait`,
//! `try_wait_for`) that finds a signal pending consumes it and succeeds; one that finds none
//! fails without changing anything (a blocking `wait` stays blocked until a later signal).
use vstd::prelude::*;

verus! {

/// The kernel facility that holds the event.
#[derive(Clone, Copy, Debug, PartialEq, Eq, Structural)]
pub enum Backend {
    /// A 64-bit counter descriptor: a signal adds one, a read drains it to zero.
    Counter,
    /// An auto-clearing user event on an event queue, and a pipe for the exposed descriptor.
    QueueAndPipe,
    /// A pipe alone: a signal writes one byte, a read drains every byte the pipe holds.
    Pipe,
    /// A native auto-reset event object.
    Native,
}

/// The kernel-side state of one event.
pub struct Kernel {
    /// What consuming calls drain: the counter's value, the bytes in the pipe, or 1 where the
    /// user event or the native object is set.
    pub units: nat,
    /// Bytes in the pipe that the event-queue backend pairs with its queue; untouched by the
    /// other backends.
    pub pipe_bytes: nat,
}

/// One call on the event, as the kernel sees it.
#[derive(Clone, Copy, Debug, PartialEq, Eq, Structural)]
pub enum Op {
    Signal,
    Consume,
}

/// A newly created event: nothing pending, nothing in the pipe.
pub open spec fn fresh() -> Kernel {
    Kernel { units: 0, pipe_bytes: 0 }
}

/// Whether a signal is pending, so that the next consuming call succeeds.
pub open spec fn pending(k: Kernel) -> bool {
    k.units > 0
}

/// Whether the descriptor or handle exposed for external polling reports readiness.
pub open spec fn handle_ready(b: Backend, k: Kernel) -> bool {
    match b {
        Backend::QueueAndPipe => k.pipe_bytes > 0,
        _ => k.units > 0,
    }
}

pub open spec fn after_signal(b: Backend, k: Kernel) -> Kernel {
    match b {
        Backend::Counter => Kernel { units: k.units + 1, pipe_bytes: k.pipe_bytes },
        Backend::QueueAndPipe => Kernel { units: 1, pipe_bytes: k.pipe_bytes + 1 },
        Backend::Pipe => Kernel { units: k.units + 1, pipe_bytes: k.pipe_bytes },
        Backend::Native => Kernel { units: 1, pipe_bytes: k.pipe_bytes },
    }
}

/// The state after a consuming call that found a signal pending: every backend drains what
/// its waits read, all at once, and leaves the event-queue backend's pipe as it is.
pub open spec fn after_consume(b: Backend, k: Kernel) -> Kernel {
    Kernel { units: 0, pipe_bytes: k.pipe_bytes }
}

/// Whether `op`, made in state `k`, consumes a signal.
pub open spec fn consumes(k: Kernel, op: Op) -> bool {
    op is Consume && pending(k)
}

pub open spec fn step(b: Backend, k: Kernel, op: Op) -> Kernel {
    match op {
        Op::Signal => after_signal(b, k),
        Op::Consume => if pending(k) {
            after_consume(b, k)
        } else {
            k
        },
    }
}

/// The state after the calls `ops`, made in order from state `k`.
pub open spec fn run(b: Backend, k: Kernel, ops: Seq<Op>) -> Kernel
    decreases ops.len(),
{
    if ops.len() == 0 {
        k
    } else {
        step(b, run(b, k, ops.drop_last()), ops.last())
    }
}

/// How many of the calls `ops`, made in order from state `k`, consumed a signal.
pub open spec fn woken(b: Backend, k: Kernel, ops: Seq<Op>) -> nat
    decreases ops.len(),
{
    if ops.len() == 0 {
        0
    } else {
        woken(b, k, ops.drop_last()) + if consumes(run(b, k, ops.drop_last()), ops.last()) {
            1nat
        } else {
            0nat
        }
    }
}

/// How many of `ops` are signals.
pub open spec fn signals(ops: Seq<Op>) -> nat
    decreases ops.len(),
{
    if ops.len() == 0 {
        0
    } else {
        signals(ops.drop_last()) + if ops.last() is Signal {
            1nat
        } else {
            0nat
        }
    }
}

/// `n` consuming calls in a row.
pub open spec fn consume_calls(n: nat) -> Seq<Op> {
    Seq::new(n, |i: int| Op::Consume)
}

proof fn lemma_wakes_bounded_from(b: Backend, k: Kernel, ops: Seq<Op>)
    ensures
        woken(b, k, ops) + run(b, k, ops).units <= k.units + signals(ops),
    decreases ops.len(),
{
    if ops.len() > 0 {
        lemma_wakes_bounded_from(b, k, ops.drop_last());
    }
}

/// No wake without a signal: over any sequence of calls on a new event, every consuming call
/// that succeeded is matched by a distinct earlier signal, so at no point have more calls
/// consumed a signal than there were signals.
pub proof fn lemma_no_wake_without_signal(b: Backend, ops: Seq<Op>)
    ensures
        woken(b, fresh(), ops) <= signals(ops),
{
    lemma_wakes_bounded_from(b, fresh(), ops);
}

/// One consumer per signal: where no signal is pending, one signal followed by any number of
/// consuming calls lets exactly one of them through, the first, and leaves nothing pending.
pub proof fn lemma_one_consumer_per_signal(b: Backend, k: Kernel, n: nat)
    requires
        !pending(k),
        n >= 1,
    ensures
        woken(b, k, seq![Op::Signal] + consume_calls(n)) == 1,
        !pending(run(b, k, seq![Op::Signal] + consume_calls(n))),
    decreases n,
{
    let ops = seq![Op::Signal] + consume_calls(n);
    assert(ops.drop_last() =~= seq![Op::Signal] + consume_calls((n - 1) as nat));
    assert(ops.last() == Op::Consume);
    if n == 1 {
        assert(seq![Op::Signal] + consume_calls(0) =~= seq![Op::Signal]);
        assert(seq![Op::Signal].drop_last() =~= Seq::<Op>::empty());
        reveal_with_fuel(woken, 2);
        reveal_with_fuel(run, 2);
    } else {
        lemma_one_consumer_per_signal(b, k, (n - 1) as nat);
    }
}

/// No accumulation: two signals in a row leave one pending wake, whatever the state before;
/// the first consuming call after them succeeds, the second does not, and nothing is left
/// pending.
pub proof fn lemma_signals_collapse(b: Backend, k: Kernel)
    ensures
        woken(b, k, seq![Op::Signal, Op::Signal, Op::Consume, Op::Consume]) == 1,
        !pending(run(b, k, seq![Op::Signal, Op::Signal, Op::Consume, Op::Consume])),
{
    let ops = seq![Op::Signal, Op::Signal, Op::Consume, Op::Consume];
    assert(ops.drop_last() =~= seq![Op::Signal, Op::Signal, Op::Consume]);
    assert(ops.drop_last().drop_last() =~= seq![Op::Signal, Op::Signal]);
    assert(ops.drop_last().drop_last().drop_last() =~= seq![Op::Signal]);
    assert(seq![Op::Signal].drop_last() =~= Seq::<Op>::empty());
    reveal_with_fuel(woken, 5);
    reveal_with_fuel(run, 5);
}

/// Immediate consumption: a signal on an event with nothing pending is consumed by the first
/// non-blocking wait after it, and a second one right after finds nothing.
pub proof fn lemma_immediate_consumption(b: Backend, k: Kernel)
    requires
        !pending(k),
    ensures
        woken(b, k, seq![Op::Signal, Op::Consume]) == 1,
        woken(b, k, seq![Op::Signal, Op::Consume, Op::Consume]) == 1,
        !pending(run(b, k, seq![Op::Signal, Op::Consume])),
{
    assert(seq![Op::Signal, Op::Consume, Op::Consume].drop_last() =~= seq![
        Op::Signal,
        Op::Consume,
    ]);
    assert(seq![Op::Signal, Op::Consume].drop_last() =~= seq![Op::Signal]);
    assert(seq![Op::Signal].drop_last() =~= Seq::<Op>::empty());
    reveal_with_fuel(woken, 5);
    reveal_with_fuel(run, 5);
}

/// The exposed handle follows the event: where it is the object that waits consume (every
/// backend but the event queue), a signal makes it ready and the consuming call that takes the
/// signal makes it not ready again.
pub proof fn lemma_handle_follows_event(b: Backend, k: Kernel)
    requires
        b != Backend::QueueAndPipe,
        !pending(k),
    ensures
        !handle_ready(b, k),
        handle_ready(b, after_signal(b, k)),
        !handle_ready(b, after_consume(b, after_signal(b, k))),
{
}

/// The event-queue backend exposes its pipe, which a signal fills and a wait leaves as it is:
/// after the wait has consumed the signal, the exposed descriptor still reports readiness.
pub proof fn lemma_queue_handle_stays_ready(k: Kernel)
    ensures
        handle_ready(Backend::QueueAndPipe, after_signal(Backend::QueueAndPipe, k)),
        handle_ready(
            Backend::QueueAndPipe,
            after_consume(Backend::QueueAndPipe, after_signal(Backend::QueueAndPipe, k)),
        ),
        !pending(after_consume(Backend::QueueAndPipe, after_signal(Backend::QueueAndPipe, k))),
{
}

} // verus!
