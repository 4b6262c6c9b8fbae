//! The decisions of an autoreset event, separated from the system calls that carry them out.
//!
//! An autoreset event is a binary synchronisation primitive: a signal wakes exactly one waiter
//! and the event returns to the unsignalled state by itself; a signal that finds no waiter stays
//! pending until the next wait consumes it. The event lives in a kernel object (a counting
//! descriptor, a kernel event queue paired with a pipe, a plain pipe, or a native waitable
//! object). This crate holds what the backends decide around those kernel calls: how a timeout
//! is represented for each kernel facility, how each result is classified, and a model of each
//! facility in which the laws of the primitive are proved.
pub mod model;
pub mod native;
pub mod queue;
pub mod readiness;
pub mod syscall;
pub mod timeout;

