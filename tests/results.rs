use nova_autoreset_event::native::{
    after_blocking_wait, after_wait, handle_created, set_succeeded, WAIT_OBJECT_0, WAIT_TIMEOUT,
};
use nova_autoreset_event::queue::after_queue_wait;
use nova_autoreset_event::readiness::{after_consuming_read, after_poll, PollStep};
use nova_autoreset_event::syscall::{created, signal_delivered, succeeded, Verdict};

#[test]
fn poll_failure_is_fatal() {
    assert_eq!(after_poll(-1, 0, libc::POLLIN), PollStep::Failed);
    assert_eq!(after_poll(-1, libc::POLLIN, libc::POLLIN), PollStep::Failed);
}

#[test]
fn poll_timeout_is_not_signalled() {
    assert_eq!(after_poll(0, 0, libc::POLLIN), PollStep::NotReady);
}

#[test]
fn poll_readable_descriptor_is_ready() {
    assert_eq!(after_poll(1, libc::POLLIN, libc::POLLIN), PollStep::Ready);
    assert_eq!(
        after_poll(1, libc::POLLIN | libc::POLLHUP, libc::POLLIN),
        PollStep::Ready
    );
}

#[test]
fn poll_without_the_readable_bit_is_not_ready() {
    assert_eq!(after_poll(1, libc::POLLHUP, libc::POLLIN), PollStep::NotReady);
    assert_eq!(after_poll(1, libc::POLLERR, libc::POLLIN), PollStep::NotReady);
    assert_eq!(after_poll(0, libc::POLLIN, libc::POLLIN), PollStep::NotReady);
}

#[test]
fn consuming_read_that_returned_data_consumed_the_signal() {
    assert_eq!(after_consuming_read(8, false), Verdict::Signalled);
    assert_eq!(after_consuming_read(1, true), Verdict::Signalled);
}

#[test]
fn consuming_read_that_would_block_lost_the_race() {
    assert_eq!(after_consuming_read(-1, true), Verdict::NotSignalled);
}

#[test]
fn consuming_read_that_failed_otherwise_is_fatal() {
    assert_eq!(after_consuming_read(-1, false), Verdict::Failed);
}

#[test]
fn created_descriptor_or_failure() {
    assert_eq!(created(-1), None);
    assert_eq!(created(0), Some(0));
    assert_eq!(created(3), Some(3));
}

#[test]
fn queue_wait_results() {
    assert_eq!(after_queue_wait(-1), Verdict::Failed);
    assert_eq!(after_queue_wait(0), Verdict::NotSignalled);
    assert_eq!(after_queue_wait(1), Verdict::Signalled);
}

#[test]
fn calls_fail_only_on_minus_one() {
    assert!(!succeeded(-1));
    assert!(succeeded(0));
    assert!(succeeded(4));
}

#[test]
fn signal_write_that_wrote_delivered() {
    assert!(signal_delivered(1, false));
    assert!(signal_delivered(8, true));
}

#[test]
fn signal_write_into_a_full_object_leaves_it_signalled() {
    assert!(signal_delivered(-1, true));
}

#[test]
fn signal_write_that_failed_otherwise_is_fatal() {
    assert!(!signal_delivered(-1, false));
}

#[test]
fn native_wait_results() {
    assert_eq!(after_wait(WAIT_OBJECT_0), Verdict::Signalled);
    assert_eq!(after_wait(WAIT_TIMEOUT), Verdict::NotSignalled);
    assert_eq!(after_wait(0), Verdict::Signalled);
    assert_eq!(after_wait(258), Verdict::NotSignalled);
    assert_eq!(after_wait(0x80), Verdict::Failed);
    assert_eq!(after_wait(0xFFFF_FFFF), Verdict::Failed);
}

#[test]
fn native_blocking_wait_only_returns_signalled() {
    assert_eq!(after_blocking_wait(0), Verdict::Signalled);
    assert_eq!(after_blocking_wait(258), Verdict::Failed);
    assert_eq!(after_blocking_wait(0xFFFF_FFFF), Verdict::Failed);
}

#[test]
fn native_handle_validity() {
    assert!(!handle_created(0));
    assert!(!handle_created(-1));
    assert!(handle_created(0x1c));
}

#[test]
fn native_set_results() {
    assert!(set_succeeded(1));
    assert!(set_succeeded(2));
    assert!(set_succeeded(-1));
    assert!(!set_succeeded(0));
}
