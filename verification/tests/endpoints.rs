//! The two ends as values, and the request that toggles non-blocking mode.

use std::cell::RefCell;

use mio_pipe::{fionbio, fionbio_result, set_nonblocking, OsError, Receiver, Reply, Sender, Syscall};

const EBADF: i32 = 9;
const ENOTTY: i32 = 25;

#[test]
fn sender_keeps_its_descriptor() {
    let sender = Sender::from_raw(17);
    assert_eq!(sender.as_raw_fd(), 17);
    assert_eq!(sender.as_raw_fd(), 17);
    assert_eq!(sender.into_raw_fd(), 17);
}

#[test]
fn receiver_keeps_its_descriptor() {
    let receiver = Receiver::from_raw(18);
    assert_eq!(receiver.as_raw_fd(), 18);
    assert_eq!(receiver.as_raw_fd(), 18);
    assert_eq!(receiver.into_raw_fd(), 18);
}

#[test]
fn nothing_is_checked_on_construction() {
    assert_eq!(Sender::from_raw(-1).into_raw_fd(), -1);
    assert_eq!(Receiver::from_raw(i32::MAX).into_raw_fd(), i32::MAX);
    assert_eq!(Receiver::from_raw(i32::MIN).as_raw_fd(), i32::MIN);
}

#[test]
fn raw_round_trip_gives_the_same_end() {
    for fd in [0, 1, 2, 3, 1023, 65536] {
        let sender = Sender::from_raw(Sender::from_raw(fd).into_raw_fd());
        assert_eq!(sender.as_raw_fd(), fd);
        let receiver = Receiver::from_raw(Receiver::from_raw(fd).into_raw_fd());
        assert_eq!(receiver.as_raw_fd(), fd);
    }
}

#[test]
fn flush_does_nothing_and_succeeds() {
    let mut sender = Sender::from_raw(5);
    assert_eq!(sender.flush(), Ok(()));
    assert_eq!(sender.flush(), Ok(()));
    assert_eq!(sender.as_raw_fd(), 5);
}

fn reply(ret: i32, errno: i32) -> Reply {
    Reply { ret, errno, fds: [-1, -1] }
}

#[test]
fn fionbio_carries_one_or_zero() {
    assert_eq!(fionbio(7, true), Syscall::Fionbio { fd: 7, value: 1 });
    assert_eq!(fionbio(7, false), Syscall::Fionbio { fd: 7, value: 0 });
    assert_eq!(fionbio(-1, true), Syscall::Fionbio { fd: -1, value: 1 });
}

#[test]
fn fionbio_fails_on_minus_one_only() {
    assert_eq!(fionbio_result(reply(-1, EBADF)), Err(OsError { code: EBADF }));
    assert_eq!(fionbio_result(reply(-1, ENOTTY)), Err(OsError { code: ENOTTY }));
    assert_eq!(fionbio_result(reply(0, 0)), Ok(()));
    // A stale `errno` is not an error, and neither is any return value but -1.
    assert_eq!(fionbio_result(reply(0, EBADF)), Ok(()));
    assert_eq!(fionbio_result(reply(1, EBADF)), Ok(()));
    assert_eq!(fionbio_result(reply(-2, EBADF)), Ok(()));
    assert_eq!(fionbio_result(reply(i32::MIN, EBADF)), Ok(()));
}

#[test]
fn set_nonblocking_makes_one_call() {
    for nonblocking in [true, false] {
        let calls = RefCell::new(Vec::new());
        let done = set_nonblocking(7, nonblocking, |call| {
            calls.borrow_mut().push(call);
            reply(0, 0)
        });
        assert_eq!(done, Ok(()));
        assert_eq!(calls.into_inner(), vec![fionbio(7, nonblocking)]);
    }
}

#[test]
fn set_nonblocking_reports_the_error_of_the_call() {
    let calls = RefCell::new(Vec::new());
    let done = set_nonblocking(9, true, |call| {
        calls.borrow_mut().push(call);
        reply(-1, EBADF)
    });
    assert_eq!(done, Err(OsError { code: EBADF }));
    // Nothing is tried again.
    assert_eq!(calls.into_inner(), vec![Syscall::Fionbio { fd: 9, value: 1 }]);
}

#[test]
fn set_nonblocking_names_the_end() {
    let asked = |call: Syscall| match call {
        Syscall::Fionbio { fd, value } => reply(fd, value),
        _ => reply(-1, 0),
    };
    // The reply echoes the request: a descriptor of -1 then reads as a failure
    // whose error is the value that was asked for.
    let sender = Sender::from_raw(-1);
    assert_eq!(sender.set_nonblocking(true, asked), Err(OsError { code: 1 }));
    assert_eq!(sender.set_nonblocking(false, asked), Err(OsError { code: 0 }));
    let receiver = Receiver::from_raw(-1);
    assert_eq!(receiver.set_nonblocking(true, asked), Err(OsError { code: 1 }));
    assert_eq!(receiver.set_nonblocking(false, asked), Err(OsError { code: 0 }));

    let calls = RefCell::new(Vec::new());
    let record = |call: Syscall| {
        calls.borrow_mut().push(call);
        reply(0, 0)
    };
    assert_eq!(Sender::from_raw(11).set_nonblocking(true, &record), Ok(()));
    assert_eq!(Receiver::from_raw(12).set_nonblocking(false, &record), Ok(()));
    assert_eq!(
        calls.into_inner(),
        vec![Syscall::Fionbio { fd: 11, value: 1 }, Syscall::Fionbio { fd: 12, value: 0 }]
    );
}
