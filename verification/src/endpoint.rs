//! The two ends of a pipe.

use vstd::prelude::*;
use crate::os::{OsError, Reply, Syscall};

verus! {

/// Sending end of a Unix pipe.
///
/// A `Sender` stands for exactly one open descriptor, its view. It is neither
/// `Clone` nor `Copy`: whoever holds the value is the one owner of the
/// descriptor, until [`Sender::into_raw_fd`] hands the descriptor out.
///
/// This crate makes no system call, so dropping a `Sender` closes nothing. The
/// owner takes the descriptor out with [`Sender::into_raw_fd`] and closes it,
/// or hands it to a type that does so when dropped.
///
/// See [`new_pipe`](crate::new_pipe) for how a pipe is created.
#[derive(Debug)]
pub struct Sender {
    fd: i32,
}

impl View for Sender {
    type V = i32;

    closed spec fn view(&self) -> i32 {
        self.fd
    }
}

impl Sender {
    /// The sending end that stands for `fd`.
    pub closed spec fn spec_from_raw(fd: i32) -> Sender {
        Sender { fd }
    }

    /// The descriptor that `self` stands for.
    pub open spec fn spec_into_raw_fd(self) -> i32 {
        self@
    }

    /// Takes ownership of `fd`. Nothing is checked: that `fd` is open, the
    /// writing end of a pipe and owned by nobody else is for the caller to
    /// know.
    #[verifier::when_used_as_spec(spec_from_raw)]
    pub fn from_raw(fd: i32) -> (sender: Sender)
        ensures
            sender == Sender::spec_from_raw(fd),
            sender@ == fd,
    {
        Sender { fd }
    }

    /// The descriptor, which stays owned by `self`. The caller must not close
    /// it, and may use it only as long as `self` lives.
    pub fn as_raw_fd(&self) -> (fd: i32)
        ensures
            fd == self@,
    {
        self.fd
    }

    /// Gives up ownership of the descriptor without closing it: closing it is
    /// the caller's business from here on.
    #[verifier::when_used_as_spec(spec_into_raw_fd)]
    pub fn into_raw_fd(self) -> (fd: i32)
        ensures
            fd == self@,
    {
        self.fd
    }

    /// Switches non-blocking mode on or off for this end, which changes
    /// nothing about the end itself. See [`set_nonblocking`].
    pub fn set_nonblocking<F: Fn(Syscall) -> Reply>(&self, nonblocking: bool, perform: F) -> (done:
        Result<(), OsError>)
        requires
            call_requires(perform, (fionbio(self@, nonblocking),)),
        ensures
            exists|reply: Reply| #[trigger]
                call_ensures(perform, (fionbio(self@, nonblocking),), reply) && done
                    == fionbio_result(reply),
    {
        set_nonblocking(self.fd, nonblocking, perform)
    }

    /// Does nothing and succeeds: a pipe keeps no bytes back on the sending
    /// side, so there is never anything to flush and no call to make.
    pub fn flush(&mut self) -> (done: Result<(), OsError>)
        ensures
            done is Ok,
            *final(self) == *old(self),
    {
        Ok(())
    }
}

/// Receiving end of a Unix pipe.
///
/// A `Receiver` stands for exactly one open descriptor, its view. It is
/// neither `Clone` nor `Copy`: whoever holds the value is the one owner of the
/// descriptor, until [`Receiver::into_raw_fd`] hands the descriptor out.
///
/// This crate makes no system call, so dropping a `Receiver` closes nothing.
/// The owner takes the descriptor out with [`Receiver::into_raw_fd`] and
/// closes it, or hands it to a type that does so when dropped.
///
/// See [`new_pipe`](crate::new_pipe) for how a pipe is created.
#[derive(Debug)]
pub struct Receiver {
    fd: i32,
}

impl View for Receiver {
    type V = i32;

    closed spec fn view(&self) -> i32 {
        self.fd
    }
}

impl Receiver {
    /// The receiving end that stands for `fd`.
    pub closed spec fn spec_from_raw(fd: i32) -> Receiver {
        Receiver { fd }
    }

    /// The descriptor that `self` stands for.
    pub open spec fn spec_into_raw_fd(self) -> i32 {
        self@
    }

    /// Takes ownership of `fd`. Nothing is checked: that `fd` is open, the
    /// reading end of a pipe and owned by nobody else is for the caller to
    /// know.
    #[verifier::when_used_as_spec(spec_from_raw)]
    pub fn from_raw(fd: i32) -> (receiver: Receiver)
        ensures
            receiver == Receiver::spec_from_raw(fd),
            receiver@ == fd,
    {
        Receiver { fd }
    }

    /// The descriptor, which stays owned by `self`. The caller must not close
    /// it, and may use it only as long as `self` lives.
    pub fn as_raw_fd(&self) -> (fd: i32)
        ensures
            fd == self@,
    {
        self.fd
    }

    /// Gives up ownership of the descriptor without closing it: closing it is
    /// the caller's business from here on.
    #[verifier::when_used_as_spec(spec_into_raw_fd)]
    pub fn into_raw_fd(self) -> (fd: i32)
        ensures
            fd == self@,
    {
        self.fd
    }

    /// Switches non-blocking mode on or off for this end, which changes
    /// nothing about the end itself. See [`set_nonblocking`].
    pub fn set_nonblocking<F: Fn(Syscall) -> Reply>(&self, nonblocking: bool, perform: F) -> (done:
        Result<(), OsError>)
        requires
            call_requires(perform, (fionbio(self@, nonblocking),)),
        ensures
            exists|reply: Reply| #[trigger]
                call_ensures(perform, (fionbio(self@, nonblocking),), reply) && done
                    == fionbio_result(reply),
    {
        set_nonblocking(self.fd, nonblocking, perform)
    }
}

/// The `FIONBIO` request on `fd`: its argument is 1 to switch non-blocking
/// mode on and 0 to switch it off.
pub open spec fn spec_fionbio(fd: i32, nonblocking: bool) -> Syscall {
    Syscall::Fionbio {
        fd,
        value: if nonblocking {
            1i32
        } else {
            0i32
        },
    }
}

/// The `FIONBIO` request on `fd`: its argument is 1 to switch non-blocking
/// mode on and 0 to switch it off.
#[verifier::when_used_as_spec(spec_fionbio)]
pub fn fionbio(fd: i32, nonblocking: bool) -> (call: Syscall)
    ensures
        call == spec_fionbio(fd, nonblocking),
{
    let value: i32 = if nonblocking {
        1
    } else {
        0
    };
    Syscall::Fionbio { fd, value }
}

/// What the reply to a `FIONBIO` request means: the request failed if and only
/// if the call returned -1, and the error is then the reply's `errno`.
pub open spec fn spec_fionbio_result(reply: Reply) -> Result<(), OsError> {
    if reply.ret == -1 {
        Err(OsError { code: reply.errno })
    } else {
        Ok(())
    }
}

/// What the reply to a `FIONBIO` request means: the request failed if and only
/// if the call returned -1, and the error is then the reply's `errno`.
#[verifier::when_used_as_spec(spec_fionbio_result)]
pub fn fionbio_result(reply: Reply) -> (done: Result<(), OsError>)
    ensures
        done == spec_fionbio_result(reply),
{
    if reply.ret == -1 {
        Err(OsError { code: reply.errno })
    } else {
        Ok(())
    }
}

/// Switches non-blocking mode on or off for `fd`.
///
/// `perform` is called once, with the request [`fionbio`]`(fd, nonblocking)`,
/// and the result is what [`fionbio_result`] makes of its reply. Nothing is
/// tried again.
pub fn set_nonblocking<F: Fn(Syscall) -> Reply>(fd: i32, nonblocking: bool, perform: F) -> (done:
    Result<(), OsError>)
    requires
        call_requires(perform, (fionbio(fd, nonblocking),)),
    ensures
        exists|reply: Reply| #[trigger]
            call_ensures(perform, (fionbio(fd, nonblocking),), reply) && done == fionbio_result(
                reply,
            ),
{
    let reply = perform(fionbio(fd, nonblocking));
    fionbio_result(reply)
}

/// Taking an end apart into its descriptor and rebuilding it from that
/// descriptor gives the same end back, and the other way round: an end is its
/// descriptor and nothing else.
pub proof fn lemma_raw_round_trip(sender: Sender, receiver: Receiver, fd: i32)
    ensures
        Sender::from_raw(sender.into_raw_fd()) == sender,
        Sender::from_raw(fd).into_raw_fd() == fd,
        Receiver::from_raw(receiver.into_raw_fd()) == receiver,
        Receiver::from_raw(fd).into_raw_fd() == fd,
{
}

} // verus!
