//! The vocabulary shared with the operating system: the calls this crate asks
//! for, the replies it is given, and the error it reports.

use vstd::prelude::*;

verus! {

/// A failed operating-system call, identified by the error code (`errno`) that
/// the call left behind.
#[derive(Clone, Copy, Debug, PartialEq, Eq)]
pub struct OsError {
    /// The platform's error code.
    pub code: i32,
}

/// A system call that the caller is asked to perform.
#[derive(Clone, Copy, Debug, PartialEq, Eq)]
pub enum Syscall {
    /// `pipe2(fds, flags)`, where `flags` holds `O_NONBLOCK` if `nonblocking`
    /// and `O_CLOEXEC` if `close_on_exec`.
    Pipe2 { nonblocking: bool, close_on_exec: bool },
    /// `pipe(fds)`.
    Pipe,
    /// `fcntl(fd, F_SETFL, O_NONBLOCK)`.
    SetNonblocking { fd: i32 },
    /// `fcntl(fd, F_SETFD, FD_CLOEXEC)`.
    SetCloseOnExec { fd: i32 },
    /// `close(fd)`.
    Close { fd: i32 },
    /// `ioctl(fd, FIONBIO, &value)`.
    Fionbio { fd: i32, value: i32 },
}

/// What the operating system answered to a [`Syscall`].
#[derive(Clone, Copy, Debug, PartialEq, Eq)]
pub struct Reply {
    /// The value that the call returned.
    pub ret: i32,
    /// The value of `errno` right after the call. It is read only where `ret`
    /// reports a failure.
    pub errno: i32,
    /// The descriptor array that was handed to `pipe` or `pipe2`, as the call
    /// left it. It is read only after one of those two calls.
    pub fds: [i32; 2],
}

} // verus!
