//! The descriptor-level core of a non-blocking Unix pipe for use with Mio.
//!
//! A pipe has two ends: a [`Sender`] that bytes are written to and a
//! [`Receiver`] that they are read from. This crate holds everything about
//! such a pipe that can be decided without touching the operating system:
//! which system calls create it, in which order, what is done when one of them
//! fails, and which descriptor becomes which end.
//!
//! The crate makes no system call itself. It names each call as a
//! [`Syscall`]; the caller performs it and hands back what the operating
//! system answered as a [`Reply`]. There are two ways to do so:
//!
//! * [`new_pipe`] takes a function that performs calls and runs the whole
//!   creation with it.
//! * [`Setup::begin`] and [`Setup::resume`] go one call at a time, for a
//!   caller that wants to keep control between the calls.
//!
//! ```no_run
//! use mio_pipe::{new_pipe, Platform, Reply, Syscall};
//!
//! fn perform(call: Syscall) -> Reply {
//!     // Make the system call that `call` names and report its result.
//!     # let _ = call;
//!     # Reply { ret: -1, errno: 38, fds: [-1, -1] }
//! }
//!
//! match new_pipe(Platform::Linux, perform) {
//!     Ok((sender, receiver)) => {
//!         // Both descriptors are open, non-blocking and close-on-exec.
//!         println!("write to {}, read from {}", sender.as_raw_fd(), receiver.as_raw_fd());
//!     }
//!     Err(error) => println!("no pipe: errno {}", error.code),
//! }
//! ```
//!
//! ## Supported platforms
//!
//! * Android
//! * DragonFly BSD
//! * FreeBSD
//! * Linux
//! * NetBSD
//! * OpenBSD
//! * iOS
//! * macOS
//! * Solaris
//!
//! The most notable exception in the list is Windows.

pub mod endpoint;
pub mod os;
pub mod pipe;
pub mod platform;
pub mod run;
pub mod setup;

pub use endpoint::{fionbio, fionbio_result, set_nonblocking, Receiver, Sender};
pub use os::{OsError, Reply, Syscall};
pub use pipe::new_pipe;
pub use platform::Platform;
pub use setup::{Phase, Setup, Step, StepView};
