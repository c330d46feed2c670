//! Creating a pipe, one system call at a time.
//!
//! [`Setup::begin`] names the first call. Each reply goes to
//! [`Setup::resume`], which names the next call or ends the run with the two
//! ends of the pipe or with an error.

use vstd::prelude::*;
use crate::endpoint::{Receiver, Sender};
use crate::os::{OsError, Reply, Syscall};
use crate::platform::Platform;

verus! {

/// The calls that make both ends of a freshly created pipe non-blocking and
/// close-on-exec, in the order in which they are made: first the reading end
/// `reader`, then the writing end `writer`.
pub open spec fn config_calls(reader: i32, writer: i32) -> Seq<Syscall> {
    seq![
        Syscall::SetNonblocking { fd: reader },
        Syscall::SetCloseOnExec { fd: reader },
        Syscall::SetNonblocking { fd: writer },
        Syscall::SetCloseOnExec { fd: writer },
    ]
}

/// The calls that give both ends of a pipe back to the operating system, in
/// the order in which they are made.
pub open spec fn cleanup_calls(reader: i32, writer: i32) -> Seq<Syscall> {
    seq![Syscall::Close { fd: reader }, Syscall::Close { fd: writer }]
}

/// How far the creation of a pipe has come: which call is in flight.
#[derive(Clone, Copy, Debug, PartialEq, Eq)]
pub enum Phase {
    /// The call that creates the pipe is in flight. `with_flags` tells whether
    /// that call also sets the flags of both ends.
    Creating { with_flags: bool },
    /// The pipe exists and call number `index` of [`config_calls`] is in
    /// flight; those before it succeeded.
    Configuring { reader: i32, writer: i32, index: u8 },
    /// A call of [`config_calls`] failed with `error`, and call number `index`
    /// of [`cleanup_calls`] is in flight.
    Closing { reader: i32, writer: i32, error: OsError, index: u8 },
}

/// What is to be done next, as a plain value: the view of a [`Step`].
pub enum StepView {
    /// `call` is to be performed; its reply is awaited in phase `then`.
    Call { call: Syscall, then: Phase },
    /// The run is over: with the descriptors of the sending and of the
    /// receiving end, in this order, or with the error of the call that failed.
    Done(Result<(i32, i32), OsError>),
}

impl Phase {
    /// What follows when the call in flight is answered by `reply`.
    ///
    /// A call failed if it did not return 0. While the pipe is created and
    /// configured, the first failure decides the error of the run. If the
    /// pipe exists by then, both its ends are closed before the error is
    /// reported; what the closing calls return is not looked at.
    pub open spec fn on_reply(self, reply: Reply) -> StepView {
        match self {
            Phase::Creating { with_flags } => {
                let reader = reply.fds[0];
                let writer = reply.fds[1];
                if reply.ret != 0 {
                    StepView::Done(Err(OsError { code: reply.errno }))
                } else if with_flags {
                    StepView::Done(Ok((writer, reader)))
                } else {
                    StepView::Call {
                        call: config_calls(reader, writer)[0],
                        then: Phase::Configuring { reader, writer, index: 0 },
                    }
                }
            },
            Phase::Configuring { reader, writer, index } => {
                if reply.ret != 0 {
                    StepView::Call {
                        call: cleanup_calls(reader, writer)[0],
                        then: Phase::Closing {
                            reader,
                            writer,
                            error: OsError { code: reply.errno },
                            index: 0,
                        },
                    }
                } else if index + 1 < config_calls(reader, writer).len() {
                    StepView::Call {
                        call: config_calls(reader, writer)[index + 1],
                        then: Phase::Configuring { reader, writer, index: (index + 1) as u8 },
                    }
                } else {
                    StepView::Done(Ok((writer, reader)))
                }
            },
            Phase::Closing { reader, writer, error, index } => {
                if index + 1 < cleanup_calls(reader, writer).len() {
                    StepView::Call {
                        call: cleanup_calls(reader, writer)[index + 1],
                        then: Phase::Closing { reader, writer, error, index: (index + 1) as u8 },
                    }
                } else {
                    StepView::Done(Err(error))
                }
            },
        }
    }
}

/// The first step on `platform`: where `pipe2(2)` exists, one call that
/// creates the pipe non-blocking and close-on-exec; elsewhere `pipe(2)`, after
/// which the flags are set end by end.
pub open spec fn first_step(platform: Platform) -> StepView {
    if platform.has_pipe2() {
        StepView::Call {
            call: Syscall::Pipe2 { nonblocking: true, close_on_exec: true },
            then: Phase::Creating { with_flags: true },
        }
    } else {
        StepView::Call { call: Syscall::Pipe, then: Phase::Creating { with_flags: false } }
    }
}

/// A pipe in the making: the state of a run between two calls.
///
/// A `Setup` comes from [`Setup::begin`] or from [`Setup::resume`] only, so
/// every `Setup` is a state that a run has really reached.
#[derive(Debug)]
pub struct Setup {
    phase: Phase,
}

impl View for Setup {
    type V = Phase;

    closed spec fn view(&self) -> Phase {
        self.phase
    }
}

impl Setup {
    /// Begins the creation of a pipe on `platform`: names the first call.
    pub fn begin(platform: Platform) -> (first: Step)
        ensures
            first@ == first_step(platform),
    {
        if platform.has_pipe2() {
            Step::Call {
                call: Syscall::Pipe2 { nonblocking: true, close_on_exec: true },
                then: Setup { phase: Phase::Creating { with_flags: true } },
            }
        } else {
            Step::Call {
                call: Syscall::Pipe,
                then: Setup { phase: Phase::Creating { with_flags: false } },
            }
        }
    }

    /// Takes the reply to the call in flight and says what is to be done next.
    pub fn resume(self, reply: Reply) -> (next: Step)
        ensures
            next@ == self@.on_reply(reply),
    {
        match self.phase {
            Phase::Creating { with_flags } => {
                if reply.ret != 0 {
                    Step::Done(Err(OsError { code: reply.errno }))
                } else if with_flags {
                    hand_out(reply.fds[0], reply.fds[1])
                } else {
                    configure(reply.fds[0], reply.fds[1], 0)
                }
            },
            Phase::Configuring { reader, writer, index } => {
                if reply.ret != 0 {
                    close(reader, writer, OsError { code: reply.errno }, 0)
                } else if index < 3 {
                    configure(reader, writer, index + 1)
                } else {
                    hand_out(reader, writer)
                }
            },
            Phase::Closing { reader, writer, error, index } => {
                if index < 1 {
                    close(reader, writer, error, index + 1)
                } else {
                    Step::Done(Err(error))
                }
            },
        }
    }
}

/// The step that asks for call number `index` of [`config_calls`].
fn configure(reader: i32, writer: i32, index: u8) -> (step: Step)
    requires
        index < 4,
    ensures
        step@ == (StepView::Call {
            call: config_calls(reader, writer)[index as int],
            then: Phase::Configuring { reader, writer, index },
        }),
{
    let fd: i32 = if index < 2 {
        reader
    } else {
        writer
    };
    let call = if index % 2 == 0 {
        Syscall::SetNonblocking { fd }
    } else {
        Syscall::SetCloseOnExec { fd }
    };
    Step::Call { call, then: Setup { phase: Phase::Configuring { reader, writer, index } } }
}

/// The step that asks for call number `index` of [`cleanup_calls`].
fn close(reader: i32, writer: i32, error: OsError, index: u8) -> (step: Step)
    requires
        index < 2,
    ensures
        step@ == (StepView::Call {
            call: cleanup_calls(reader, writer)[index as int],
            then: Phase::Closing { reader, writer, error, index },
        }),
{
    let fd: i32 = if index == 0 {
        reader
    } else {
        writer
    };
    Step::Call {
        call: Syscall::Close { fd },
        then: Setup { phase: Phase::Closing { reader, writer, error, index } },
    }
}

/// The step that ends a run with the two ends of the pipe.
fn hand_out(reader: i32, writer: i32) -> (step: Step)
    ensures
        step@ == StepView::Done(Ok((writer, reader))),
{
    Step::Done(Ok((Sender::from_raw(writer), Receiver::from_raw(reader))))
}

/// What the caller is to do next.
#[derive(Debug)]
pub enum Step {
    /// Perform `call` and hand its reply to `then.resume(..)`.
    Call { call: Syscall, then: Setup },
    /// The run is over. On success the caller owns both ends of the new pipe;
    /// on failure no descriptor is left open.
    Done(Result<(Sender, Receiver), OsError>),
}

impl View for Step {
    type V = StepView;

    open spec fn view(&self) -> StepView {
        match *self {
            Step::Call { call, then } => StepView::Call { call, then: then@ },
            Step::Done(created) => StepView::Done(descriptors(created)),
        }
    }
}

/// The end of a run as plain values: the descriptors of the sending and of the
/// receiving end, in this order, or the error.
pub open spec fn descriptors(created: Result<(Sender, Receiver), OsError>) -> Result<
    (i32, i32),
    OsError,
> {
    match created {
        Ok((sender, receiver)) => Ok((sender@, receiver@)),
        Err(error) => Err(error),
    }
}

} // verus!
