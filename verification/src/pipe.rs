//! Creating a pipe in one go, given a function that performs system calls.

use vstd::prelude::*;
use crate::endpoint::{Receiver, Sender};
use crate::os::{OsError, Reply, Syscall};
use crate::platform::Platform;
use crate::run::{lemma_later_replies_do_not_matter, outcome, step_after};
use crate::setup::{descriptors, Phase, Setup, Step, StepView};

verus! {

/// `replies` are what `perform` answered in a run on `platform`: each reply is
/// an answer of `perform` to the call that the run asked for at that point,
/// and the run was not over before the last of them.
pub open spec fn answered<F: Fn(Syscall) -> Reply>(
    perform: F,
    platform: Platform,
    replies: Seq<Reply>,
) -> bool {
    forall|i: int|
        0 <= i < replies.len() ==> match #[trigger] step_after(platform, replies, i) {
            StepView::Call { call, .. } => call_ensures(perform, (call,), replies[i]),
            StepView::Done(_) => false,
        }
}

/// The number of calls that a run may still ask for when it is about to do
/// `step`.
spec fn calls_left(step: StepView) -> int {
    match step {
        StepView::Done(_) => 0,
        StepView::Call { then: Phase::Creating { .. }, .. } => 7,
        StepView::Call { then: Phase::Configuring { index, .. }, .. } => 6 - index,
        StepView::Call { then: Phase::Closing { index, .. }, .. } => 2 - index,
    }
}

/// Create a new non-blocking Unix pipe on `platform`.
///
/// This wraps Unix's `pipe(2)` system call; the pipe can be used as a channel
/// between processes or threads. It may be created before the process forks,
/// with one end used on each side.
///
/// `perform` is called for every system call that is needed, and nothing else
/// is done with it. The result is the outcome of the run that its replies make
/// (see [`outcome`] and the lemmas beside it): the two ends of the pipe, both
/// non-blocking and close-on-exec, or the error of the first call that failed.
/// Where a call fails after the pipe exists, both ends are closed again before
/// the error is returned. A call that failed is not tried again.
///
/// # Events
///
/// The [`Sender`] can be registered with Mio for writable events and the
/// [`Receiver`] for readable events, each by its raw descriptor. Once bytes
/// are written to the `Sender`, the `Receiver` gets a readable event.
///
/// Events also come when the other end is closed, but platforms differ in
/// which. To learn that the `Sender` is gone, check both `is_error` and
/// `is_read_closed` on the events of the `Receiver`: if either is true, the
/// `Sender` was closed. On the `Sender`, check `is_error` and
/// `is_write_closed` in the same way. Neither flag is reliable by itself
/// everywhere.
pub fn new_pipe<F: Fn(Syscall) -> Reply>(platform: Platform, perform: F) -> (created: Result<
    (Sender, Receiver),
    OsError,
>)
    requires
        forall|call: Syscall| !(call is Fionbio) ==> call_requires(perform, (call,)),
    ensures
        exists|replies: Seq<Reply>|
            #[trigger] answered(perform, platform, replies) && outcome(platform, replies) == Some(
                descriptors(created),
            ),
{
    let mut step = Setup::begin(platform);
    let ghost mut replies: Seq<Reply> = Seq::empty();
    loop
        invariant
            forall|call: Syscall| !(call is Fionbio) ==> call_requires(perform, (call,)),
            step@ == step_after(platform, replies, replies.len() as int),
            answered(perform, platform, replies),
            step@ matches StepView::Call { call, .. } ==> !(call is Fionbio),
        decreases calls_left(step@),
    {
        match step {
            Step::Done(created) => {
                return created;
            },
            Step::Call { call, then } => {
                let reply = perform(call);
                let ghost before = replies;
                proof {
                    replies = before.push(reply);
                    assert forall|i: int| 0 <= i <= before.len() implies step_after(
                        platform,
                        replies,
                        i,
                    ) == step_after(platform, before, i) by {
                        lemma_later_replies_do_not_matter(platform, replies, before, i);
                    }
                }
                step = then.resume(reply);
            },
        }
    }
}

} // verus!
