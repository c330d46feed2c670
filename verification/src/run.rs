//! Whole runs of the creation of a pipe: what a sequence of replies leads to.
//!
//! [`Setup::resume`](crate::setup::Setup::resume) is specified one reply at a
//! time. The functions here put the steps together, and the lemmas state of
//! every run what the single step cannot show: that a pipe is handed out only
//! with every flag set, and that a failure leaves no descriptor open.

use vstd::prelude::*;
use crate::os::{OsError, Reply, Syscall};
use crate::platform::Platform;
use crate::setup::{cleanup_calls, config_calls, first_step, Phase, StepView};

verus! {

/// What is to be done on `platform` once the first `count` of `replies` are
/// in. A run that is over stays over: further replies change nothing.
pub open spec fn step_after(platform: Platform, replies: Seq<Reply>, count: int) -> StepView
    decreases count,
{
    if count <= 0 {
        first_step(platform)
    } else {
        match step_after(platform, replies, count - 1) {
            StepView::Call { then, .. } => then.on_reply(replies[count - 1]),
            StepView::Done(result) => StepView::Done(result),
        }
    }
}

/// The calls that were asked for, in order, before reply number `count` came
/// in.
pub open spec fn calls_before(platform: Platform, replies: Seq<Reply>, count: int) -> Seq<Syscall>
    decreases count,
{
    if count <= 0 {
        Seq::empty()
    } else {
        let earlier = calls_before(platform, replies, count - 1);
        match step_after(platform, replies, count - 1) {
            StepView::Call { call, .. } => earlier.push(call),
            StepView::Done(_) => earlier,
        }
    }
}

/// The calls that creating a pipe on `platform` asks for, in order, when the
/// operating system answers them by `replies`. The sequence ends where the run
/// does, or with the call that no reply is left for.
pub open spec fn calls(platform: Platform, replies: Seq<Reply>) -> Seq<Syscall> {
    calls_before(platform, replies, replies.len() as int + 1)
}

/// How creating a pipe on `platform` ends when the operating system answers
/// the calls by `replies`: with the descriptors of the sending and of the
/// receiving end, with an error, or not yet (`None`).
pub open spec fn outcome(platform: Platform, replies: Seq<Reply>) -> Option<
    Result<(i32, i32), OsError>,
> {
    match step_after(platform, replies, replies.len() as int) {
        StepView::Call { .. } => None,
        StepView::Done(result) => Some(result),
    }
}

/// The number of calls that it takes to create a pipe on `platform` when none
/// of them fails: one where `pipe2(2)` exists, and elsewhere `pipe(2)` and the
/// four calls of [`config_calls`].
pub open spec fn calls_to_create(platform: Platform) -> int {
    if platform.has_pipe2() {
        1
    } else {
        5
    }
}

/// The first `count` replies all report success.
pub open spec fn all_succeed(replies: Seq<Reply>, count: int) -> bool {
    count <= replies.len() && forall|i: int| 0 <= i < count ==> (#[trigger] replies[i]).ret == 0
}

/// Reply number `at` is the first that reports a failure.
pub open spec fn first_failure(replies: Seq<Reply>, at: int) -> bool {
    all_succeed(replies, at) && at < replies.len() && replies[at].ret != 0
}

/// A run that is over stays over: the replies that come after its end change
/// neither how it ended nor what was asked for.
pub proof fn lemma_over_stays_over(platform: Platform, replies: Seq<Reply>, end: int, later: int)
    requires
        step_after(platform, replies, end) is Done,
        0 <= end <= later,
    ensures
        step_after(platform, replies, later) == step_after(platform, replies, end),
        calls_before(platform, replies, later) == calls_before(platform, replies, end),
        calls_before(platform, replies, later + 1) == calls_before(platform, replies, end),
    decreases later - end,
{
    if end < later {
        lemma_over_stays_over(platform, replies, end, later - 1);
    }
}

/// What is to be done after `count` replies depends on those replies only, and
/// so do the calls that were asked for up to then.
pub proof fn lemma_later_replies_do_not_matter(
    platform: Platform,
    replies: Seq<Reply>,
    others: Seq<Reply>,
    count: int,
)
    requires
        0 <= count <= replies.len(),
        count <= others.len(),
        forall|i: int| 0 <= i < count ==> replies[i] == others[i],
    ensures
        step_after(platform, replies, count) == step_after(platform, others, count),
        calls_before(platform, replies, count + 1) == calls_before(platform, others, count + 1),
    decreases count,
{
    reveal_with_fuel(calls_before, 2);
    if count > 0 {
        lemma_later_replies_do_not_matter(platform, replies, others, count - 1);
    }
}

/// With `pipe2(2)` a run is one call. The pipe it creates is non-blocking and
/// close-on-exec from the start; what the call stored first becomes the
/// receiving end and what it stored second the sending end. If the call fails
/// the run ends with its error.
pub proof fn lemma_run_with_pipe2(platform: Platform, replies: Seq<Reply>)
    requires
        platform.has_pipe2(),
        replies.len() >= 1,
    ensures
        calls(platform, replies) == seq![Syscall::Pipe2 { nonblocking: true, close_on_exec: true }],
        replies[0].ret == 0 ==> outcome(platform, replies) == Some(
            Ok::<(i32, i32), OsError>((replies[0].fds[1], replies[0].fds[0])),
        ),
        replies[0].ret != 0 ==> outcome(platform, replies) == Some(
            Err::<(i32, i32), OsError>(OsError { code: replies[0].errno }),
        ),
{
    reveal_with_fuel(step_after, 2);
    reveal_with_fuel(calls_before, 2);
    lemma_over_stays_over(platform, replies, 1, replies.len() as int);
    assert(calls_before(platform, replies, 1) =~= seq![
        Syscall::Pipe2 { nonblocking: true, close_on_exec: true },
    ]);
}

/// Without `pipe2(2)`, as long as nothing fails the flags are set one after
/// the other: once `pipe(2)` and the calls for the first `set` flags have
/// succeeded, the call for flag number `set` is in flight.
proof fn lemma_flags_so_far(platform: Platform, replies: Seq<Reply>, set: int)
    requires
        !platform.has_pipe2(),
        0 <= set < 4,
        all_succeed(replies, set + 1),
    ensures
        step_after(platform, replies, set + 1) == (StepView::Call {
            call: config_calls(replies[0].fds[0], replies[0].fds[1])[set],
            then: Phase::Configuring {
                reader: replies[0].fds[0],
                writer: replies[0].fds[1],
                index: set as u8,
            },
        }),
        calls_before(platform, replies, set + 1) == seq![Syscall::Pipe] + config_calls(
            replies[0].fds[0],
            replies[0].fds[1],
        ).take(set),
    decreases set,
{
    let flags = config_calls(replies[0].fds[0], replies[0].fds[1]);
    if set == 0 {
        reveal_with_fuel(step_after, 2);
        reveal_with_fuel(calls_before, 2);
        assert(calls_before(platform, replies, 1) =~= seq![Syscall::Pipe] + flags.take(0));
    } else {
        lemma_flags_so_far(platform, replies, set - 1);
        assert(calls_before(platform, replies, set + 1) =~= seq![Syscall::Pipe] + flags.take(
            set,
        ));
    }
}

/// Without `pipe2(2)`, a pipe is handed out only after `pipe(2)` and every
/// call that sets a flag have succeeded: the run makes exactly these five
/// calls, and what `pipe(2)` stored first becomes the receiving end and what
/// it stored second the sending end.
pub proof fn lemma_run_without_failure(platform: Platform, replies: Seq<Reply>)
    requires
        !platform.has_pipe2(),
        all_succeed(replies, calls_to_create(platform)),
    ensures
        calls(platform, replies) == seq![Syscall::Pipe] + config_calls(
            replies[0].fds[0],
            replies[0].fds[1],
        ),
        outcome(platform, replies) == Some(
            Ok::<(i32, i32), OsError>((replies[0].fds[1], replies[0].fds[0])),
        ),
{
    let flags = config_calls(replies[0].fds[0], replies[0].fds[1]);
    lemma_flags_so_far(platform, replies, 3);
    lemma_over_stays_over(platform, replies, 5, replies.len() as int);
    assert(calls_before(platform, replies, 5) =~= seq![Syscall::Pipe] + flags);
}

/// Without `pipe2(2)`, a run in which `pipe(2)` fails ends there, with the
/// error of that call: there is no descriptor to close.
pub proof fn lemma_run_without_pipe(platform: Platform, replies: Seq<Reply>)
    requires
        !platform.has_pipe2(),
        first_failure(replies, 0),
    ensures
        calls(platform, replies) == seq![Syscall::Pipe],
        outcome(platform, replies) == Some(
            Err::<(i32, i32), OsError>(OsError { code: replies[0].errno }),
        ),
{
    reveal_with_fuel(step_after, 2);
    reveal_with_fuel(calls_before, 2);
    lemma_over_stays_over(platform, replies, 1, replies.len() as int);
    assert(calls_before(platform, replies, 1) =~= seq![Syscall::Pipe]);
}

/// Without `pipe2(2)`, a failure leaves no descriptor open. If the call that
/// sets flag number `flag` is the first to fail, no further flag is set, both
/// ends of the pipe are closed, and then the run ends with the error of the
/// call that failed, whatever the two closing calls returned.
pub proof fn lemma_run_with_failure(platform: Platform, replies: Seq<Reply>, flag: int)
    requires
        !platform.has_pipe2(),
        0 <= flag < 4,
        first_failure(replies, flag + 1),
        replies.len() >= flag + 4,
    ensures
        calls(platform, replies) == seq![Syscall::Pipe] + config_calls(
            replies[0].fds[0],
            replies[0].fds[1],
        ).take(flag + 1) + cleanup_calls(replies[0].fds[0], replies[0].fds[1]),
        outcome(platform, replies) == Some(
            Err::<(i32, i32), OsError>(OsError { code: replies[flag + 1].errno }),
        ),
{
    let reader = replies[0].fds[0];
    let writer = replies[0].fds[1];
    let error = OsError { code: replies[flag + 1].errno };
    let failed = flag + 1;
    lemma_flags_so_far(platform, replies, flag);
    assert(step_after(platform, replies, failed + 1) == StepView::Call {
        call: Syscall::Close { fd: reader },
        then: Phase::Closing { reader, writer, error, index: 0 },
    });
    assert(step_after(platform, replies, failed + 2) == StepView::Call {
        call: Syscall::Close { fd: writer },
        then: Phase::Closing { reader, writer, error, index: 1 },
    });
    assert(step_after(platform, replies, failed + 3) == StepView::Done(Err(error)));
    lemma_over_stays_over(platform, replies, failed + 3, replies.len() as int);
    assert(calls_before(platform, replies, failed + 1) =~= seq![Syscall::Pipe] + config_calls(
        reader,
        writer,
    ).take(flag + 1));
    assert(calls_before(platform, replies, failed + 2) =~= calls_before(
        platform,
        replies,
        failed + 1,
    ).push(Syscall::Close { fd: reader }));
    assert(calls_before(platform, replies, failed + 3) =~= seq![Syscall::Pipe] + config_calls(
        reader,
        writer,
    ).take(flag + 1) + cleanup_calls(reader, writer));
}

/// Every run is short: it asks for at most seven calls, and it is over once
/// seven replies are in.
pub proof fn lemma_run_is_short(platform: Platform, replies: Seq<Reply>)
    ensures
        1 <= calls(platform, replies).len() <= 7,
        replies.len() >= 7 ==> outcome(platform, replies) is Some,
{
    reveal_with_fuel(step_after, 8);
    reveal_with_fuel(calls_before, 9);
    if replies.len() >= 7 {
        lemma_over_stays_over(platform, replies, 7, replies.len() as int);
    }
}

/// A pipe is handed out only if no call failed. A run that ends with a pipe
/// made exactly the calls that create and configure it, closed nothing, and
/// hands out what the creating call stored: first the receiving end, second the
/// sending end.
pub proof fn lemma_pipe_means_no_failure(platform: Platform, replies: Seq<Reply>)
    requires
        outcome(platform, replies) matches Some(Ok(_)),
    ensures
        all_succeed(replies, calls_to_create(platform)),
        outcome(platform, replies) == Some(
            Ok::<(i32, i32), OsError>((replies[0].fds[1], replies[0].fds[0])),
        ),
        calls(platform, replies).len() == calls_to_create(platform),
        forall|i: int|
            0 <= i < calls(platform, replies).len() ==> !(#[trigger] calls(platform, replies)[i]
                is Close),
{
    let at = lemma_first_failure_or_none(platform, replies);
    if platform.has_pipe2() {
        lemma_run_with_pipe2(platform, replies);
    } else if at == 0 {
        lemma_run_without_pipe(platform, replies);
    } else if at < 5 {
        lemma_run_with_failure(platform, replies, at - 1);
    } else {
        lemma_run_without_failure(platform, replies);
    }
}

/// A run ends with an error only if a call that creates or configures the pipe
/// failed, and the error is that of the first such call, reply number `at`. If
/// the pipe existed by then, the last two calls of the run close its two ends.
pub proof fn lemma_error_means_failure(platform: Platform, replies: Seq<Reply>) -> (at: int)
    requires
        outcome(platform, replies) matches Some(Err(_)),
    ensures
        0 <= at < calls_to_create(platform),
        first_failure(replies, at),
        outcome(platform, replies) == Some(
            Err::<(i32, i32), OsError>(OsError { code: replies[at].errno }),
        ),
        at == 0 ==> calls(platform, replies).len() == 1,
        at > 0 ==> calls(platform, replies) == seq![Syscall::Pipe] + config_calls(
            replies[0].fds[0],
            replies[0].fds[1],
        ).take(at) + cleanup_calls(replies[0].fds[0], replies[0].fds[1]),
{
    let at = lemma_first_failure_or_none(platform, replies);
    if platform.has_pipe2() {
        lemma_run_with_pipe2(platform, replies);
    } else if at == 0 {
        lemma_run_without_pipe(platform, replies);
    } else if at < 5 {
        lemma_run_with_failure(platform, replies, at - 1);
    } else {
        lemma_run_without_failure(platform, replies);
    }
    at
}

/// A run that is over has seen a first failure among the calls that create the
/// pipe, with the replies to the two closing calls after it where the pipe
/// existed, or has seen all of those calls succeed. The result is the number
/// of the first failure, or the number of calls that create the pipe.
proof fn lemma_first_failure_or_none(platform: Platform, replies: Seq<Reply>) -> (at: int)
    requires
        outcome(platform, replies) is Some,
    ensures
        0 <= at <= calls_to_create(platform),
        at < calls_to_create(platform) ==> first_failure(replies, at),
        0 < at < calls_to_create(platform) ==> replies.len() >= at + 3,
        at == calls_to_create(platform) ==> all_succeed(replies, at),
{
    reveal_with_fuel(step_after, 8);
    let len = replies.len();
    let at: int = if replies[0].ret != 0 {
        0
    } else if platform.has_pipe2() {
        1
    } else if len >= 2 && replies[1].ret != 0 {
        1
    } else if len >= 3 && replies[2].ret != 0 {
        2
    } else if len >= 4 && replies[3].ret != 0 {
        3
    } else if len >= 5 && replies[4].ret != 0 {
        4
    } else {
        5
    };
    at
}

} // verus!
