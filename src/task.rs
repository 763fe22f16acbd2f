//! The guest's task: drain the host's first message, check the second, then
//! wait on a timer.
//!
//! The task is a state machine. Each step names the one host call it awaits;
//! whoever drives the task performs that call and resumes the task with the
//! host's answer. After `TaskPoll::Suspended` the awaited future reported
//! pending: the driver polls again whenever it chooses, since nothing here
//! wakes it.
use vstd::prelude::*;

use crate::channel::{message_rx, ChannelRx};
use crate::host::{ChannelReply, HostCall, HostError, HostReply, Poll, Readiness, MESSAGE_CHANNEL};
use crate::sleep::{sleep, Sleep, TimerError};

verus! {

/// How long the task waits once the second message has been checked.
pub const TIMER_MILLIS: u64 = 3000;

/// The payload the second message must carry, `b"foo"`.
pub open spec fn expected_message() -> Seq<u8> {
    seq![102u8, 111u8, 111u8]
}

/// Why the task failed.
#[derive(Clone, Copy, Debug, PartialEq, Eq, Structural)]
pub enum TaskError {
    /// The second receive did not yield the expected payload (a different
    /// message, or the channel closed).
    UnexpectedMessage,
    /// The timer could not be created.
    TimerCreation(TimerError),
}

/// Where the task stands, with the ids of the resources it holds.
#[derive(Clone, Copy, Debug, PartialEq, Eq, Structural)]
pub enum Phase {
    EnablingTrace,
    AwaitFirstMessage,
    AwaitSecondMessage,
    CreatingTimer,
    AwaitTimer(i32),
    Closing(i32),
    Done,
    Failed(TaskError),
}

/// What one resume of the task reports.
#[derive(Clone, Copy, Debug, PartialEq, Eq, Structural)]
pub enum TaskPoll {
    /// The task went on; it awaits its next call.
    Continue,
    /// The awaited future is pending; the same call is to be polled again.
    Suspended,
    Done,
    Failed(TaskError),
}

/// The host call the task awaits in phase `p`; none once it has ended.
pub open spec fn call_of(p: Phase) -> Option<HostCall> {
    match p {
        Phase::EnablingTrace => Some(HostCall::EnableTrace(true)),
        Phase::AwaitFirstMessage => Some(HostCall::Poll(MESSAGE_CHANNEL)),
        Phase::AwaitSecondMessage => Some(HostCall::Poll(MESSAGE_CHANNEL)),
        Phase::CreatingTimer => Some(HostCall::CreateTimer(TIMER_MILLIS as i32)),
        Phase::AwaitTimer(id) => Some(HostCall::PollRead(id)),
        Phase::Closing(id) => Some(HostCall::Close(id)),
        Phase::Done => None,
        Phase::Failed(_) => None,
    }
}

/// Whether `reply` is the kind of answer the host gives to `call`.
pub open spec fn answers(call: HostCall, reply: HostReply) -> bool {
    match call {
        HostCall::EnableTrace(_) => reply is TraceSet,
        HostCall::CreateTimer(_) => reply is TimerCreated || reply is TimerFailed,
        HostCall::PollRead(_) => reply is Readiness,
        HostCall::Poll(_) => reply is Channel,
        HostCall::Close(_) => reply is Closed,
    }
}

/// Whether `reply` answers the call awaited in phase `p`.
pub open spec fn expects(p: Phase, reply: HostReply) -> bool {
    call_of(p) matches Some(c) && answers(c, reply)
}

/// The phase the task reaches from `p` on the answer `reply`. Tracing is
/// best effort; the first message, whatever it is, is discarded; a pending
/// answer leaves the phase as it is. An answer the phase does not expect
/// leaves it as it is too.
pub open spec fn next_phase(p: Phase, reply: HostReply) -> Phase {
    match (p, reply) {
        (Phase::EnablingTrace, HostReply::TraceSet(_)) => Phase::AwaitFirstMessage,
        (Phase::AwaitFirstMessage, HostReply::Channel(ChannelReply::Pending)) => p,
        (Phase::AwaitFirstMessage, HostReply::Channel(_)) => Phase::AwaitSecondMessage,
        (Phase::AwaitSecondMessage, HostReply::Channel(ChannelReply::Pending)) => p,
        (Phase::AwaitSecondMessage, HostReply::Channel(ChannelReply::Message(m))) => {
            if m@ == expected_message() {
                Phase::CreatingTimer
            } else {
                Phase::Failed(TaskError::UnexpectedMessage)
            }
        },
        (Phase::AwaitSecondMessage, HostReply::Channel(ChannelReply::Closed)) => Phase::Failed(
            TaskError::UnexpectedMessage,
        ),
        (Phase::CreatingTimer, HostReply::TimerCreated(id)) => {
            if id == MESSAGE_CHANNEL {
                Phase::Failed(TaskError::TimerCreation(TimerError::ReservedId))
            } else {
                Phase::AwaitTimer(id)
            }
        },
        (Phase::CreatingTimer, HostReply::TimerFailed(e)) => Phase::Failed(
            TaskError::TimerCreation(TimerError::Host(e)),
        ),
        (Phase::AwaitTimer(id), HostReply::Readiness(Readiness::Ready)) => Phase::Closing(id),
        (Phase::AwaitTimer(_), HostReply::Readiness(Readiness::Pending)) => p,
        (Phase::Closing(_), HostReply::Closed) => Phase::Done,
        _ => p,
    }
}

/// What the resume from `p` on `reply` reports.
pub open spec fn poll_result(p: Phase, reply: HostReply) -> TaskPoll {
    match next_phase(p, reply) {
        Phase::Done => TaskPoll::Done,
        Phase::Failed(e) => TaskPoll::Failed(e),
        _ => {
            if reply == HostReply::Channel(ChannelReply::Pending) || reply == HostReply::Readiness(
                Readiness::Pending,
            ) {
                TaskPoll::Suspended
            } else {
                TaskPoll::Continue
            }
        },
    }
}

/// The phase reached from `p` on the answers `replies`, in turn.
pub open spec fn run(p: Phase, replies: Seq<HostReply>) -> Phase
    decreases replies.len(),
{
    if replies.len() == 0 {
        p
    } else {
        next_phase(run(p, replies.drop_last()), replies.last())
    }
}

/// The resources a phase holds are the guest's own, never the channel.
pub open spec fn holds_owned(p: Phase) -> bool {
    match p {
        Phase::AwaitTimer(id) => id != MESSAGE_CHANNEL,
        Phase::Closing(id) => id != MESSAGE_CHANNEL,
        _ => true,
    }
}

/// No answers of the host, in any order, lead the task to close the message
/// channel.
pub proof fn lemma_channel_never_closed(replies: Seq<HostReply>)
    ensures
        holds_owned(run(Phase::EnablingTrace, replies)),
        call_of(run(Phase::EnablingTrace, replies)) != Some(HostCall::Close(MESSAGE_CHANNEL)),
    decreases replies.len(),
{
    if replies.len() > 0 {
        lemma_channel_never_closed(replies.drop_last());
    }
}

/// Once the task has seen its timer ready, no later step polls a timer
/// again: whatever the host answers next, the task only closes the timer
/// and ends.
pub proof fn lemma_timer_resolves_once(id: i32, rest: Seq<HostReply>)
    ensures
        ({
            let later = run(
                next_phase(Phase::AwaitTimer(id), HostReply::Readiness(Readiness::Ready)),
                rest,
            );
            &&& later is Closing || later is Done
            &&& !(call_of(later) matches Some(HostCall::PollRead(_)))
        }),
    decreases rest.len(),
{
    if rest.len() > 0 {
        lemma_timer_resolves_once(id, rest.drop_last());
    }
}

/// The task gets past its timer only on a poll at which the host reported
/// the timer ready: any run that has reached the close or the end holds
/// such an answer.
pub proof fn lemma_timer_waits_for_ready(replies: Seq<HostReply>)
    ensures
        (run(Phase::EnablingTrace, replies) is Closing || run(Phase::EnablingTrace, replies) is Done)
            ==> exists|i: int|
            0 <= i < replies.len() && #[trigger] replies[i] == HostReply::Readiness(
                Readiness::Ready,
            ),
    decreases replies.len(),
{
    if replies.len() > 0 {
        let rest = replies.drop_last();
        lemma_timer_waits_for_ready(rest);
        let before = run(Phase::EnablingTrace, rest);
        if before is Closing || before is Done {
            let i = choose|i: int|
                0 <= i < rest.len() && #[trigger] rest[i] == HostReply::Readiness(Readiness::Ready);
            assert(replies[i] == rest[i]);
        } else if run(Phase::EnablingTrace, replies) is Closing || run(
            Phase::EnablingTrace,
            replies,
        ) is Done {
            assert(replies[replies.len() - 1] == HostReply::Readiness(Readiness::Ready));
        }
    }
}

/// The close call that abandoning the task in phase `p` issues: the held
/// timer's, if there is one.
pub open spec fn release_call(p: Phase) -> Option<HostCall> {
    match p {
        Phase::AwaitTimer(id) => Some(HostCall::Close(id)),
        Phase::Closing(id) => Some(HostCall::Close(id)),
        _ => None,
    }
}

/// Whether the task, in phase `p`, has created its timer.
pub open spec fn timer_created(p: Phase) -> bool {
    p is AwaitTimer || p is Closing || p is Done
}

/// Whether each of `replies` answers the call the task awaits when it comes.
pub open spec fn valid_run(p: Phase, replies: Seq<HostReply>) -> bool
    decreases replies.len(),
{
    replies.len() == 0 || (valid_run(p, replies.drop_last()) && expects(
        run(p, replies.drop_last()),
        replies.last(),
    ))
}

/// The calls the task issues from `p`, one for each of `replies`.
pub open spec fn issued(p: Phase, replies: Seq<HostReply>) -> Seq<HostCall>
    decreases replies.len(),
{
    if replies.len() == 0 {
        Seq::empty()
    } else {
        let before = issued(p, replies.drop_last());
        match call_of(run(p, replies.drop_last())) {
            Some(c) => before.push(c),
            None => before,
        }
    }
}

/// How many of `calls` are close calls.
pub open spec fn close_count(calls: Seq<HostCall>) -> nat
    decreases calls.len(),
{
    if calls.len() == 0 {
        0
    } else {
        close_count(calls.drop_last()) + if calls.last() is Close {
            1nat
        } else {
            0nat
        }
    }
}

/// Leak freedom: along any run of the task, the timer is closed once if it
/// was created and never otherwise, counting the close that abandoning the
/// task at that point would issue.
pub proof fn lemma_timer_closed_once(replies: Seq<HostReply>)
    requires
        valid_run(Phase::EnablingTrace, replies),
    ensures
        close_count(issued(Phase::EnablingTrace, replies)) + (if release_call(
            run(Phase::EnablingTrace, replies),
        ) is Some {
            1nat
        } else {
            0nat
        }) == (if timer_created(run(Phase::EnablingTrace, replies)) {
            1nat
        } else {
            0nat
        }),
    decreases replies.len(),
{
    if replies.len() > 0 {
        lemma_timer_closed_once(replies.drop_last());
        let cs = issued(Phase::EnablingTrace, replies);
        let before = run(Phase::EnablingTrace, replies.drop_last());
        if call_of(before) is Some {
            assert(cs.drop_last() == issued(Phase::EnablingTrace, replies.drop_last()));
        }
    }
}

#[derive(Debug)]
enum State {
    EnablingTrace,
    AwaitFirstMessage,
    AwaitSecondMessage,
    CreatingTimer,
    AwaitTimer(Sleep),
    Closing(HostCall),
    Done,
    Failed(TaskError),
}

/// The guest's single task.
#[derive(Debug)]
pub struct GuestTask {
    state: State,
    rx: ChannelRx,
}

fn is_expected(m: &Vec<u8>) -> (r: bool)
    ensures
        r == (m@ == expected_message()),
{
    let r = m.len() == 3 && m[0] == 102u8 && m[1] == 111u8 && m[2] == 111u8;
    proof {
        if r {
            assert(m@ =~= expected_message());
        }
    }
    r
}

impl GuestTask {
    /// The task's phase.
    pub closed spec fn phase(&self) -> Phase {
        match self.state {
            State::EnablingTrace => Phase::EnablingTrace,
            State::AwaitFirstMessage => Phase::AwaitFirstMessage,
            State::AwaitSecondMessage => Phase::AwaitSecondMessage,
            State::CreatingTimer => Phase::CreatingTimer,
            State::AwaitTimer(s) => Phase::AwaitTimer(s.id()),
            State::Closing(c) => Phase::Closing(c->Close_0),
            State::Done => Phase::Done,
            State::Failed(e) => Phase::Failed(e),
        }
    }

    /// The receiver is the message channel's, a held timer is pending, and
    /// a pending close names that timer.
    pub closed spec fn wf(&self) -> bool {
        &&& self.rx.id() == MESSAGE_CHANNEL
        &&& match self.state {
            State::AwaitTimer(s) => !s.resolved() && s.id() != MESSAGE_CHANNEL,
            State::Closing(c) => c is Close && c->Close_0 != MESSAGE_CHANNEL,
            _ => true,
        }
    }

    pub fn new() -> (r: GuestTask)
        ensures
            r.wf(),
            r.phase() == Phase::EnablingTrace,
    {
        GuestTask { state: State::EnablingTrace, rx: message_rx() }
    }

    /// The phase, as a value.
    pub fn current_phase(&self) -> (r: Phase)
        requires
            self.wf(),
        ensures
            r == self.phase(),
    {
        match &self.state {
            State::EnablingTrace => Phase::EnablingTrace,
            State::AwaitFirstMessage => Phase::AwaitFirstMessage,
            State::AwaitSecondMessage => Phase::AwaitSecondMessage,
            State::CreatingTimer => Phase::CreatingTimer,
            State::AwaitTimer(s) => Phase::AwaitTimer(s.raw_id()),
            State::Closing(c) => match c {
                HostCall::Close(id) => Phase::Closing(*id),
                _ => Phase::Done,
            },
            State::Done => Phase::Done,
            State::Failed(e) => Phase::Failed(*e),
        }
    }

    /// The host call the task awaits; `None` once it has ended.
    pub fn pending_call(&self) -> (r: Option<HostCall>)
        requires
            self.wf(),
        ensures
            r == call_of(self.phase()),
    {
        match &self.state {
            State::EnablingTrace => Some(HostCall::EnableTrace(true)),
            State::AwaitFirstMessage => Some(self.rx.next().poll_call()),
            State::AwaitSecondMessage => Some(self.rx.next().poll_call()),
            State::CreatingTimer => Some(sleep(TIMER_MILLIS)),
            State::AwaitTimer(s) => Some(s.poll_call()),
            State::Closing(c) => Some(*c),
            State::Done => None,
            State::Failed(_) => None,
        }
    }

    /// Abandons the task before it ends: the close call of the timer it
    /// holds, if any.
    pub fn abandon(self) -> (r: Option<HostCall>)
        requires
            self.wf(),
        ensures
            r == release_call(self.phase()),
            r != Some(HostCall::Close(MESSAGE_CHANNEL)),
    {
        match self.state {
            State::AwaitTimer(s) => Some(s.close()),
            State::Closing(c) => Some(c),
            _ => None,
        }
    }

    /// Resumes the task with the host's answer to its pending call.
    pub fn resume(&mut self, reply: HostReply) -> (r: TaskPoll)
        requires
            old(self).wf(),
            expects(old(self).phase(), reply),
        ensures
            final(self).wf(),
            final(self).phase() == next_phase(old(self).phase(), reply),
            r == poll_result(old(self).phase(), reply),
    {
        let mut state = State::Done;
        core::mem::swap(&mut self.state, &mut state);
        let (next, r) = match state {
            State::EnablingTrace => (State::AwaitFirstMessage, TaskPoll::Continue),
            State::AwaitFirstMessage => {
                let HostReply::Channel(answer) = reply else { return TaskPoll::Done };
                match self.rx.next().on_reply(answer) {
                    Poll::Ready(_) => (State::AwaitSecondMessage, TaskPoll::Continue),
                    Poll::Pending => (State::AwaitFirstMessage, TaskPoll::Suspended),
                }
            },
            State::AwaitSecondMessage => {
                let HostReply::Channel(answer) = reply else { return TaskPoll::Done };
                match self.rx.next().on_reply(answer) {
                    Poll::Ready(Some(m)) => {
                        if is_expected(&m) {
                            (State::CreatingTimer, TaskPoll::Continue)
                        } else {
                            let e = TaskError::UnexpectedMessage;
                            (State::Failed(e), TaskPoll::Failed(e))
                        }
                    },
                    Poll::Ready(None) => {
                        let e = TaskError::UnexpectedMessage;
                        (State::Failed(e), TaskPoll::Failed(e))
                    },
                    Poll::Pending => (State::AwaitSecondMessage, TaskPoll::Suspended),
                }
            },
            State::CreatingTimer => {
                let answer: Result<i32, HostError> = match reply {
                    HostReply::TimerCreated(id) => Ok(id),
                    HostReply::TimerFailed(e) => Err(e),
                    _ => { return TaskPoll::Done },
                };
                match Sleep::created(answer) {
                    Ok(s) => (State::AwaitTimer(s), TaskPoll::Continue),
                    Err(t) => {
                        let e = TaskError::TimerCreation(t);
                        (State::Failed(e), TaskPoll::Failed(e))
                    },
                }
            },
            State::AwaitTimer(mut s) => {
                let HostReply::Readiness(answer) = reply else { return TaskPoll::Done };
                match s.on_readiness(answer) {
                    Poll::Ready(()) => (State::Closing(s.close()), TaskPoll::Continue),
                    Poll::Pending => (State::AwaitTimer(s), TaskPoll::Suspended),
                }
            },
            State::Closing(_) => (State::Done, TaskPoll::Done),
            State::Done => (State::Done, TaskPoll::Done),
            State::Failed(e) => (State::Failed(e), TaskPoll::Failed(e)),
        };
        self.state = next;
        r
    }
}

} // verus!
