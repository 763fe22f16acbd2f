use sidevm_timer::channel::{message_rx, ChannelRx};
use sidevm_timer::host::{ChannelReply, HostCall, HostError, HostReply, Poll, Readiness, MESSAGE_CHANNEL};
use sidevm_timer::resource::ResourceId;
use sidevm_timer::sleep::{sleep, Sleep, TimerError};
use sidevm_timer::task::{GuestTask, Phase, TaskError, TaskPoll, TIMER_MILLIS};

/// A scripted host: answers each call of the task, tracks simulated time,
/// and records every call it was asked to perform.
struct ScriptedHost {
    messages: Vec<ChannelReply>,
    timer_id: i32,
    timer_fires_at: u64,
    now: u64,
    step_millis: u64,
    calls: Vec<HostCall>,
}

impl ScriptedHost {
    fn new(messages: Vec<ChannelReply>) -> ScriptedHost {
        ScriptedHost {
            messages,
            timer_id: 7,
            timer_fires_at: 0,
            now: 0,
            step_millis: 1000,
            calls: Vec::new(),
        }
    }

    fn answer(&mut self, call: HostCall) -> HostReply {
        self.calls.push(call);
        match call {
            HostCall::EnableTrace(_) => HostReply::TraceSet(true),
            HostCall::Poll(_) => {
                if self.messages.is_empty() {
                    HostReply::Channel(ChannelReply::Closed)
                } else {
                    HostReply::Channel(self.messages.remove(0))
                }
            }
            HostCall::CreateTimer(ms) => {
                self.timer_fires_at = self.now + ms as u64;
                HostReply::TimerCreated(self.timer_id)
            }
            HostCall::PollRead(_) => {
                self.now += self.step_millis;
                if self.now >= self.timer_fires_at {
                    HostReply::Readiness(Readiness::Ready)
                } else {
                    HostReply::Readiness(Readiness::Pending)
                }
            }
            HostCall::Close(_) => HostReply::Closed,
        }
    }

    fn run(&mut self, task: &mut GuestTask) -> TaskPoll {
        loop {
            let call = task.pending_call().expect("a live task awaits a call");
            let reply = self.answer(call);
            match task.resume(reply) {
                TaskPoll::Continue | TaskPoll::Suspended => {}
                end => return end,
            }
        }
    }
}

fn msg(bytes: &[u8]) -> ChannelReply {
    ChannelReply::Message(bytes.to_vec())
}

#[test]
fn task_completes_on_expected_messages() {
    let mut host = ScriptedHost::new(vec![msg(b"greeting"), msg(b"foo")]);
    let mut task = GuestTask::new();
    assert_eq!(host.run(&mut task), TaskPoll::Done);
    assert_eq!(task.current_phase(), Phase::Done);
    assert_eq!(task.pending_call(), None);
    assert!(host.now >= 3000);
    assert_eq!(
        host.calls,
        vec![
            HostCall::EnableTrace(true),
            HostCall::Poll(0),
            HostCall::Poll(0),
            HostCall::CreateTimer(3000),
            HostCall::PollRead(7),
            HostCall::PollRead(7),
            HostCall::PollRead(7),
            HostCall::Close(7),
        ]
    );
}

#[test]
fn task_fails_on_unexpected_second_message() {
    let mut host = ScriptedHost::new(vec![msg(b"greeting"), msg(b"bar")]);
    let mut task = GuestTask::new();
    assert_eq!(host.run(&mut task), TaskPoll::Failed(TaskError::UnexpectedMessage));
    assert_eq!(task.current_phase(), Phase::Failed(TaskError::UnexpectedMessage));
    assert!(!host.calls.iter().any(|c| matches!(c, HostCall::CreateTimer(_))));
    assert!(!host.calls.iter().any(|c| matches!(c, HostCall::PollRead(_))));
    assert_eq!(host.calls.len(), 3);
}

#[test]
fn task_fails_when_channel_closes_before_second_message() {
    let mut host = ScriptedHost::new(vec![msg(b"greeting")]);
    let mut task = GuestTask::new();
    assert_eq!(host.run(&mut task), TaskPoll::Failed(TaskError::UnexpectedMessage));
}

#[test]
fn task_fails_on_empty_second_message() {
    let mut host = ScriptedHost::new(vec![msg(b"greeting"), msg(b"")]);
    let mut task = GuestTask::new();
    assert_eq!(host.run(&mut task), TaskPoll::Failed(TaskError::UnexpectedMessage));
}

#[test]
fn task_waits_through_pending_messages() {
    let mut host = ScriptedHost::new(vec![
        ChannelReply::Pending,
        msg(b"greeting"),
        ChannelReply::Pending,
        ChannelReply::Pending,
        msg(b"foo"),
    ]);
    let mut task = GuestTask::new();
    assert_eq!(host.run(&mut task), TaskPoll::Done);
    let polls = host.calls.iter().filter(|c| **c == HostCall::Poll(0)).count();
    assert_eq!(polls, 5);
}

#[test]
fn task_reports_suspended_on_pending() {
    let mut task = GuestTask::new();
    assert_eq!(task.resume(HostReply::TraceSet(false)), TaskPoll::Continue);
    assert_eq!(task.current_phase(), Phase::AwaitFirstMessage);
    assert_eq!(task.resume(HostReply::Channel(ChannelReply::Pending)), TaskPoll::Suspended);
    assert_eq!(task.current_phase(), Phase::AwaitFirstMessage);
    assert_eq!(task.resume(HostReply::Channel(ChannelReply::Closed)), TaskPoll::Continue);
    assert_eq!(task.current_phase(), Phase::AwaitSecondMessage);
}

#[test]
fn task_fails_when_timer_cannot_be_created() {
    let mut task = GuestTask::new();
    task.resume(HostReply::TraceSet(true));
    task.resume(HostReply::Channel(msg(b"hello")));
    assert_eq!(task.resume(HostReply::Channel(msg(b"foo"))), TaskPoll::Continue);
    assert_eq!(task.pending_call(), Some(HostCall::CreateTimer(3000)));
    let e = TaskError::TimerCreation(TimerError::Host(HostError { code: -1 }));
    assert_eq!(task.resume(HostReply::TimerFailed(HostError { code: -1 })), TaskPoll::Failed(e));
    assert_eq!(task.pending_call(), None);
}

#[test]
fn task_refuses_channel_id_as_timer() {
    let mut task = GuestTask::new();
    task.resume(HostReply::TraceSet(true));
    task.resume(HostReply::Channel(msg(b"hello")));
    task.resume(HostReply::Channel(msg(b"foo")));
    let e = TaskError::TimerCreation(TimerError::ReservedId);
    assert_eq!(task.resume(HostReply::TimerCreated(0)), TaskPoll::Failed(e));
}

#[test]
fn task_never_closes_channel() {
    let mut host = ScriptedHost::new(vec![msg(b"greeting"), msg(b"foo")]);
    let mut task = GuestTask::new();
    host.run(&mut task);
    assert!(!host.calls.contains(&HostCall::Close(MESSAGE_CHANNEL)));
    let closes = host.calls.iter().filter(|c| matches!(c, HostCall::Close(_))).count();
    assert_eq!(closes, 1);
}

#[test]
fn task_polls_timer_no_more_once_ready() {
    let mut host = ScriptedHost::new(vec![msg(b"greeting"), msg(b"foo")]);
    host.step_millis = 3000;
    let mut task = GuestTask::new();
    assert_eq!(host.run(&mut task), TaskPoll::Done);
    let reads = host.calls.iter().filter(|c| matches!(c, HostCall::PollRead(_))).count();
    assert_eq!(reads, 1);
    assert_eq!(*host.calls.last().unwrap(), HostCall::Close(7));
}

#[test]
fn timer_request_uses_milliseconds() {
    assert_eq!(sleep(TIMER_MILLIS), HostCall::CreateTimer(3000));
    assert_eq!(sleep(0), HostCall::CreateTimer(0));
    assert_eq!(sleep(i32::MAX as u64), HostCall::CreateTimer(i32::MAX));
}

#[test]
fn timer_resolves_only_on_ready() {
    let mut timer = Sleep::created(Ok(4)).unwrap();
    assert_eq!(timer.poll_call(), HostCall::PollRead(4));
    assert_eq!(timer.on_readiness(Readiness::Pending), Poll::Pending);
    assert!(!timer.is_resolved());
    assert_eq!(timer.on_readiness(Readiness::Pending), Poll::Pending);
    assert!(!timer.is_resolved());
    assert_eq!(timer.on_readiness(Readiness::Ready), Poll::Ready(()));
    assert!(timer.is_resolved());
    assert_eq!(timer.close(), HostCall::Close(4));
}

#[test]
fn timer_creation_errors() {
    let e = HostError { code: 3 };
    assert_eq!(Sleep::created(Err(e)).unwrap_err(), TimerError::Host(e));
    assert_eq!(Sleep::created(Ok(MESSAGE_CHANNEL)).unwrap_err(), TimerError::ReservedId);
    assert_eq!(Sleep::created(Ok(-2)).unwrap().raw_id(), -2);
}

#[test]
fn unpolled_timer_closes_once() {
    let timer = Sleep::created(Ok(9)).unwrap();
    assert!(!timer.is_resolved());
    assert_eq!(timer.close(), HostCall::Close(9));
}

#[test]
fn resource_handle_closes_its_id() {
    let handle = ResourceId::new(12).unwrap();
    assert_eq!(handle.raw(), 12);
    assert_eq!(handle.close(), HostCall::Close(12));
    assert!(ResourceId::new(MESSAGE_CHANNEL).is_none());
}

#[test]
fn receives_in_host_order() {
    let rx = message_rx();
    let first = rx.next();
    assert_eq!(first.poll_call(), HostCall::Poll(0));
    assert_eq!(first.on_reply(ChannelReply::Pending), Poll::Pending);
    assert_eq!(first.on_reply(msg(b"A")), Poll::Ready(Some(b"A".to_vec())));
    let second = rx.next();
    assert_eq!(second.on_reply(msg(b"B")), Poll::Ready(Some(b"B".to_vec())));
}

#[test]
fn closed_differs_from_empty_message() {
    let rx = ChannelRx::new(MESSAGE_CHANNEL);
    let closed = rx.next().on_reply(ChannelReply::Closed);
    let empty = rx.next().on_reply(msg(b""));
    assert_eq!(closed, Poll::Ready(None));
    assert_eq!(empty, Poll::Ready(Some(Vec::new())));
    assert_ne!(closed, empty);
}

#[test]
fn receiver_polls_its_own_channel() {
    let rx = ChannelRx::new(5);
    assert_eq!(rx.next().poll_call(), HostCall::Poll(5));
}

#[test]
fn abandoning_task_closes_held_timer() {
    let mut task = GuestTask::new();
    task.resume(HostReply::TraceSet(true));
    task.resume(HostReply::Channel(msg(b"greeting")));
    task.resume(HostReply::Channel(msg(b"foo")));
    task.resume(HostReply::TimerCreated(11));
    assert_eq!(task.resume(HostReply::Readiness(Readiness::Pending)), TaskPoll::Suspended);
    assert_eq!(task.current_phase(), Phase::AwaitTimer(11));
    assert_eq!(task.abandon(), Some(HostCall::Close(11)));
}

#[test]
fn abandoning_task_without_timer_closes_nothing() {
    let mut task = GuestTask::new();
    task.resume(HostReply::TraceSet(true));
    assert_eq!(task.abandon(), None);
    let mut ready = GuestTask::new();
    ready.resume(HostReply::TraceSet(true));
    ready.resume(HostReply::Channel(msg(b"greeting")));
    ready.resume(HostReply::Channel(msg(b"foo")));
    ready.resume(HostReply::TimerCreated(11));
    assert_eq!(ready.resume(HostReply::Readiness(Readiness::Ready)), TaskPoll::Continue);
    assert_eq!(ready.current_phase(), Phase::Closing(11));
    assert_eq!(ready.abandon(), Some(HostCall::Close(11)));
}
