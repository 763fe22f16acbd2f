//! Timer futures: a one-shot readiness signal backed by a host timer.
use vstd::prelude::*;

use crate::host::{HostCall, HostError, Poll, Readiness, MESSAGE_CHANNEL};
use crate::resource::ResourceId;

verus! {

/// Why a timer could not be set up.
#[derive(Clone, Copy, Debug, PartialEq, Eq, Structural)]
pub enum TimerError {
    /// create-timer failed at the host.
    Host(HostError),
    /// The host answered with the message channel's id, which names a
    /// resource the guest cannot own.
    ReservedId,
}

/// The create-timer call that schedules a timer of `millis` milliseconds.
pub fn sleep(millis: u64) -> (r: HostCall)
    requires
        millis <= i32::MAX,
    ensures
        r == HostCall::CreateTimer(millis as i32),
{
    HostCall::CreateTimer(millis as i32)
}

/// A timer future. It owns the host's timer resource, resolves once the host
/// reports the timer ready, and is not polled after that.
#[derive(Debug)]
pub struct Sleep {
    id: ResourceId,
    resolved: bool,
}

impl Sleep {
    /// The host's id of the timer.
    pub closed spec fn id(&self) -> i32 {
        self.id.id()
    }

    /// Whether a poll has observed the timer ready.
    pub closed spec fn resolved(&self) -> bool {
        self.resolved
    }

    /// Builds the future from the host's answer to create-timer.
    pub fn created(answer: Result<i32, HostError>) -> (r: Result<Sleep, TimerError>)
        ensures
            answer matches Err(e) ==> r == Err::<Sleep, TimerError>(TimerError::Host(e)),
            answer == Ok::<i32, HostError>(MESSAGE_CHANNEL) ==> r == Err::<Sleep, TimerError>(
                TimerError::ReservedId,
            ),
            answer is Ok && answer->Ok_0 != MESSAGE_CHANNEL ==> (r is Ok && r->Ok_0.id()
                == answer->Ok_0 && !r->Ok_0.resolved()),
    {
        match answer {
            Err(e) => Err(TimerError::Host(e)),
            Ok(id) => match ResourceId::new(id) {
                Some(handle) => Ok(Sleep { id: handle, resolved: false }),
                None => Err(TimerError::ReservedId),
            },
        }
    }

    pub fn raw_id(&self) -> (r: i32)
        ensures
            r == self.id(),
            r != MESSAGE_CHANNEL,
    {
        self.id.raw()
    }

    pub fn is_resolved(&self) -> (r: bool)
        ensures
            r == self.resolved(),
    {
        self.resolved
    }

    /// The poll-read call that one poll of a pending timer issues.
    pub fn poll_call(&self) -> (r: HostCall)
        requires
            !self.resolved(),
        ensures
            r == HostCall::PollRead(self.id()),
    {
        HostCall::PollRead(self.id.raw())
    }

    /// Completes one poll with the host's answer to `poll_call`. The timer
    /// resolves exactly when the host reports it ready, never earlier, and a
    /// resolved timer cannot be polled again.
    pub fn on_readiness(&mut self, answer: Readiness) -> (r: Poll<()>)
        requires
            !old(self).resolved(),
        ensures
            final(self).id() == old(self).id(),
            final(self).resolved() <==> answer == Readiness::Ready,
            r == (if answer == Readiness::Ready {
                Poll::Ready(())
            } else {
                Poll::<()>::Pending
            }),
    {
        match answer {
            Readiness::Ready => {
                self.resolved = true;
                Poll::Ready(())
            },
            Readiness::Pending => Poll::Pending,
        }
    }

    /// Drops the timer, resolved or not: the one close call for its resource.
    pub fn close(self) -> (r: HostCall)
        ensures
            r == HostCall::Close(self.id()),
            self.id() != MESSAGE_CHANNEL,
    {
        self.id.close()
    }
}

} // verus!
