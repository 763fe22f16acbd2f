//! The ocall boundary: the calls the guest asks the host to perform and the
//! answers the host gives back.
use vstd::prelude::*;

verus! {

/// The well-known resource id of the guest's inbound-message channel. The
/// host provisions it once for the whole lifetime of the module; the guest
/// never creates or closes it.
pub const MESSAGE_CHANNEL: i32 = 0;

/// One call across the ocall boundary.
#[derive(Clone, Copy, Debug, PartialEq, Eq, Structural)]
pub enum HostCall {
    /// enable-tracing: diagnostic tracing of ocalls, best effort.
    EnableTrace(bool),
    /// create-timer: a new timer firing after this many milliseconds.
    CreateTimer(i32),
    /// poll-read: readiness of a resource, payload ignored (timers).
    PollRead(i32),
    /// poll: next message of a channel resource.
    Poll(i32),
    /// close: release a resource, best effort.
    Close(i32),
}

/// An error code reported by the host.
#[derive(Clone, Copy, Debug, PartialEq, Eq, Structural)]
pub struct HostError {
    pub code: i32,
}

/// The host's two-valued answer to poll-read.
#[derive(Clone, Copy, Debug, PartialEq, Eq, Structural)]
pub enum Readiness {
    Ready,
    Pending,
}

/// The host's three-valued answer to poll on a channel.
#[derive(Clone, Debug, PartialEq, Eq)]
pub enum ChannelReply {
    /// A message; its bytes now belong to the guest.
    Message(Vec<u8>),
    /// No message yet.
    Pending,
    /// The channel will never produce another message.
    Closed,
}

/// The host's answer to one `HostCall`.
#[derive(Clone, Debug, PartialEq, Eq)]
pub enum HostReply {
    /// Answer to `EnableTrace`: whether tracing could be switched.
    TraceSet(bool),
    /// Answer to `CreateTimer`: the new resource id.
    TimerCreated(i32),
    /// Answer to `CreateTimer`: the host could not create the timer.
    TimerFailed(HostError),
    /// Answer to `PollRead`.
    Readiness(Readiness),
    /// Answer to `Poll`.
    Channel(ChannelReply),
    /// Answer to `Close`.
    Closed,
}

/// What a future reports each time it is polled.
#[derive(Clone, Copy, Debug, PartialEq, Eq)]
pub enum Poll<T> {
    Ready(T),
    Pending,
}

} // verus!
