//! The guest's inbound-message channel.
use vstd::prelude::*;

use crate::host::{ChannelReply, HostCall, Poll, MESSAGE_CHANNEL};

verus! {

/// A receiver bound to a channel resource that the host manages. It does
/// not own the resource: nothing here closes it.
#[derive(Clone, Copy, Debug)]
pub struct ChannelRx {
    res_id: i32,
}

/// One pending receive. It holds nothing but the receiver: whether a message
/// is there is asked of the host anew on every poll.
#[derive(Clone, Copy, Debug)]
pub struct ChannelRxNext<'a> {
    ch: &'a ChannelRx,
}

/// What a receive yields on the host's answer: a message, `None` once the
/// channel is closed, or nothing yet.
pub open spec fn received_by(reply: ChannelReply) -> Poll<Option<Vec<u8>>> {
    match reply {
        ChannelReply::Message(m) => Poll::Ready(Some(m)),
        ChannelReply::Pending => Poll::Pending,
        ChannelReply::Closed => Poll::Ready(None),
    }
}

/// What a sequence of receives, each started after the previous resolved,
/// yields when the host answers their polls with `replies` in turn.
pub open spec fn received(replies: Seq<ChannelReply>) -> Seq<Option<Vec<u8>>>
    decreases replies.len(),
{
    if replies.len() == 0 {
        Seq::empty()
    } else {
        let rest = received(replies.drop_last());
        match received_by(replies.last()) {
            Poll::Ready(v) => rest.push(v),
            Poll::Pending => rest,
        }
    }
}

/// The receiver of the guest's inbound messages.
pub fn message_rx() -> (r: ChannelRx)
    ensures
        r.id() == MESSAGE_CHANNEL,
{
    ChannelRx::new(MESSAGE_CHANNEL)
}

impl ChannelRx {
    /// The id of the channel resource.
    pub closed spec fn id(&self) -> i32 {
        self.res_id
    }

    pub fn new(res_id: i32) -> (r: ChannelRx)
        ensures
            r.id() == res_id,
    {
        ChannelRx { res_id }
    }

    /// Starts a receive of the next message.
    pub fn next(&self) -> (r: ChannelRxNext<'_>)
        ensures
            r.channel_id() == self.id(),
    {
        ChannelRxNext { ch: self }
    }
}

impl<'a> ChannelRxNext<'a> {
    /// The id of the channel this receive polls.
    pub closed spec fn channel_id(&self) -> i32 {
        self.ch.res_id
    }

    /// The poll call that one poll of the receive issues.
    pub fn poll_call(&self) -> (r: HostCall)
        ensures
            r == HostCall::Poll(self.channel_id()),
    {
        HostCall::Poll(self.ch.res_id)
    }

    /// Completes one poll with the host's answer. A message passes to the
    /// caller as it came; a closed channel gives `None`, which no message,
    /// not even an empty one, gives.
    pub fn on_reply(&self, reply: ChannelReply) -> (r: Poll<Option<Vec<u8>>>)
        ensures
            r == received_by(reply),
    {
        match reply {
            ChannelReply::Message(m) => Poll::Ready(Some(m)),
            ChannelReply::Pending => Poll::Pending,
            ChannelReply::Closed => Poll::Ready(None),
        }
    }
}

/// Closing is not the same as an empty message: the two answers give
/// different results.
pub proof fn lemma_closed_is_not_empty(empty: Vec<u8>)
    requires
        empty@.len() == 0,
    ensures
        received_by(ChannelReply::Closed) != received_by(ChannelReply::Message(empty)),
        received_by(ChannelReply::Message(empty)) == Poll::Ready(Some(empty)),
{
}

/// Receives keep the host's order: what the answers `a` and then `b` yield is
/// what `a` yields followed by what `b` yields.
pub proof fn lemma_received_append(a: Seq<ChannelReply>, b: Seq<ChannelReply>)
    ensures
        received(a + b) == received(a) + received(b),
    decreases b.len(),
{
    if b.len() == 0 {
        assert(a + b =~= a);
        assert(received(a) + received(b) =~= received(a));
    } else {
        lemma_received_append(a, b.drop_last());
        assert((a + b).drop_last() =~= a + b.drop_last());
        assert((a + b).last() == b.last());
        match received_by(b.last()) {
            Poll::Ready(v) => {
                assert(received(a) + received(b.drop_last()).push(v) =~= (received(a)
                    + received(b.drop_last())).push(v));
            },
            Poll::Pending => {},
        }
    }
}

/// Pending answers alone yield nothing.
pub proof fn lemma_received_all_pending(pending: Seq<ChannelReply>)
    requires
        forall|i: int| 0 <= i < pending.len() ==> pending[i] == ChannelReply::Pending,
    ensures
        received(pending) == Seq::<Option<Vec<u8>>>::empty(),
    decreases pending.len(),
{
    if pending.len() > 0 {
        lemma_received_all_pending(pending.drop_last());
    }
}

/// A receive yields the first message the host delivers, however many
/// pending answers came before it.
pub proof fn lemma_received_pending_then(pending: Seq<ChannelReply>, m: Vec<u8>)
    requires
        forall|i: int| 0 <= i < pending.len() ==> pending[i] == ChannelReply::Pending,
    ensures
        received(pending.push(ChannelReply::Message(m))) == seq![Some(m)],
{
    lemma_received_all_pending(pending);
    assert(pending.push(ChannelReply::Message(m)).drop_last() =~= pending);
    assert(Seq::<Option<Vec<u8>>>::empty().push(Some(m)) =~= seq![Some(m)]);
}

/// Two receives in sequence, where the host delivers `a` and then `b`
/// (with any number of pending answers around them), yield `a` and then
/// `b`.
pub proof fn lemma_receive_in_order(
    p1: Seq<ChannelReply>,
    a: Vec<u8>,
    p2: Seq<ChannelReply>,
    b: Vec<u8>,
)
    requires
        forall|i: int| 0 <= i < p1.len() ==> p1[i] == ChannelReply::Pending,
        forall|i: int| 0 <= i < p2.len() ==> p2[i] == ChannelReply::Pending,
    ensures
        received(p1.push(ChannelReply::Message(a)) + p2.push(ChannelReply::Message(b))) == seq![
            Some(a),
            Some(b),
        ],
{
    lemma_received_pending_then(p1, a);
    lemma_received_pending_then(p2, b);
    lemma_received_append(p1.push(ChannelReply::Message(a)), p2.push(ChannelReply::Message(b)));
    assert(seq![Some(a)] + seq![Some(b)] =~= seq![Some(a), Some(b)]);
}

} // verus!
