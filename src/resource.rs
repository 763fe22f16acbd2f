//! Owned handles of host resources.
use vstd::prelude::*;

use crate::host::{HostCall, MESSAGE_CHANNEL};

verus! {

/// An owned host resource, named by the id the host gave it. Think of it as
/// a file descriptor. It is never the message channel, which the guest does
/// not own.
///
/// The handle is released by `close`, which takes it by value: a handle can
/// be closed once and only once, and moving it elsewhere closes nothing.
#[derive(Debug)]
pub struct ResourceId {
    id: i32,
}

impl ResourceId {
    #[verifier::type_invariant]
    spec fn owned(&self) -> bool {
        self.id != MESSAGE_CHANNEL
    }

    /// The id that names the resource at the host.
    pub closed spec fn id(&self) -> i32 {
        self.id
    }

    /// Takes ownership of the resource the host named `id`; the message
    /// channel's id cannot be owned.
    pub fn new(id: i32) -> (r: Option<ResourceId>)
        ensures
            r matches Some(h) ==> h.id() == id,
            r is None <==> id == MESSAGE_CHANNEL,
    {
        if id == MESSAGE_CHANNEL {
            None
        } else {
            Some(ResourceId { id })
        }
    }

    pub fn raw(&self) -> (r: i32)
        ensures
            r == self.id(),
            r != MESSAGE_CHANNEL,
    {
        proof {
            use_type_invariant(self);
        }
        self.id
    }

    /// Releases the resource: the one close call to issue for it.
    pub fn close(self) -> (r: HostCall)
        ensures
            r == HostCall::Close(self.id()),
            self.id() != MESSAGE_CHANNEL,
    {
        proof {
            use_type_invariant(&self);
        }
        HostCall::Close(self.id)
    }
}

} // verus!
