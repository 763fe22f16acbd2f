//! A cooperative runtime adapter for a sandboxed guest that reaches its host
//! only through "ocalls": it creates host resources, polls them for
//! readiness and closes them.
//!
//! Every decision the guest makes is a verified function from what the host
//! answered to the next call it must issue; performing the calls is left to
//! the embedder.
pub mod channel;
pub mod contract;
pub mod host;
pub mod resource;
pub mod sleep;
pub mod task;
