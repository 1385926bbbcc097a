use vstd::prelude::*;
use crate::addr::{Api, HumanAddr};
use crate::composable::Composable;
use crate::error::StdResult;
use crate::storage::Storage;

verus! {

/// The request context handed to a mutating dispatch: the sender's
/// identity and the ambient metadata the host environment supplies.
pub struct Env {
    /// The identity that sent the message being dispatched.
    pub sender: HumanAddr,
    /// The height of the block the request executes in.
    pub block_height: u64,
}

/// The typed success response of a mutating dispatch.
pub struct HandleResponse {
    /// Opaque payload the handler hands back to the host environment.
    pub data: Option<Vec<u8>>,
}

impl Default for HandleResponse {
    /// The empty response: success with nothing to report.
    fn default() -> (r: HandleResponse)
        ensures
            r.data is None,
    {
        HandleResponse { data: None }
    }
}

/// Mutating dispatch: a message type routes itself to handler logic
/// that reads and writes through the facade and produces a response
/// or a failure.
///
/// The layer only routes: it interprets neither the message nor the
/// response, and it provides no transactional rollback — a handler
/// that fails after a write leaves that write committed unless the
/// host environment discards the whole request.
pub trait HandleDispatch<S, A, Q, C> where S: Storage, A: Api, C: Composable<S, A, Q> {
    /// Route this message to its handler, with exclusive access to the
    /// facade for the duration of the call.
    fn dispatch_handle(self, core: &mut C, env: Env) -> StdResult<HandleResponse>;
}

/// Read-only dispatch: a message type routes itself to handler logic
/// that reads through the facade and produces a typed result or a
/// failure, with no way to mutate the store.
pub trait QueryDispatch<S, A, Q, C, R> where S: Storage, A: Api, C: Composable<S, A, Q> {
    /// Route this message to its handler, with shared access to the
    /// facade.
    fn dispatch_query(self, core: &C) -> StdResult<R>;
}

} // verus!
