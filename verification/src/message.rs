//! The messages of a service as the program holds them.
use vstd::pervasive::cloned;
use vstd::prelude::*;

use crate::context;
use crate::error_kind::ErrorKind;
use crate::trace;

verus! {

/// What went wrong on the server.
#[derive(Debug)]
pub struct ServerError {
    /// The kind of the error.
    pub kind: ErrorKind,
    /// Human-readable error detail.
    pub detail: String,
}

impl Clone for ServerError {
    fn clone(&self) -> (r: ServerError)
        ensures
            r == *self,
    {
        ServerError { kind: self.kind, detail: self.detail.clone() }
    }
}

/// A request from a client to a server.
#[derive(Debug, Clone)]
pub struct Request<T> {
    /// The deadline and the trace of the request.
    pub context: context::Context,
    /// Request identifier, unique within a channel.
    pub id: u64,
    /// Request body.
    pub message: T,
}

/// A response from a server to a client.
#[derive(Debug)]
pub struct Response<T> {
    /// Identifier of the request that is answered.
    pub request_id: u64,
    /// Response body, or what went wrong.
    pub message: Result<T, ServerError>,
}

impl<T: Clone> Clone for Response<T> {
    fn clone(&self) -> (r: Response<T>)
        ensures
            r.request_id == self.request_id,
            match self.message {
                Ok(v) => r.message matches Ok(c) && cloned(v, c),
                Err(e) => r.message == Err::<T, ServerError>(e),
            },
    {
        Response {
            request_id: self.request_id,
            message: match &self.message {
                Ok(v) => Ok(v.clone()),
                Err(e) => Err(e.clone()),
            },
        }
    }
}

/// What a client sends.
#[derive(Debug, Clone)]
pub enum ClientMessage<T> {
    /// A new request.
    Request(Request<T>),
    /// The end of the client's interest in a request.
    Cancel {
        /// Trace context of the request to cancel.
        trace_context: trace::Context,
        /// Identifier of the request to cancel.
        request_id: u64,
    },
}

} // verus!
