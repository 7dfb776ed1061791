use vstd::prelude::*;

use crate::context::Context;
use crate::message::Request;

verus! {

/// The text of an optional string.
pub open spec fn opt_text(o: Option<String>) -> Option<Seq<char>> {
    match o {
        Some(s) => Some(s@),
        None => None,
    }
}

/// The correlation identifier of an optional context.
pub open spec fn opt_context_id(c: Option<Context>) -> Option<Seq<char>> {
    match c {
        Some(c) => Some(c@),
        None => None,
    }
}

/// The layer that wraps a service in an [`AddRequestInfoMiddleware`].
#[derive(Clone, Copy, Debug)]
pub struct AddRequestInfo;

/// Wraps an inner service and logs one record per request that it completes.
#[derive(Clone, Debug)]
pub struct AddRequestInfoMiddleware<S> {
    pub inner: S,
}

/// What the logger takes from a request before it is handed on.
#[derive(Debug)]
pub struct RequestInfo {
    pub method: String,
    pub uri: String,
    pub request_id: Option<String>,
}

/// The structured record logged once a request has been handled: `None` as
/// `request_id` tells that the request carried no context.
#[derive(Debug)]
pub struct LogRecord {
    pub method: String,
    pub uri: String,
    pub status: u16,
    pub duration_ms: u128,
    pub request_id: Option<String>,
}

impl AddRequestInfo {
    pub fn layer<S>(&self, inner: S) -> (r: AddRequestInfoMiddleware<S>)
        ensures
            r.inner == inner,
    {
        AddRequestInfoMiddleware { inner }
    }
}

impl<S> AddRequestInfoMiddleware<S> {
    /// Takes, before the inner service runs, the method, the URI and the
    /// correlation identifier of the request.
    pub fn capture(&self, req: &Request) -> (r: RequestInfo)
        ensures
            r.method@ == req.method@,
            r.uri@ == req.uri@,
            opt_text(r.request_id) == opt_context_id(req.context),
    {
        let request_id = match &req.context {
            Some(c) => Some(c.get_request_id()),
            None => None,
        };
        RequestInfo { method: req.method.clone(), uri: req.uri.clone(), request_id }
    }
}

impl RequestInfo {
    /// The record for the request once the inner service has answered with
    /// `status` after `duration_ms` whole milliseconds.
    pub fn complete(self, status: u16, duration_ms: u128) -> (r: LogRecord)
        ensures
            r.method == self.method,
            r.uri == self.uri,
            r.status == status,
            r.duration_ms == duration_ms,
            r.request_id == self.request_id,
    {
        LogRecord {
            method: self.method,
            uri: self.uri,
            status,
            duration_ms,
            request_id: self.request_id,
        }
    }
}

} // verus!
