use vstd::prelude::*;

use crate::context::Context;

verus! {

/// One request header: its name as sent, and its value as text.
#[derive(Debug)]
pub struct Header {
    pub name: String,
    pub value: String,
}

/// What the pipeline reads of an inbound request, and the correlation
/// context attached to it while it is handled.
#[derive(Debug)]
pub struct Request {
    pub method: String,
    pub uri: String,
    pub headers: Vec<Header>,
    pub context: Option<Context>,
}

/// A response: its status code and its body.
#[derive(Debug)]
pub struct Response {
    pub status: u16,
    pub body: String,
}

impl Request {
    /// A request with no headers and no context yet.
    pub fn new(method: String, uri: String) -> (r: Request)
        ensures
            r.method@ == method@,
            r.uri@ == uri@,
            r.headers@.len() == 0,
            r.context.is_none(),
    {
        Request { method, uri, headers: Vec::new(), context: None }
    }

    /// Adds a header after those already there; an earlier header of the
    /// same name keeps precedence.
    pub fn append_header(&mut self, name: &str, value: &str)
        ensures
            final(self).method == old(self).method,
            final(self).uri == old(self).uri,
            final(self).context == old(self).context,
            final(self).headers@.len() == old(self).headers@.len() + 1,
            final(self).headers@.drop_last() == old(self).headers@,
            final(self).headers@.last().name@ == name@,
            final(self).headers@.last().value@ == value@,
    {
        let h = Header { name: name.to_owned(), value: value.to_owned() };
        self.headers.push(h);
        proof {
            assert(self.headers@.drop_last() =~= old(self).headers@);
        }
    }
}

} // verus!
