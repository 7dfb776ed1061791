use vstd::prelude::*;

use crate::message::Response;

verus! {

/// The body of a successful liveness probe.
pub open spec fn health_body() -> Seq<char> {
    seq!['O', 'K']
}

/// The informational log message that `process` emits for a payload.
pub open spec fn process_log_text(payload: Seq<char>) -> Seq<char> {
    seq!['p', 'r', 'o', 'c', 'e', 's', 's', 'i', 'n', 'g', ' '] + payload
}

/// What the `process` handler hands back: its response and the message it
/// logs.
#[derive(Debug)]
pub struct Processed {
    pub response: Response,
    pub log_message: String,
}

/// The liveness probe: always status 200 with body `OK`.
pub fn health() -> (r: Response)
    ensures
        r.status == 200,
        r.body@ == health_body(),
{
    let body: &str = "OK";
    proof {
        reveal_strlit("OK");
        assert(body@ =~= health_body());
    }
    Response { status: 200, body: body.to_owned() }
}

/// Accepts any string payload: status 200 with an empty body, and a log
/// message that carries the payload.
pub fn process(payload: &String) -> (r: Processed)
    ensures
        r.response.status == 200,
        r.response.body@.len() == 0,
        r.log_message@ == process_log_text(payload@),
{
    let prefix: &str = "processing ";
    proof {
        reveal_strlit("processing ");
        assert(prefix@ =~= seq!['p', 'r', 'o', 'c', 'e', 's', 's', 'i', 'n', 'g', ' ']);
    }
    let log_message = String::from_str(prefix).concat(payload.as_str());
    Processed { response: Response { status: 200, body: String::new() }, log_message }
}

} // verus!
