use vstd::prelude::*;

use crate::context::{
    ascii_lower_code, header_request_id, is_uuid_v4_text, names_request_id, request_id_header_name,
    request_id_value_from, resolves_to, Context,
};
use crate::handlers::{health_body, process_log_text, Processed};
use crate::message::{Header, Response};
use crate::request_info::{opt_context_id, opt_text};

verus! {

/// Whether `needle` occurs in `hay` as a contiguous run.
pub open spec fn occurs_in(needle: Seq<char>, hay: Seq<char>) -> bool {
    exists|k: int| 0 <= k && k + needle.len() <= hay.len() && #[trigger] hay.subrange(k, k + needle.len()) == needle
}

/// When a request carries a usable `X-REQUEST-ID` header, whatever its
/// casing, the identifier that ends up in the log record is that header's
/// value exactly: context resolution keeps it, and the logger copies the
/// context's identifier.
pub proof fn lemma_logged_id_is_header_value(
    headers: Seq<Header>,
    v: Seq<char>,
    context: Option<Context>,
    logged: Option<String>,
)
    requires
        header_request_id(headers) == Some(v),
        context matches Some(c) && resolves_to(headers, c@),
        opt_text(logged) == opt_context_id(context),
    ensures
        opt_text(logged) == Some(v),
{
}

/// Two header names that differ only in ASCII case either both name
/// `X-REQUEST-ID` or neither does.
pub proof fn lemma_request_id_name_ignores_case(a: Seq<char>, b: Seq<char>)
    requires
        a.len() == b.len(),
        forall|i: int| 0 <= i < a.len() ==> ascii_lower_code(#[trigger] a[i]) == ascii_lower_code(b[i]),
    ensures
        names_request_id(a) == names_request_id(b),
{
    if names_request_id(a) {
        assert forall|i: int| 0 <= i < b.len() implies ascii_lower_code(#[trigger] b[i])
            == request_id_header_name()[i] as int by {
            assert(ascii_lower_code(a[i]) == ascii_lower_code(b[i]));
        }
    }
    if names_request_id(b) {
        assert forall|i: int| 0 <= i < a.len() implies ascii_lower_code(#[trigger] a[i])
            == request_id_header_name()[i] as int by {
            assert(ascii_lower_code(a[i]) == ascii_lower_code(b[i]));
        }
    }
}

proof fn lemma_no_request_id_header_from(headers: Seq<Header>, i: int)
    requires
        forall|j: int| 0 <= j < headers.len() ==> !names_request_id(#[trigger] headers[j].name@),
    ensures
        request_id_value_from(headers, i).is_none(),
    decreases headers.len() - i,
{
    if 0 <= i < headers.len() {
        lemma_no_request_id_header_from(headers, i + 1);
    }
}

/// When a request has no `X-REQUEST-ID` header, in any casing, the identifier
/// it is given is the text of a UUID v4.
pub proof fn lemma_missing_header_gives_uuid_v4(headers: Seq<Header>, id: Seq<char>)
    requires
        forall|j: int| 0 <= j < headers.len() ==> !names_request_id(#[trigger] headers[j].name@),
        resolves_to(headers, id),
    ensures
        is_uuid_v4_text(id),
        id.len() > 0,
{
    lemma_no_request_id_header_from(headers, 0);
}

/// The message that `process` logs holds the payload.
pub proof fn lemma_process_log_holds_payload(payload: Seq<char>)
    ensures
        occurs_in(payload, process_log_text(payload)),
{
    let hay = process_log_text(payload);
    assert(hay.subrange(11, 11 + payload.len() as int) =~= payload);
}

/// Any number of liveness probes all succeed with the same response: nothing
/// carries over from one to the next.
pub proof fn lemma_repeated_health_independent(rs: Seq<Response>)
    requires
        forall|i: int| 0 <= i < rs.len() ==> (#[trigger] rs[i]).status == 200 && rs[i].body@
            == health_body(),
    ensures
        forall|i: int, j: int|
            0 <= i < rs.len() && 0 <= j < rs.len() ==> (#[trigger] rs[i]).status == 200 && rs[i].status
                == (#[trigger] rs[j]).status && rs[i].body@ == rs[j].body@,
{
}

/// Any number of `process` calls with the same payload all succeed with an
/// empty body and log the same message: nothing carries over from one to the
/// next.
pub proof fn lemma_repeated_process_independent(payload: Seq<char>, rs: Seq<Processed>)
    requires
        forall|i: int|
            0 <= i < rs.len() ==> (#[trigger] rs[i]).response.status == 200
                && rs[i].response.body@.len() == 0 && rs[i].log_message@ == process_log_text(
                payload,
            ),
    ensures
        forall|i: int, j: int|
            0 <= i < rs.len() && 0 <= j < rs.len() ==> (#[trigger] rs[i]).response.status == 200
                && rs[i].response.body@ == (#[trigger] rs[j]).response.body@
                && rs[i].log_message@ == rs[j].log_message@,
{
    assert forall|i: int, j: int| 0 <= i < rs.len() && 0 <= j < rs.len() implies (#[trigger] rs[i]).response.body@ == (#[trigger] rs[j]).response.body@ by {
        assert(rs[i].response.body@ =~= rs[j].response.body@);
    }
}

} // verus!
