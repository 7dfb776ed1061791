use vstd::prelude::*;

use crate::message::{Header, Request};

verus! {

/// The lower-case hexadecimal digits.
pub open spec fn is_lower_hex(c: char) -> bool {
    ('0' <= c && c <= '9') || ('a' <= c && c <= 'f')
}

/// The canonical text of a random (version 4) UUID: 36 characters in the
/// hyphenated lower-case form, version digit `4`, variant bits `10`.
pub open spec fn is_uuid_v4_text(s: Seq<char>) -> bool {
    &&& s.len() == 36
    &&& forall|i: int|
        0 <= i < 36 ==> if i == 8 || i == 13 || i == 18 || i == 23 {
            s[i] == '-'
        } else {
            is_lower_hex(#[trigger] s[i])
        }
    &&& s[14] == '4'
    &&& (s[19] == '8' || s[19] == '9' || s[19] == 'a' || s[19] == 'b')
}

/// Relies on `uuid::Uuid::new_v4`, which draws 128 random bits and then fixes
/// the version nibble to 4 and the variant bits to `10`, and on the `Display`
/// of `uuid::Uuid`, which writes the lower-case hyphenated form. (`new_v4`
/// panics only when the operating system's random source fails.)
#[verifier::external_body]
fn random_uuid_v4_text() -> (r: String)
    ensures
        is_uuid_v4_text(r@),
{
    uuid::Uuid::new_v4().to_string()
}

/// The header that carries a caller's correlation identifier, in lower case.
pub open spec fn request_id_header_name() -> Seq<char> {
    seq!['x', '-', 'r', 'e', 'q', 'u', 'e', 's', 't', '-', 'i', 'd']
}

/// A character's code with ASCII upper-case letters folded to lower case.
pub open spec fn ascii_lower_code(c: char) -> int {
    if 'A' <= c && c <= 'Z' {
        (c as int) + 32
    } else {
        c as int
    }
}

/// Whether a header name is `X-REQUEST-ID`, in any ASCII casing.
pub open spec fn names_request_id(name: Seq<char>) -> bool {
    &&& name.len() == request_id_header_name().len()
    &&& forall|i: int|
        0 <= i < name.len() ==> ascii_lower_code(#[trigger] name[i])
            == request_id_header_name()[i] as int
}

/// A character that a header value may hold and still be read as text:
/// visible ASCII or a tab.
pub open spec fn is_header_char(c: char) -> bool {
    c == '\t' || (' ' <= c && c <= '~')
}

/// Whether a header value reads as text.
pub open spec fn is_header_text(v: Seq<char>) -> bool {
    forall|i: int| 0 <= i < v.len() ==> is_header_char(#[trigger] v[i])
}

/// The value of the first `X-REQUEST-ID` header at index `i` or after.
pub open spec fn request_id_value_from(headers: Seq<Header>, i: int) -> Option<Seq<char>>
    decreases headers.len() - i,
{
    if i < 0 || i >= headers.len() {
        None
    } else if names_request_id(headers[i].name@) {
        Some(headers[i].value@)
    } else {
        request_id_value_from(headers, i + 1)
    }
}

/// The correlation identifier that a caller supplied: the value of the first
/// `X-REQUEST-ID` header, where it reads as text and is not empty.
pub open spec fn header_request_id(headers: Seq<Header>) -> Option<Seq<char>> {
    match request_id_value_from(headers, 0) {
        Some(v) => if v.len() > 0 && is_header_text(v) {
            Some(v)
        } else {
            None
        },
        None => None,
    }
}

/// Whether `id` is an identifier that context resolution may give a request
/// with these headers: the caller's own, or else a fresh UUID v4.
pub open spec fn resolves_to(headers: Seq<Header>, id: Seq<char>) -> bool {
    match header_request_id(headers) {
        Some(v) => id == v,
        None => is_uuid_v4_text(id),
    }
}

fn is_request_id_name(name: &str) -> (r: bool)
    ensures
        r == names_request_id(name@),
{
    let target: &str = "x-request-id";
    proof {
        reveal_strlit("x-request-id");
        assert(target@ =~= request_id_header_name());
    }
    let n = name.unicode_len();
    if n != 12 {
        return false;
    }
    let mut i: usize = 0;
    while i < n
        invariant
            n == name@.len(),
            n == 12,
            target@ == request_id_header_name(),
            i <= n,
            forall|j: int| 0 <= j < i ==> ascii_lower_code(#[trigger] name@[j])
                == request_id_header_name()[j] as int,
        decreases n - i,
    {
        let c = name.get_char(i);
        let code: u32 = if 'A' <= c && c <= 'Z' {
            (c as u32) + 32
        } else {
            c as u32
        };
        if code != target.get_char(i) as u32 {
            return false;
        }
        i = i + 1;
    }
    true
}

fn is_text_value(value: &str) -> (r: bool)
    ensures
        r == is_header_text(value@),
{
    let n = value.unicode_len();
    let mut i: usize = 0;
    while i < n
        invariant
            n == value@.len(),
            i <= n,
            forall|j: int| 0 <= j < i ==> is_header_char(#[trigger] value@[j]),
        decreases n - i,
    {
        let c = value.get_char(i);
        if !(c == '\t' || (' ' <= c && c <= '~')) {
            return false;
        }
        i = i + 1;
    }
    true
}

/// The correlation identifier that the caller supplied in these headers, if
/// any: the first `X-REQUEST-ID` header (name matched without regard to ASCII
/// case) whose value reads as text and is not empty.
pub fn request_id_from_headers(headers: &Vec<Header>) -> (r: Option<String>)
    ensures
        match r {
            Some(s) => header_request_id(headers@) == Some(s@),
            None => header_request_id(headers@).is_none(),
        },
{
    let mut i: usize = 0;
    while i < headers.len()
        invariant
            i <= headers@.len(),
            request_id_value_from(headers@, 0) == request_id_value_from(headers@, i as int),
        decreases headers@.len() - i,
    {
        if is_request_id_name(headers[i].name.as_str()) {
            let v = &headers[i].value;
            if v.as_str().unicode_len() > 0 && is_text_value(v.as_str()) {
                return Some(v.clone());
            }
            return None;
        }
        i = i + 1;
    }
    None
}

/// Resolves the request's correlation context from its headers and attaches
/// it to the request; nothing else of the request changes.
pub fn add_context_to_request(req: &mut Request)
    ensures
        final(req).method == old(req).method,
        final(req).uri == old(req).uri,
        final(req).headers == old(req).headers,
        final(req).context matches Some(c) && resolves_to(old(req).headers@, c@),
{
    let request_id = request_id_from_headers(&req.headers);
    req.context = Some(Context::new(request_id));
}

/// The correlation context of one request: its identifier, never empty.
#[derive(Debug)]
pub struct Context {
    request_id: String,
}

impl View for Context {
    type V = Seq<char>;

    closed spec fn view(&self) -> Seq<char> {
        self.request_id@
    }
}

impl Clone for Context {
    fn clone(&self) -> (r: Context)
        ensures
            r@ == self@,
    {
        proof {
            use_type_invariant(self);
        }
        Context { request_id: self.request_id.clone() }
    }
}

impl Context {
    #[verifier::type_invariant]
    spec fn inv(&self) -> bool {
        self.request_id@.len() > 0
    }

    /// A context that keeps the given identifier when there is one and it is
    /// not empty, and otherwise takes a freshly generated UUID v4.
    pub fn new(request_id: Option<String>) -> (r: Context)
        ensures
            r@.len() > 0,
            match request_id {
                Some(s) => if s@.len() > 0 {
                    r@ == s@
                } else {
                    is_uuid_v4_text(r@)
                },
                None => is_uuid_v4_text(r@),
            },
    {
        let id = match request_id {
            Some(s) => if s.as_str().unicode_len() > 0 {
                s
            } else {
                random_uuid_v4_text()
            },
            None => random_uuid_v4_text(),
        };
        Context { request_id: id }
    }

    pub fn get_request_id(&self) -> (r: String)
        ensures
            r@ == self@,
            r@.len() > 0,
    {
        proof {
            use_type_invariant(self);
        }
        self.request_id.clone()
    }
}

} // verus!
