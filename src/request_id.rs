//! The request-identity stage: every request carries a correlation identifier,
//! the caller's own where one was sent, else a freshly generated one.

use vstd::prelude::*;
use crate::envelope::{find_header, first_value, headers_view, HeaderEntry, RequestEnvelope};
use crate::span::correlation_header;
use vstd::string::StringExecFns;

verus! {

pub open spec fn is_lower_hex(c: char) -> bool {
    ('0' <= c && c <= '9') || ('a' <= c && c <= 'f')
}

/// Text in the hyphenated lower-case form of a UUID:
/// 8, 4, 4, 4 and 12 hex digits separated by hyphens.
pub open spec fn is_uuid_text(s: Seq<char>) -> bool {
    &&& s.len() == 36
    &&& forall|i: int|
        0 <= i < 36 ==> if i == 8 || i == 13 || i == 18 || i == 23 {
            #[trigger] s[i] == '-'
        } else {
            is_lower_hex(s[i])
        }
}

/// Relies on uuid::Uuid::new_v4, a random version-4 UUID, and on its
/// `Display`, which writes the hyphenated lower-case form.
#[verifier::external_body]
fn new_request_id() -> (r: String)
    ensures
        is_uuid_text(r@),
{
    uuid::Uuid::new_v4().to_string()
}

/// The headers of a request once the identity stage has run with `id` as the
/// identifier it would generate: unchanged where the caller sent one.
pub open spec fn with_request_id(hv: Seq<(Seq<char>, Seq<char>)>, id: Seq<char>) -> Seq<(Seq<char>, Seq<char>)> {
    if first_value(hv, correlation_header()) is Some {
        hv
    } else {
        hv.push((correlation_header(), id))
    }
}

/// Adding a header changes the first value of a name only where the name had none.
pub proof fn lemma_first_value_push(hs: Seq<(Seq<char>, Seq<char>)>, e: (Seq<char>, Seq<char>), n: Seq<char>)
    ensures
        first_value(hs.push(e), n) == match first_value(hs, n) {
            Some(v) => Some(v),
            None => if e.0 == n { Some(e.1) } else { None },
        },
    decreases hs.len(),
{
    if hs.len() == 0 {
        assert(hs.push(e).drop_first() =~= hs);
    } else {
        assert(hs.push(e).drop_first() =~= hs.drop_first().push(e));
        lemma_first_value_push(hs.drop_first(), e, n);
    }
}

/// Makes sure `req` carries a correlation identifier and returns it: the
/// caller's where the request has one, else a fresh UUID added as a header.
pub fn ensure_request_id(req: &mut RequestEnvelope) -> (id: String)
    ensures
        final(req).method == old(req).method,
        final(req).target == old(req).target,
        final(req).version == old(req).version,
        match first_value(headers_view(old(req).headers@), correlation_header()) {
            Some(v) => id@ == v,
            None => is_uuid_text(id@),
        },
        headers_view(final(req).headers@) == with_request_id(headers_view(old(req).headers@), id@),
        first_value(headers_view(final(req).headers@), correlation_header()) == Some(id@),
{
    let name = String::from_str("x-correlation-id");
    let ghost hv = headers_view(req.headers@);
    match find_header(&req.headers, &name) {
        Some(i) => req.headers[i].value.clone(),
        None => {
            let id = new_request_id();
            let entry = HeaderEntry { name, value: id.clone() };
            let ghost e = entry@;
            req.headers.push(entry);
            proof {
                assert(headers_view(req.headers@) =~= hv.push(e));
                lemma_first_value_push(hv, e, correlation_header());
            }
            id
        },
    }
}

} // verus!
