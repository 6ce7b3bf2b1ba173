//! Plain-value model of what the pipeline reads from an HTTP request and what
//! it hands back as a response.

use vstd::prelude::*;
use vstd::string::StrSliceExecFns;

verus! {

/// One header line. Names are lower case, as HTTP header maps store them;
/// a value holds the header's bytes read as text.
pub struct HeaderEntry {
    pub name: String,
    pub value: String,
}

impl HeaderEntry {
    pub open spec fn view(&self) -> (Seq<char>, Seq<char>) {
        (self.name@, self.value@)
    }
}

/// The HTTP protocol version a request arrived with.
#[derive(Clone, Copy, PartialEq, Eq, Structural, Debug)]
pub enum HttpVersion {
    Http09,
    Http10,
    Http11,
    Http2,
    Http3,
    /// A version that has no label.
    Unknown,
}

/// The inbound request: method, target, protocol version and headers.
pub struct RequestEnvelope {
    pub method: String,
    pub target: String,
    pub version: HttpVersion,
    pub headers: Vec<HeaderEntry>,
}

/// The outbound response: status code, body text and headers.
pub struct Response {
    pub status: u16,
    pub body: String,
    pub headers: Vec<HeaderEntry>,
}

pub open spec fn headers_view(hs: Seq<HeaderEntry>) -> Seq<(Seq<char>, Seq<char>)> {
    hs.map_values(|h: HeaderEntry| h@)
}

/// The value of the first header called `name`, if there is one.
pub open spec fn first_value(hs: Seq<(Seq<char>, Seq<char>)>, name: Seq<char>) -> Option<Seq<char>>
    decreases hs.len(),
{
    if hs.len() == 0 {
        None
    } else if hs[0].0 == name {
        Some(hs[0].1)
    } else {
        first_value(hs.drop_first(), name)
    }
}

/// A character that a header value may hold and still be read as text:
/// visible ASCII, space or tab.
pub open spec fn is_visible(c: char) -> bool {
    (' ' <= c && c <= '~') || c == '\t'
}

pub open spec fn all_visible(s: Seq<char>) -> bool {
    forall|i: int| 0 <= i < s.len() ==> is_visible(#[trigger] s[i])
}

/// What tracing records of a header: its first value, where that value is text.
pub open spec fn traced_value(hs: Seq<(Seq<char>, Seq<char>)>, name: Seq<char>) -> Option<Seq<char>> {
    match first_value(hs, name) {
        Some(v) => if all_visible(v) { Some(v) } else { None },
        None => None,
    }
}

pub open spec fn opt_string_view(o: Option<String>) -> Option<Seq<char>> {
    match o {
        Some(s) => Some(s@),
        None => None,
    }
}

pub open spec fn opt_str_view(o: Option<&'static str>) -> Option<Seq<char>> {
    match o {
        Some(s) => Some(s@),
        None => None,
    }
}

/// The label that tracing gives a protocol version.
pub open spec fn flavor_label(v: HttpVersion) -> Option<Seq<char>> {
    match v {
        HttpVersion::Http09 => Some("0.9"@),
        HttpVersion::Http10 => Some("1.0"@),
        HttpVersion::Http11 => Some("1.1"@),
        HttpVersion::Http2 => Some("2.0"@),
        HttpVersion::Http3 => Some("3.0"@),
        HttpVersion::Unknown => None,
    }
}

/// The position of the first header called `name`.
pub fn find_header(headers: &Vec<HeaderEntry>, name: &String) -> (r: Option<usize>)
    ensures
        match r {
            Some(i) => i < headers@.len() && first_value(headers_view(headers@), name@)
                == Some(headers@[i as int].value@),
            None => first_value(headers_view(headers@), name@) is None,
        },
{
    let ghost hv = headers_view(headers@);
    let mut i: usize = 0;
    assert(hv.subrange(0, hv.len() as int) =~= hv);
    while i < headers.len()
        invariant
            i <= headers@.len(),
            hv == headers_view(headers@),
            first_value(hv, name@) == first_value(hv.subrange(i as int, hv.len() as int), name@),
        decreases headers@.len() - i,
    {
        let ghost rest = hv.subrange(i as int, hv.len() as int);
        assert(rest.drop_first() =~= hv.subrange(i + 1, hv.len() as int));
        if headers[i].name == *name {
            return Some(i);
        }
        i = i + 1;
    }
    None
}

/// Whether every character of `s` is one that a textual header value may hold.
pub fn is_visible_text(s: &String) -> (r: bool)
    ensures
        r == all_visible(s@),
{
    let n = s.as_str().unicode_len();
    let mut i: usize = 0;
    while i < n
        invariant
            n == s@.len(),
            i <= n,
            forall|j: int| 0 <= j < i ==> is_visible(#[trigger] s@[j]),
        decreases n - i,
    {
        let c = s.as_str().get_char(i);
        if !((' ' <= c && c <= '~') || c == '\t') {
            return false;
        }
        i = i + 1;
    }
    true
}

/// The first value of header `name`, where it can be read as text.
pub fn header_value_for_tracing(headers: &Vec<HeaderEntry>, name: &String) -> (r: Option<String>)
    ensures
        opt_string_view(r) == traced_value(headers_view(headers@), name@),
{
    match find_header(headers, name) {
        Some(i) => {
            if is_visible_text(&headers[i].value) {
                Some(headers[i].value.clone())
            } else {
                None
            }
        },
        None => None,
    }
}

/// The tracing label of a protocol version; none for an unrecognised one.
pub fn to_flavor(v: HttpVersion) -> (r: Option<&'static str>)
    ensures
        opt_str_view(r) == flavor_label(v),
{
    match v {
        HttpVersion::Http09 => Some("0.9"),
        HttpVersion::Http10 => Some("1.0"),
        HttpVersion::Http11 => Some("1.1"),
        HttpVersion::Http2 => Some("2.0"),
        HttpVersion::Http3 => Some("3.0"),
        HttpVersion::Unknown => None,
    }
}

/// A protocol version's label is one of "0.9", "1.0", "1.1", "2.0" and "3.0",
/// or there is none; only an unrecognised version has none.
pub proof fn lemma_flavor_label_known(v: HttpVersion)
    ensures
        match flavor_label(v) {
            Some(l) => set!["0.9"@, "1.0"@, "1.1"@, "2.0"@, "3.0"@].contains(l),
            None => v == HttpVersion::Unknown,
        },
{
}

} // verus!
