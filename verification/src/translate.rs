use vstd::prelude::*;
use vstd::utf8::char_u32_cast;
use vstd::utf8::encode_utf8;
use vstd::utf8::is_ascii_chars;
use vstd::utf8::is_ascii_chars_encode_utf8;
use crate::body::Body;
use crate::body::BodyFraming;
use crate::body::spec_framing;
use crate::error::Error;
use crate::error::ErrorKind;
use crate::headers::HeaderEntry;
use crate::request::Request;
use crate::response::Response;
use crate::response::valid_status;

verus! {

/// Everything the engine needs to put a request on the wire: the method
/// token, the URL passed through unchanged, the header entries in their
/// original order and case, and the body framing. Producing it consumes the
/// request's body, which is read at most once.
#[derive(Debug)]
pub struct EnginePlan {
    pub method_token: String,
    pub url: String,
    pub headers: Vec<HeaderEntry>,
    pub framing: BodyFraming,
}

/// Translates a neutral request into an engine plan:
/// the method becomes its wire token, the URL is passed through verbatim,
/// every header entry is kept with its name and value untouched and in
/// order, and the body's known length picks sized framing while an unknown
/// length picks chunked framing.
pub fn plan_request(req: Request) -> (p: EnginePlan)
    ensures
        p.method_token@ == req.spec_method().spec_token(),
        p.url@ == req.spec_url(),
        p.headers@.map(|i: int, e: HeaderEntry| (e.name@, e.value@)) == req.spec_headers(),
        p.framing == spec_framing(req.spec_body_len()),
{
    let (method, url, headers, body) = req.into_parts();
    let method_token = method.token().to_owned();
    let entries = headers.into_entries();
    let framing = body.framing();
    EnginePlan { method_token, url, headers: entries, framing }
}

/// One header entry as the engine reports it: the name as text (engine
/// header names are ASCII), the value as the raw bytes that came off the
/// wire.
#[derive(Debug)]
pub struct RawHeader {
    pub name: String,
    pub value: Vec<u8>,
}

impl View for RawHeader {
    type V = (Seq<char>, Seq<u8>);

    open spec fn view(&self) -> (Seq<char>, Seq<u8>) {
        (self.name@, self.value@)
    }
}

/// Whether a byte may stand in a header value that is read back as text:
/// the visible ASCII range plus the space.
pub open spec fn visible_ascii_byte(b: u8) -> bool {
    32 <= b <= 126
}

/// Whether a whole byte sequence is readable as header text.
pub open spec fn text_bytes(bs: Seq<u8>) -> bool {
    forall|i: int| 0 <= i < bs.len() ==> visible_ascii_byte(#[trigger] bs[i])
}

/// Header text bytes read back as characters, one byte to one character.
pub open spec fn decode_text(bs: Seq<u8>) -> Seq<char> {
    bs.map_values(|b: u8| b as char)
}

/// Whether every character of a header value is visible ASCII text, the
/// form a value must have to survive the wire unchanged.
pub open spec fn visible_text(s: Seq<char>) -> bool {
    forall|i: int| 0 <= i < s.len() ==> 32 <= #[trigger] s[i] as u32 <= 126
}

/// The raw entries as they come back from the engine, paired name and bytes.
pub open spec fn raw_entries_view(raw: Seq<RawHeader>) -> Seq<(Seq<char>, Seq<u8>)> {
    raw.map(|i: int, h: RawHeader| (h.name@, h.value@))
}

/// Whether every reported header value is readable as text.
pub open spec fn all_values_text(raw: Seq<(Seq<char>, Seq<u8>)>) -> bool {
    forall|i: int| 0 <= i < raw.len() ==> text_bytes((#[trigger] raw[i]).1)
}

/// The engine's header entries read back as neutral text entries, order and
/// name case kept.
pub open spec fn decode_entries(raw: Seq<(Seq<char>, Seq<u8>)>) -> Seq<(Seq<char>, Seq<char>)> {
    raw.map(|i: int, p: (Seq<char>, Seq<u8>)| (p.0, decode_text(p.1)))
}

/// Relies on String::from_utf8: bytes below 0x80 are valid UTF-8 and decode
/// one byte to one character with the same code.
#[verifier::external_body]
fn ascii_string(bytes: &Vec<u8>) -> (r: String)
    requires
        text_bytes(bytes@),
    ensures
        r@ == decode_text(bytes@),
{
    String::from_utf8(bytes.clone()).unwrap()
}

/// Reads one reported header value back as text: succeeds with exactly one
/// character per byte when every byte is visible ASCII, and refuses the
/// value otherwise.
pub fn header_value_text(bytes: &Vec<u8>) -> (r: Option<String>)
    ensures
        match r {
            Some(s) => text_bytes(bytes@) && s@ == decode_text(bytes@),
            None => !text_bytes(bytes@),
        },
{
    let n: usize = bytes.len();
    let mut i: usize = 0;
    while i < n
        invariant
            i <= n,
            n == bytes@.len(),
            forall|j: int| 0 <= j < i ==> visible_ascii_byte(#[trigger] bytes@[j]),
        decreases n - i,
    {
        let b: u8 = bytes[i];
        if b < 32 || b > 126 {
            return None;
        }
        i = i + 1;
    }
    Some(ascii_string(bytes))
}

/// Translates the engine's answer into a neutral response. Succeeds exactly
/// when the reported status is a valid HTTP status and every header value is
/// readable as text; then the response carries that status, every header
/// entry in the engine's order with its value read back byte for byte, and a
/// body of the length the engine reported. Any other answer is refused as
/// malformed, and no response is built.
pub fn build_response(status: u16, raw_headers: Vec<RawHeader>, body_len: Option<u64>) -> (r:
    Result<Response, Error>)
    ensures
        match r {
            Ok(resp) => {
                &&& valid_status(status)
                &&& all_values_text(raw_entries_view(raw_headers@))
                &&& resp.wf()
                &&& resp.spec_status() == status
                &&& resp.spec_headers() == decode_entries(raw_entries_view(raw_headers@))
                &&& resp.spec_body_len() == body_len
            },
            Err(e) => {
                &&& !(valid_status(status) && all_values_text(raw_entries_view(raw_headers@)))
                &&& e.spec_kind() == ErrorKind::ResponseMalformed
            },
        },
{
    if status < 100 || status > 599 {
        return Err(Error::malformed("engine reported a status code outside 100..=599".to_owned()));
    }
    let mut resp = Response::new(status);
    let n: usize = raw_headers.len();
    let mut i: usize = 0;
    while i < n
        invariant
            i <= n,
            n == raw_headers@.len(),
            valid_status(status),
            resp.wf(),
            resp.spec_status() == status,
            resp.spec_body_len() == Some(0u64),
            forall|j: int| 0 <= j < i ==> text_bytes((#[trigger] raw_entries_view(raw_headers@)[j]).1),
            resp.spec_headers() == decode_entries(raw_entries_view(raw_headers@).take(i as int)),
        decreases n - i,
    {
        let entry = &raw_headers[i];
        match header_value_text(&entry.value) {
            Some(text) => {
                let ghost before = resp.spec_headers();
                resp.append_header(entry.name.clone(), text);
                proof {
                    assert(raw_entries_view(raw_headers@).take(i + 1) =~= raw_entries_view(
                        raw_headers@,
                    ).take(i as int).push((entry.name@, entry.value@)));
                    assert(resp.spec_headers() =~= decode_entries(
                        raw_entries_view(raw_headers@).take(i + 1),
                    ));
                }
            },
            None => {
                proof {
                    assert(raw_entries_view(raw_headers@)[i as int] == (entry.name@, entry.value@));
                    assert(!all_values_text(raw_entries_view(raw_headers@)));
                }
                return Err(
                    Error::malformed("engine reported a header value that is not text".to_owned()),
                );
            },
        }
        i = i + 1;
    }
    proof {
        assert(raw_entries_view(raw_headers@).take(n as int) =~= raw_entries_view(raw_headers@));
    }
    let body = match body_len {
        Some(len) => Body::sized(len),
        None => Body::unknown_length(),
    };
    resp.set_body(body);
    Ok(resp)
}

/// A visible ASCII character lies in the seven-bit range.
proof fn lemma_visible_char_ascii(c: char)
    requires
        32 <= c as u32 <= 126,
    ensures
        '\0' <= c <= '\u{7f}',
{
}

/// One header value crosses the wire and comes back unchanged: a value of
/// visible ASCII text encodes to one byte per character, every byte is
/// readable as header text, and reading it back yields the very characters
/// that were sent.
pub proof fn lemma_value_round_trip(v: Seq<char>)
    requires
        visible_text(v),
    ensures
        text_bytes(encode_utf8(v)),
        decode_text(encode_utf8(v)) == v,
{
    assert forall|j: int| 0 <= j < v.len() implies '\0' <= #[trigger] v[j] <= '\u{7f}' by {
        lemma_visible_char_ascii(v[j]);
    }
    assert(is_ascii_chars(v));
    is_ascii_chars_encode_utf8(v);
    let bytes = encode_utf8(v);
    assert forall|j: int| 0 <= j < bytes.len() implies visible_ascii_byte(#[trigger] bytes[j]) by {
        assert(bytes[j] == v[j] as u8);
    }
    assert forall|j: int| 0 <= j < v.len() implies decode_text(bytes)[j] == v[j] by {
        assert(bytes[j] == v[j] as u8);
        char_u32_cast(v[j], v[j] as u32);
    }
    assert(decode_text(bytes) =~= v);
}

/// What an engine that echoes the request reports for the sent header
/// entries: the same names, and each value as the bytes it carried on the
/// wire.
pub open spec fn reflected_entries(sent: Seq<(Seq<char>, Seq<char>)>) -> Seq<(Seq<char>, Seq<u8>)> {
    sent.map(|i: int, p: (Seq<char>, Seq<char>)| (p.0, encode_utf8(p.1)))
}

/// Round-trip header fidelity: for every sequence of header entries whose
/// values are visible ASCII text, an echoing engine reports entries that are
/// all readable back, and reading them back yields exactly the entries that
/// were sent — same names in the same case, same values, same order.
pub proof fn lemma_header_round_trip(sent: Seq<(Seq<char>, Seq<char>)>)
    requires
        forall|i: int| 0 <= i < sent.len() ==> visible_text((#[trigger] sent[i]).1),
    ensures
        all_values_text(reflected_entries(sent)),
        decode_entries(reflected_entries(sent)) == sent,
{
    let reflected = reflected_entries(sent);
    assert forall|i: int| 0 <= i < reflected.len() implies text_bytes(
        (#[trigger] reflected[i]).1,
    ) by {
        lemma_value_round_trip(sent[i].1);
    }
    assert forall|i: int| 0 <= i < sent.len() implies decode_entries(reflected)[i] == sent[i] by {
        lemma_value_round_trip(sent[i].1);
    }
    assert(decode_entries(reflected) =~= sent);
}

} // verus!

