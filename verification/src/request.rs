//! The HTTP requests of the tracking protocol, built as plain data.
//!
//! Every state-changing call of this client is described exactly: a method, a
//! full URL, query parameters, and a body whose bytes are pinned down by the
//! specification functions below.  The unverified application layer only
//! executes such a value over the wire; it composes nothing itself.

use vstd::prelude::*;

verus! {

use vstd::string::StringSliceAdditionalSpecFns;
use vstd::string::StringExecFns;

#[derive(Clone, Copy, PartialEq, Eq, Structural, Debug)]
pub enum HttpMethod {
    Get,
    Post,
}

/// A request body: either a JSON document (sent with a JSON content type) or a
/// raw byte blob (an artifact upload), or nothing.
pub enum RequestBody {
    Empty,
    Json(Vec<u8>),
    Raw(Vec<u8>),
}

/// One fully-described HTTP request against the tracking service.
pub struct HttpRequest {
    pub method: HttpMethod,
    pub url: String,
    pub query: Vec<(String, String)>,
    pub body: RequestBody,
}

impl HttpRequest {
    /// The bytes this request carries, whatever their content type.
    pub open spec fn body_bytes(&self) -> Seq<u8> {
        match self.body {
            RequestBody::Empty => Seq::<u8>::empty(),
            RequestBody::Json(b) => b@,
            RequestBody::Raw(b) => b@,
        }
    }

    pub open spec fn is_json(&self) -> bool {
        self.body is Json
    }

    pub open spec fn is_raw(&self) -> bool {
        self.body is Raw
    }
}

/// How one byte of a string is written inside a JSON string literal, exactly
/// as the service's JSON codec writes it: `"` and `\` get a backslash escape,
/// the named control characters get their short forms, the remaining control
/// characters get a `\u00..` escape with lowercase hex digits, and every other
/// byte (including multi-byte UTF-8 units, which are all at least 0x80) passes
/// through unchanged.
pub open spec fn json_escaped_byte(b: u8) -> Seq<u8> {
    if b == 0x22 {
        seq![0x5cu8, 0x22u8]
    } else if b == 0x5c {
        seq![0x5cu8, 0x5cu8]
    } else if b == 0x08 {
        seq![0x5cu8, 0x62u8]
    } else if b == 0x09 {
        seq![0x5cu8, 0x74u8]
    } else if b == 0x0a {
        seq![0x5cu8, 0x6eu8]
    } else if b == 0x0c {
        seq![0x5cu8, 0x66u8]
    } else if b == 0x0d {
        seq![0x5cu8, 0x72u8]
    } else if b < 0x20 {
        seq![0x5cu8, 0x75u8, 0x30u8, 0x30u8, hex_digit((b / 16) as nat), hex_digit((b % 16) as nat)]
    } else {
        seq![b]
    }
}

/// The lowercase hexadecimal digit for `d < 16`.
pub open spec fn hex_digit(d: nat) -> u8 {
    if d < 10 {
        (0x30 + d) as u8
    } else {
        (0x57 + d) as u8
    }
}

/// A whole byte string, escaped for use inside a JSON string literal.
pub open spec fn json_escaped(s: Seq<u8>) -> Seq<u8>
    decreases s.len(),
{
    if s.len() == 0 {
        Seq::<u8>::empty()
    } else {
        json_escaped(s.drop_last()) + json_escaped_byte(s.last())
    }
}

/// A JSON string literal: the escaped bytes between double quotes.
pub open spec fn json_quoted(s: Seq<u8>) -> Seq<u8> {
    seq![0x22u8] + json_escaped(s) + seq![0x22u8]
}

/// Appends the bytes of `s` to `out`.
pub fn append_bytes(out: &mut Vec<u8>, s: &[u8])
    ensures
        final(out)@ == old(out)@ + s@,
{
    let len = s.len();
    let mut i: usize = 0;
    while i < len
        invariant
            0 <= i <= len,
            len == s@.len(),
            out@ == old(out)@ + s@.subrange(0, i as int),
        decreases len - i,
    {
        out.push(s[i]);
        assert(out@ =~= old(out)@ + s@.subrange(0, i + 1 as int));
        i += 1;
    }
    assert(out@ =~= old(out)@ + s@);
}

/// Appends the UTF-8 bytes of `s` to `out`.
pub fn append_str(out: &mut Vec<u8>, s: &str)
    ensures
        final(out)@ == old(out)@ + s.spec_bytes(),
{
    append_bytes(out, s.as_bytes());
}

fn hex_digit_byte(d: u8) -> (r: u8)
    requires
        d < 16,
    ensures
        r == hex_digit(d as nat),
{
    if d < 10 {
        0x30 + d
    } else {
        0x57 + d
    }
}

/// Appends `s`, escaped for a JSON string literal, to `out`.
pub fn append_json_escaped(out: &mut Vec<u8>, s: &[u8])
    ensures
        final(out)@ == old(out)@ + json_escaped(s@),
{
    let len = s.len();
    let mut i: usize = 0;
    while i < len
        invariant
            0 <= i <= len,
            len == s@.len(),
            out@ == old(out)@ + json_escaped(s@.subrange(0, i as int)),
        decreases len - i,
    {
        let b = s[i];
        if b == 0x22 {
            out.push(0x5c);
            out.push(0x22);
        } else if b == 0x5c {
            out.push(0x5c);
            out.push(0x5c);
        } else if b == 0x08 {
            out.push(0x5c);
            out.push(0x62);
        } else if b == 0x09 {
            out.push(0x5c);
            out.push(0x74);
        } else if b == 0x0a {
            out.push(0x5c);
            out.push(0x6e);
        } else if b == 0x0c {
            out.push(0x5c);
            out.push(0x66);
        } else if b == 0x0d {
            out.push(0x5c);
            out.push(0x72);
        } else if b < 0x20 {
            out.push(0x5c);
            out.push(0x75);
            out.push(0x30);
            out.push(0x30);
            out.push(hex_digit_byte(b / 16));
            out.push(hex_digit_byte(b % 16));
        } else {
            out.push(b);
        }
        proof {
            assert(s@.subrange(0, i + 1 as int).drop_last() =~= s@.subrange(0, i as int));
            assert(s@.subrange(0, i + 1 as int).last() == s@[i as int]);
            assert(out@ =~= old(out)@ + json_escaped(s@.subrange(0, i + 1 as int)));
        }
        i += 1;
    }
    assert(s@.subrange(0, len as int) =~= s@);
}

/// Appends `s` as a JSON string literal (quotes included) to `out`.
pub fn append_json_string(out: &mut Vec<u8>, s: &str)
    ensures
        final(out)@ == old(out)@ + json_quoted(s.spec_bytes()),
{
    out.push(0x22);
    append_json_escaped(out, s.as_bytes());
    out.push(0x22);
    assert(final(out)@ =~= old(out)@ + json_quoted(s.spec_bytes()));
}

/// The full URL of an endpoint: the configured root followed by a fixed path.
pub fn endpoint_url(api_root: &str, path: &str) -> (r: String)
    ensures
        r@ == api_root@ + path@,
{
    let mut url = String::from_str(api_root);
    url.append(path);
    url
}

} // verus!
