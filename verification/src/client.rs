//! What the HTTP client is built from.

use vstd::prelude::*;
use vstd::string::*;
use vstd::utf8::{encode_scalar, encode_utf8};
use crate::error::ClientError;

verus! {

/// How the tool names itself to the server.
pub const USER_AGENT: &'static str =
    "Mozilla/5.0 (Windows NT 10.0; Win64; x64; rv:112.0) Gecko/20100101 Firefox/132.0";

/// The media type asked of the server.
pub const ACCEPT: &'static str = "application/vnd.github+json";

/// The version of the API that the requests are written for.
pub const API_VERSION: &'static str = "2022-11-28";

/// Seconds between the keepalive probes of a connection.
pub const KEEPALIVE_SECS: u64 = 10;

/// One header of a request.
#[derive(Debug, Clone, PartialEq, Eq)]
pub struct Header {
    pub name: String,
    pub value: String,
}

impl View for Header {
    type V = (Seq<char>, Seq<char>);

    open spec fn view(&self) -> (Seq<char>, Seq<char>) {
        (self.name@, self.value@)
    }
}

/// What every request of a run is sent with.
#[derive(Debug, Clone, PartialEq, Eq)]
pub struct ClientSettings {
    /// The headers of every request, in the order in which they are set.
    pub default_headers: Vec<Header>,
    /// Whether compressed answers are asked for and unpacked.
    pub gzip: bool,
    /// Seconds between keepalive probes; `None` switches them off.
    pub tcp_keepalive_secs: Option<u64>,
}

/// Whether `c` may stand in the value of a header: a tab, or any character
/// that is no ASCII control character.
pub open spec fn header_char_ok(c: char) -> bool {
    c as u32 == 9 || (c as u32 >= 32 && c as u32 != 127)
}

/// Whether `text` may be the value of a header.
pub open spec fn is_header_value(text: Seq<char>) -> bool {
    forall|i: int| 0 <= i < text.len() ==> header_char_ok(#[trigger] text[i])
}

/// Whether the byte `b` may stand in the value of a header.
pub open spec fn header_byte_ok(b: u8) -> bool {
    b >= 32 && b != 127 || b == 9
}

/// Whether each of `bytes` may stand in the value of a header.
pub open spec fn are_header_bytes(bytes: Seq<u8>) -> bool {
    forall|i: int| 0 <= i < bytes.len() ==> header_byte_ok(#[trigger] bytes[i])
}

/// A scalar below 128 is encoded as itself; the bytes of any other are all
/// above 127.
proof fn lemma_scalar_bytes(v: u32)
    by (bit_vector)
    requires
        v <= 0x10FFFF,
    ensures
        v <= 0x7F ==> (v & 0x7F) as u8 == v,
        (0xC0u8 | ((v >> 6) & 0x1F) as u8) >= 0x80,
        (0xE0u8 | ((v >> 12) & 0x0F) as u8) >= 0x80,
        (0xF0u8 | ((v >> 18) & 0x7) as u8) >= 0x80,
        (0x80u8 | (v & 0x3F) as u8) >= 0x80,
        (0x80u8 | ((v >> 6) & 0x3F) as u8) >= 0x80,
        (0x80u8 | ((v >> 12) & 0x3F) as u8) >= 0x80,
{
}

/// The bytes of one character may stand in a header exactly if it may.
proof fn lemma_header_char_bytes(c: char)
    ensures
        are_header_bytes(encode_scalar(c as u32)) == header_char_ok(c),
        encode_scalar(c as u32).len() > 0,
{
    let v = c as u32;
    lemma_scalar_bytes(v);
    let bytes = encode_scalar(v);
    if v <= 0x7F {
        assert(bytes[0] == v);
    }
}

/// A text may be the value of a header exactly if each byte of its UTF-8
/// form may stand in one.
pub proof fn lemma_header_value_bytes(text: Seq<char>)
    ensures
        are_header_bytes(encode_utf8(text)) == is_header_value(text),
    decreases text.len(),
{
    if text.len() > 0 {
        let head = encode_scalar(text[0] as u32);
        let rest = encode_utf8(text.drop_first());
        lemma_header_char_bytes(text[0]);
        lemma_header_value_bytes(text.drop_first());
        if are_header_bytes(head + rest) {
            assert forall|i: int| 0 <= i < head.len() implies header_byte_ok(
                #[trigger] head[i],
            ) by {
                assert(head[i] == (head + rest)[i]);
            }
            assert forall|i: int| 0 <= i < rest.len() implies header_byte_ok(
                #[trigger] rest[i],
            ) by {
                assert(rest[i] == (head + rest)[i + head.len()]);
            }
            assert forall|i: int| 0 <= i < text.len() implies header_char_ok(
                #[trigger] text[i],
            ) by {
                if i > 0 {
                    assert(text[i] == text.drop_first()[i - 1]);
                }
            }
        }
    }
}

/// Whether `HeaderValue::try_from` of the `http` crate, which `reqwest` hands
/// on, takes `text`: it does exactly if every byte of `text` is a tab or at
/// least 32 and not 127.
#[verifier::external_body]
fn accepts_header_value(text: &str) -> (ok: bool)
    ensures
        ok == are_header_bytes(encode_utf8(text@)),
{
    reqwest::header::HeaderValue::try_from(text.to_owned()).is_ok()
}

/// The value of the authorization header for `token`.
pub open spec fn authorization(token: Seq<char>) -> Seq<char> {
    "token "@ + token
}

/// The headers of every request, each as its name and its value.
pub open spec fn default_headers(token: Seq<char>) -> Seq<(Seq<char>, Seq<char>)> {
    seq![
        ("User-Agent"@, USER_AGENT@),
        ("Authorization"@, authorization(token)),
        ("Accept"@, ACCEPT@),
        ("X-GitHub-Api-Version"@, API_VERSION@),
    ]
}

/// The names and values of `headers`.
pub open spec fn header_views(headers: Seq<Header>) -> Seq<(Seq<char>, Seq<char>)> {
    headers.map_values(|h: Header| h@)
}

/// The header `name: value`.
fn header(name: &str, value: &str) -> (out: Header)
    ensures
        out@ == (name@, value@),
{
    Header { name: String::from_str(name), value: String::from_str(value) }
}

/// The settings of the client for `token`: the four fixed headers, compressed
/// answers, and a keepalive probe every ten seconds. It fails exactly where
/// the token holds a character that no header value may hold.
pub fn build_client(token: &str) -> (out: Result<ClientSettings, ClientError>)
    ensures
        out is Ok <==> is_header_value(token@),
        out matches Ok(settings) ==> {
            &&& header_views(settings.default_headers@) == default_headers(token@)
            &&& settings.gzip
            &&& settings.tcp_keepalive_secs == Some(KEEPALIVE_SECS)
        },
{
    let mut authorization = String::from_str("token ");
    authorization.append(token);
    proof {
        reveal_strlit("token ");
        lemma_header_value_bytes(authorization@);
        if is_header_value(authorization@) {
            assert forall|i: int| 0 <= i < token@.len() implies header_char_ok(
                #[trigger] token@[i],
            ) by {
                assert(token@[i] == authorization@[i + 6]);
            }
        }
    }
    if !accepts_header_value(authorization.as_str()) {
        return Err(ClientError);
    }
    let mut headers: Vec<Header> = Vec::new();
    headers.push(header("User-Agent", USER_AGENT));
    headers.push(header("Authorization", authorization.as_str()));
    headers.push(header("Accept", ACCEPT));
    headers.push(header("X-GitHub-Api-Version", API_VERSION));
    Ok(
        ClientSettings {
            default_headers: headers,
            gzip: true,
            tcp_keepalive_secs: Some(KEEPALIVE_SECS),
        },
    )
}

} // verus!
