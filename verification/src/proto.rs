//! The wire protocol between command-line clients, the daemon and browsers.
//!
//! A client opens a connection with a header frame:
//! `[version: u16 big endian] [json length: u16 big endian] [json: utf8]`,
//! followed by the data it pipes.

use vstd::prelude::*;
use crate::json::{JsonValue, json_accepts, json_string_member, json_from_slice, parse_json, get_string_field, opt_string_view};

verus! {

/// The protocol version that clients write and the daemon accepts.
pub const PROTOCOL_VERSION: u16 = 1u16;

/// The two bytes of a 16-bit number, most significant first.
pub open spec fn be16(v: u16) -> Seq<u8> {
    seq![(v / 256) as u8, (v % 256) as u8]
}

/// The 16-bit number whose big-endian bytes are `hi`, `lo`.
pub open spec fn be16_value(hi: u8, lo: u8) -> u16 {
    (hi * 256 + lo) as u16
}

/// The value written in the length field for a json text of `len` bytes:
/// the length modulo 2^16.
pub open spec fn length_field(len: nat) -> u16 {
    (len % 65536) as u16
}

/// The bytes of a header frame carrying `version` and the json text `json`.
pub open spec fn header_frame(version: u16, json: Seq<u8>) -> Seq<u8> {
    be16(version) + be16(length_field(json.len())) + json
}

/// The version field of a frame (its first two bytes).
pub open spec fn frame_version(bytes: Seq<u8>) -> u16 {
    be16_value(bytes[0], bytes[1])
}

/// The length field of a frame (its bytes two and three).
pub open spec fn frame_json_len(bytes: Seq<u8>) -> nat {
    be16_value(bytes[2], bytes[3]) as nat
}

/// Whether `bytes` begin with a whole frame: both fields and the json text.
pub open spec fn frame_complete(bytes: Seq<u8>) -> bool {
    bytes.len() >= 4 && bytes.len() >= 4 + frame_json_len(bytes)
}

/// The json text of a complete frame.
pub open spec fn frame_json(bytes: Seq<u8>) -> Seq<u8> {
    bytes.subrange(4, 4 + frame_json_len(bytes) as int)
}

/// The json message a client sends to the daemon, which forwards it to the
/// browser.
pub struct PipeArgs {
    pub kind: String,
    /// Only needed from client to daemon.
    pub dashboard: Option<String>,
    /// Only needed from client to daemon.
    pub halt: Option<bool>,
    pub name: Option<String>,
    pub chart: Option<String>,
    pub no_show: Option<bool>,
    pub replace: Option<bool>,
    pub force_new: Option<bool>,
}

/// The header that opens a client connection.
pub struct ProtocolHeader {
    pub version: u16,
    pub json_buffer: Vec<u8>,
    pub json: JsonValue,
}

/// Why a header could not be read.
pub enum ProtocolError {
    /// The input ended before the whole header.
    UnexpectedEnd,
    /// The header's json text is not a JSON document.
    Json(serde_json::Error),
}

fn push_be16(buffer: &mut Vec<u8>, v: u16)
    ensures
        final(buffer)@ == old(buffer)@ + be16(v),
{
    buffer.push((v / 256) as u8);
    buffer.push((v % 256) as u8);
    assert(final(buffer)@ =~= old(buffer)@ + be16(v));
}

fn frame_bytes(version: u16, json: &[u8]) -> (r: Vec<u8>)
    ensures
        r@ == header_frame(version, json@),
{
    let json_size = json.len();
    let json_size_u16 = (json_size % 65536) as u16;
    let mut buffer: Vec<u8> = Vec::new();
    push_be16(&mut buffer, version);
    push_be16(&mut buffer, json_size_u16);
    buffer.extend_from_slice(json);
    assert(buffer@ =~= header_frame(version, json@));
    buffer
}

/// Writes a protocol header into bytes.
///
/// The length field holds the json text's length modulo 2^16; the whole
/// json text follows.
pub fn header_to_bytes(header: &ProtocolHeader) -> (r: Vec<u8>)
    ensures
        r@ == header_frame(header.version, header.json_buffer@),
{
    frame_bytes(header.version, header.json_buffer.as_slice())
}

/// The header frame a client sends, for the json text of its arguments.
pub fn client_header_bytes(json_buffer: &[u8]) -> (r: Vec<u8>)
    ensures
        r@ == header_frame(PROTOCOL_VERSION, json_buffer@),
{
    frame_bytes(PROTOCOL_VERSION, json_buffer)
}

/// Reads the two fields that open a header frame: its version and the
/// length of its json text. `None` when fewer than four bytes are given.
pub fn parse_header_prefix(prefix: &[u8]) -> (r: Option<(u16, u16)>)
    ensures
        match r {
            Some((version, len)) => prefix@.len() >= 4 && version == frame_version(prefix@)
                && len == frame_json_len(prefix@),
            None => prefix@.len() < 4,
        },
{
    if prefix.len() < 4 {
        None
    } else {
        let version = (prefix[0] as u16) * 256 + (prefix[1] as u16);
        let len = (prefix[2] as u16) * 256 + (prefix[3] as u16);
        Some((version, len))
    }
}

/// Reads the header frame at the start of the bytes a command-line client
/// sent, and returns it with the number of bytes it spans; the client's data
/// follows it. A frame of another protocol version is refused by the caller.
pub fn parse_cli_header(frame: &[u8]) -> (r: Result<(ProtocolHeader, usize), ProtocolError>)
    requires
        frame@.len() >= 2 ==> frame_version(frame@) == PROTOCOL_VERSION,
    ensures
        match r {
            Ok((header, n)) => {
                &&& frame_complete(frame@)
                &&& json_accepts(frame_json(frame@))
                &&& header.version == PROTOCOL_VERSION
                &&& header.json_buffer@ == frame_json(frame@)
                &&& header.json@ == frame_json(frame@)
                &&& n == 4 + frame_json_len(frame@)
            },
            Err(ProtocolError::UnexpectedEnd) => !frame_complete(frame@),
            Err(ProtocolError::Json(_)) => frame_complete(frame@) && !json_accepts(
                frame_json(frame@),
            ),
        },
{
    match parse_header_prefix(frame) {
        None => Err(ProtocolError::UnexpectedEnd),
        Some((version, header_size)) => {
            let size = header_size as usize;
            if frame.len() - 4 < size {
                return Err(ProtocolError::UnexpectedEnd);
            }
            let mut json_buffer: Vec<u8> = Vec::new();
            let mut i: usize = 0;
            while i < size
                invariant
                    i <= size,
                    4 + size <= frame.len(),
                    json_buffer@ == frame@.subrange(4, 4 + i as int),
                decreases size - i,
            {
                json_buffer.push(frame[4 + i]);
                i = i + 1;
                assert(json_buffer@ =~= frame@.subrange(4, 4 + i as int));
            }
            match json_from_slice(json_buffer.as_slice()) {
                Ok(json) => Ok((ProtocolHeader { version, json_buffer, json }, 4 + size)),
                Err(e) => Err(ProtocolError::Json(e)),
            }
        },
    }
}

/// The layout of a written frame, byte by byte: the version's high and low
/// bytes, the json length modulo 2^16 as high and low bytes, then the json
/// text itself.
pub proof fn law_frame_layout(version: u16, json: Seq<u8>)
    ensures
        header_frame(version, json).len() == json.len() + 4,
        header_frame(version, json)[0] == (version / 256) as u8,
        header_frame(version, json)[1] == (version % 256) as u8,
        header_frame(version, json)[2] == ((json.len() % 65536) / 256) as u8,
        header_frame(version, json)[3] == ((json.len() % 65536) % 256) as u8,
        header_frame(version, json).subrange(4, json.len() + 4int) == json,
{
    assert(header_frame(version, json).subrange(4, json.len() + 4int) =~= json);
}

/// The fields a reader takes from a frame are the big-endian numbers in its
/// bytes 0..2 (version) and 2..4 (json length), and the json text is the
/// bytes that follow the four field bytes, as many as the length says.
pub proof fn law_frame_fields(bytes: Seq<u8>)
    requires
        bytes.len() >= 4,
    ensures
        frame_version(bytes) as nat == bytes[0] as nat * 256 + bytes[1] as nat,
        frame_json_len(bytes) == bytes[2] as nat * 256 + bytes[3] as nat,
        frame_complete(bytes) <==> bytes.len() >= 4 + bytes[2] as nat * 256 + bytes[3] as nat,
        frame_complete(bytes) ==> frame_json(bytes) == bytes.subrange(
            4,
            4 + bytes[2] as int * 256 + bytes[3] as int,
        ),
{
}

/// A frame written for a json text shorter than 2^16 bytes is read back as
/// the same version and json text, whatever bytes follow it, and spans
/// exactly its four field bytes and the text.
pub proof fn law_header_round_trip(version: u16, json: Seq<u8>, rest: Seq<u8>)
    requires
        json.len() < 65536,
    ensures
        frame_complete(header_frame(version, json) + rest),
        frame_version(header_frame(version, json) + rest) == version,
        frame_json_len(header_frame(version, json) + rest) == json.len(),
        frame_json(header_frame(version, json) + rest) == json,
{
    let f = header_frame(version, json) + rest;
    let l = length_field(json.len());
    assert(f[0] == (version / 256) as u8 && f[1] == (version % 256) as u8);
    assert(f[2] == (l / 256) as u8 && f[3] == (l % 256) as u8);
    assert(l == json.len());
    assert(frame_json(f) =~= json);
}

/// The header a browser sends when it connects: a JSON object whose
/// `currentDashboard` and `browserId` members are strings.
pub struct BrowserHeader {
    pub current_dashboard: Option<String>,
    pub browser_id: Option<String>,
}

/// Reads the header message a browser sends when it connects.
pub fn parse_browser_header(text: &str) -> (r: Result<BrowserHeader, ProtocolError>)
    ensures
        match r {
            Ok(header) => {
                &&& json_accepts(vstd::utf8::encode_utf8(text@))
                &&& opt_string_view(header.current_dashboard) == json_string_member(
                    vstd::utf8::encode_utf8(text@),
                    "currentDashboard"@,
                )
                &&& opt_string_view(header.browser_id) == json_string_member(
                    vstd::utf8::encode_utf8(text@),
                    "browserId"@,
                )
            },
            Err(ProtocolError::Json(_)) => !json_accepts(vstd::utf8::encode_utf8(text@)),
            Err(ProtocolError::UnexpectedEnd) => false,
        },
{
    match parse_json(text) {
        Ok(header) => Ok(
            BrowserHeader {
                current_dashboard: get_string_field(&header, "currentDashboard"),
                browser_id: get_string_field(&header, "browserId"),
            },
        ),
        Err(e) => Err(ProtocolError::Json(e)),
    }
}

/// The character of a decimal digit.
pub open spec fn digit_char(d: nat) -> char {
    (48 + d) as char
}

/// The decimal numeral of `n`, without leading zeros.
pub open spec fn decimal_digits(n: nat) -> Seq<char>
    decreases n,
{
    if n < 10 {
        seq![digit_char(n)]
    } else {
        decimal_digits(n / 10).push(digit_char(n % 10))
    }
}

/// The loopback host part of the daemon's address.
pub open spec fn loopback_prefix() -> Seq<char> {
    seq!['1', '2', '7', '.', '0', '.', '0', '.', '1', ':']
}

/// Calls std's `String::push`, which appends the character.
#[verifier::external_body]
fn push_char(s: &mut String, c: char)
    ensures
        final(s)@ == old(s)@.push(c),
{
    s.push(c)
}

fn push_decimal(s: &mut String, n: u16)
    ensures
        final(s)@ == old(s)@ + decimal_digits(n as nat),
    decreases n,
{
    let ghost start = s@;
    if n >= 10 {
        push_decimal(s, n / 10);
    }
    let d: u8 = (n % 10) as u8;
    let c: char = (48u8 + d) as char;
    push_char(s, c);
    assert(s@ =~= start + decimal_digits(n as nat));
}

/// The address the daemon listens on: the loopback host and the port.
pub fn server_address(port: u16) -> (r: String)
    ensures
        r@ == loopback_prefix() + decimal_digits(port as nat),
{
    let mut address = "127.0.0.1:".to_owned();
    proof {
        reveal_strlit("127.0.0.1:");
    }
    assert(address@ =~= loopback_prefix());
    push_decimal(&mut address, port);
    address
}

} // verus!
