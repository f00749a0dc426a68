//! The binary frame codec.
//!
//! A binary message is a four-byte big-endian length `L`, then `L` bytes of
//! JSON, then the payload: whatever bytes are left, possibly none.

use byteorder::{BigEndian, ReadBytesExt};
use bytes::Bytes;
use crate::text::{byte_list, decimal, push_byte_list, push_decimal};
use vstd::prelude::*;
use vstd::slice::*;
use vstd::string::*;

verus! {

/// Number of bytes taken by the length prefix.
pub const PREFIX_LEN: usize = 4;

/// The unsigned number that the first four bytes of `b` spell, most
/// significant byte first.
pub open spec fn be_u32(b: Seq<u8>) -> int
    recommends
        b.len() >= 4,
{
    b[0] as int * 0x100_0000 + b[1] as int * 0x1_0000 + b[2] as int * 0x100 + b[3] as int
}

/// The four bytes that spell `n`, most significant byte first.
pub open spec fn be_bytes(n: int) -> Seq<u8>
    recommends
        0 <= n <= u32::MAX,
{
    seq![
        (n / 0x100_0000 % 0x100) as u8,
        (n / 0x1_0000 % 0x100) as u8,
        (n / 0x100 % 0x100) as u8,
        (n % 0x100) as u8,
    ]
}

/// The message that carries `json` and `payload`.
pub open spec fn frame(json: Seq<u8>, payload: Seq<u8>) -> Seq<u8>
    recommends
        json.len() <= u32::MAX,
{
    be_bytes(json.len() as int) + json + payload
}

/// Why a binary message was not decoded.
#[derive(Debug, PartialEq, Eq)]
pub enum DecodeError {
    /// The message has fewer than four bytes.
    FrameTooShort,
    /// The length prefix could not be read.
    LengthReadError,
    /// The prefix announces `json_len` bytes of JSON where only `total`
    /// follow it; `partial` holds those that do.
    JsonTruncated { total: usize, json_len: u32, partial: Vec<u8> },
    /// The JSON bytes `raw` are no command; `message` is the parser's word.
    JsonParseError { message: String, raw: Vec<u8> },
}

/// What a `DecodeError` says, over sequences.
pub enum DecodeErrorView {
    FrameTooShort,
    LengthReadError,
    JsonTruncated { total: nat, json_len: nat, partial: Seq<u8> },
    JsonParseError { message: Seq<char>, raw: Seq<u8> },
}

impl View for DecodeError {
    type V = DecodeErrorView;

    open spec fn view(&self) -> DecodeErrorView {
        match self {
            DecodeError::FrameTooShort => DecodeErrorView::FrameTooShort,
            DecodeError::LengthReadError => DecodeErrorView::LengthReadError,
            DecodeError::JsonTruncated { total, json_len, partial } => {
                DecodeErrorView::JsonTruncated {
                    total: *total as nat,
                    json_len: *json_len as nat,
                    partial: partial@,
                }
            },
            DecodeError::JsonParseError { message, raw } => DecodeErrorView::JsonParseError {
                message: message@,
                raw: raw@,
            },
        }
    }
}

impl DecodeErrorView {
    /// The failure in words, with the numbers and bytes that it carries.
    pub open spec fn describe(self) -> Seq<char> {
        match self {
            DecodeErrorView::FrameTooShort => "Message is shorter than its length prefix"@,
            DecodeErrorView::LengthReadError => "Could not get the size of the json string in message"@,
            DecodeErrorView::JsonTruncated { total, json_len, partial } => {
                "Could not read the json string; trying to decode: "@ + byte_list(partial)
                    + "; total_size: "@ + decimal(total) + "; json_str_len: "@ + decimal(json_len)
            },
            DecodeErrorView::JsonParseError { message, raw } => {
                "Could not parse the json string: "@ + message + "; trying to decode: "@
                    + byte_list(raw)
            },
        }
    }
}

impl DecodeError {
    /// The failure in words, as it is reported to the client.
    pub fn describe(&self) -> (s: String)
        ensures
            s@ == self@.describe(),
    {
        match self {
            DecodeError::FrameTooShort => String::from_str(
                "Message is shorter than its length prefix",
            ),
            DecodeError::LengthReadError => String::from_str(
                "Could not get the size of the json string in message",
            ),
            DecodeError::JsonTruncated { total, json_len, partial } => {
                let mut s: String = String::from_str(
                    "Could not read the json string; trying to decode: ",
                );
                push_byte_list(&mut s, partial.as_slice());
                s.append("; total_size: ");
                push_decimal(&mut s, *total);
                s.append("; json_str_len: ");
                push_decimal(&mut s, *json_len as usize);
                s
            },
            DecodeError::JsonParseError { message, raw } => {
                let mut s: String = String::from_str("Could not parse the json string: ");
                s.append(message.as_str());
                s.append("; trying to decode: ");
                push_byte_list(&mut s, raw.as_slice());
                s
            },
        }
    }
}

/// Where the length prefix cuts `msg`: the JSON bytes and the payload, or the
/// reason why it cannot be cut.
pub open spec fn split_spec(msg: Seq<u8>) -> Result<(Seq<u8>, Seq<u8>), DecodeErrorView> {
    if msg.len() < 4 {
        Err(DecodeErrorView::FrameTooShort)
    } else if be_u32(msg) > msg.len() - 4 {
        Err(
            DecodeErrorView::JsonTruncated {
                total: (msg.len() - 4) as nat,
                json_len: be_u32(msg) as nat,
                partial: msg.subrange(4, msg.len() as int),
            },
        )
    } else {
        Ok((msg.subrange(4, 4 + be_u32(msg)), msg.subrange(4 + be_u32(msg), msg.len() as int)))
    }
}

/// Whether `parse` may be called on `bytes`.
pub open spec fn parser_takes<C, F: FnOnce(&[u8]) -> Result<C, String>>(
    parse: F,
    bytes: Seq<u8>,
) -> bool {
    forall|json: &[u8]| json@ == bytes ==> call_requires(parse, (json,))
}

/// Whether `parsed` is an answer that `parse` may give for `bytes`.
pub open spec fn parser_answers<C, F: FnOnce(&[u8]) -> Result<C, String>>(
    parse: F,
    bytes: Seq<u8>,
    parsed: Result<C, String>,
) -> bool {
    exists|json: &[u8]| json@ == bytes && call_ensures(parse, (json,), parsed)
}

/// Whether `r` is what decoding gives for a frame cut into `json` and
/// `payload`, once the parser has answered `parsed` for `json`.
pub open spec fn decode_outcome<C>(
    parsed: Result<C, String>,
    json: Seq<u8>,
    payload: Seq<u8>,
    r: Result<(C, Bytes), DecodeError>,
) -> bool {
    match parsed {
        Ok(command) => r matches Ok(pair) && pair.0 == command && bytes_view(pair.1) == payload,
        Err(message) => r matches Err(e) && e@ == (DecodeErrorView::JsonParseError {
            message: message@,
            raw: json,
        }),
    }
}

/// Whether `r` is what decoding `msg` gives with `parse` as the parser.
pub open spec fn decodes_to<C, F: FnOnce(&[u8]) -> Result<C, String>>(
    msg: Seq<u8>,
    parse: F,
    r: Result<(C, Bytes), DecodeError>,
) -> bool {
    match split_spec(msg) {
        Err(e) => r matches Err(err) && err@ == e,
        Ok(parts) => exists|parsed: Result<C, String>|
            {
                &&& #[trigger] parser_answers(parse, parts.0, parsed)
                &&& decode_outcome(parsed, parts.0, parts.1, r)
            },
    }
}

/// `std::io::Error`, the error of a failed read. It is only told apart from
/// success.
#[verifier::external_type_specification]
#[verifier::external_body]
pub struct ExIoError(std::io::Error);

/// `bytes::Bytes`, the immutable buffer that carries a payload.
#[verifier::external_type_specification]
#[verifier::external_body]
pub struct ExBytes(Bytes);

/// The bytes that a `Bytes` holds, in order: what it shows as a slice.
pub uninterp spec fn bytes_view(b: Bytes) -> Seq<u8>;

/// `byteorder::ReadBytesExt::read_u32::<BigEndian>` with a byte slice as the
/// reader. It fills a four-byte buffer by `read_exact` and decodes it most
/// significant byte first; on a slice, `read_exact` fails exactly when fewer
/// than four bytes are there.
#[verifier::external_body]
fn read_u32_be(data: &[u8]) -> (r: Result<u32, std::io::Error>)
    ensures
        r is Ok <==> data@.len() >= 4,
        r matches Ok(v) ==> v as int == be_u32(data@),
{
    let mut reader: &[u8] = data;
    reader.read_u32::<BigEndian>()
}

/// `Bytes::from(&[u8])`: an immutable buffer that holds a copy of the slice.
#[verifier::external_body]
fn bytes_from_slice(data: &[u8]) -> (b: Bytes)
    ensures
        bytes_view(b) == data@,
{
    Bytes::from(data)
}

/// A binary message cut at the boundaries that its length prefix gives.
pub struct Frame<'a> {
    pub json: &'a [u8],
    pub payload: &'a [u8],
}

/// Reads the length prefix of `msg` and cuts the rest into the JSON bytes
/// and the payload. Nothing is parsed yet.
pub fn split_frame(msg: &[u8]) -> (r: Result<Frame<'_>, DecodeError>)
    ensures
        match split_spec(msg@) {
            Ok(parts) => r matches Ok(f) && f.json@ == parts.0 && f.payload@ == parts.1,
            Err(e) => r matches Err(err) && err@ == e,
        },
{
    if msg.len() < PREFIX_LEN {
        return Err(DecodeError::FrameTooShort);
    }
    let json_len: u32 = match read_u32_be(msg) {
        Ok(v) => v,
        Err(_) => {
            return Err(DecodeError::LengthReadError);
        },
    };
    let total: usize = msg.len() - PREFIX_LEN;
    if json_len as usize > total {
        let partial: Vec<u8> = slice_to_vec(slice_subrange(msg, PREFIX_LEN, msg.len()));
        return Err(DecodeError::JsonTruncated { total, json_len, partial });
    }
    let json_end: usize = PREFIX_LEN + json_len as usize;
    Ok(
        Frame {
            json: slice_subrange(msg, PREFIX_LEN, json_end),
            payload: slice_subrange(msg, json_end, msg.len()),
        },
    )
}

/// Ends a decode with the parser's answer for the JSON bytes of `frame`: the
/// command goes out with the payload in a buffer of its own, a parser error
/// with the bytes it was given.
pub fn finish_decode<C>(frame: Frame<'_>, parsed: Result<C, String>) -> (r: Result<
    (C, Bytes),
    DecodeError,
>)
    ensures
        decode_outcome(parsed, frame.json@, frame.payload@, r),
{
    match parsed {
        Ok(command) => Ok((command, bytes_from_slice(frame.payload))),
        Err(message) => Err(DecodeError::JsonParseError { message, raw: slice_to_vec(frame.json) }),
    }
}

/// Decodes one binary message into a command and its payload. `parse` turns
/// JSON bytes into a command or into the parser's error message; it is
/// handed exactly the bytes between the prefix and the payload, and only a
/// frame that is long enough and complete reaches it.
pub fn decode_binary<C, F>(msg: &[u8], parse: F) -> (r: Result<(C, Bytes), DecodeError>) where
    F: FnOnce(&[u8]) -> Result<C, String>,

    requires
        split_spec(msg@) matches Ok(parts) ==> parser_takes(parse, parts.0),
    ensures
        decodes_to(msg@, parse, r),
        msg@.len() < 4 ==> (r matches Err(e) && e@ == DecodeErrorView::FrameTooShort),
        msg@.len() >= 4 && be_u32(msg@) > msg@.len() - 4 ==> (r matches Err(e)
            && e@ is JsonTruncated),
{
    match split_frame(msg) {
        Ok(frame) => {
            let parsed: Result<C, String> = parse(frame.json);
            assert(parser_answers(parse, frame.json@, parsed));
            finish_decode(frame, parsed)
        },
        Err(e) => Err(e),
    }
}

/// A message of fewer than four bytes is refused as too short, whatever it
/// holds.
pub proof fn short_message_is_refused(msg: Seq<u8>)
    requires
        msg.len() < 4,
    ensures
        split_spec(msg) == Err::<(Seq<u8>, Seq<u8>), DecodeErrorView>(DecodeErrorView::FrameTooShort),
{
}

/// A message whose prefix announces more JSON than follows it is refused as
/// truncated, however large the announced length is; the error carries the
/// two lengths and every byte behind the prefix.
pub proof fn overlong_length_is_refused(msg: Seq<u8>)
    requires
        msg.len() >= 4,
        be_u32(msg) > msg.len() - 4,
    ensures
        split_spec(msg) == Err::<(Seq<u8>, Seq<u8>), DecodeErrorView>(
            DecodeErrorView::JsonTruncated {
                total: (msg.len() - 4) as nat,
                json_len: be_u32(msg) as nat,
                partial: msg.skip(4),
            },
        ),
{
}

/// Four bytes written most significant first spell the number they were
/// written from.
pub proof fn be_bytes_spell(n: int)
    requires
        0 <= n <= u32::MAX,
    ensures
        be_bytes(n).len() == 4,
        be_u32(be_bytes(n)) == n,
{
}

/// A frame is cut where it was joined: from the message that carries `json`
/// and `payload` the codec takes exactly `json` as the JSON bytes and exactly
/// `payload` as the payload, empty or not.
pub proof fn frame_is_cut_where_joined(json: Seq<u8>, payload: Seq<u8>)
    requires
        json.len() <= u32::MAX,
    ensures
        split_spec(frame(json, payload)) == Ok::<(Seq<u8>, Seq<u8>), DecodeErrorView>(
            (json, payload),
        ),
{
    let msg = frame(json, payload);
    be_bytes_spell(json.len() as int);
    assert(msg.subrange(4, 4 + be_u32(msg)) =~= json);
    assert(msg.subrange(4 + be_u32(msg), msg.len() as int) =~= payload);
}

/// Decoding the message that carries `json` and `payload` hands `json` to the
/// parser and returns the parser's command with a buffer that holds
/// `payload`, or the parser's error with `json`.
pub proof fn decode_returns_what_was_framed<C, F: FnOnce(&[u8]) -> Result<C, String>>(
    json: Seq<u8>,
    payload: Seq<u8>,
    parse: F,
    r: Result<(C, Bytes), DecodeError>,
)
    requires
        json.len() <= u32::MAX,
        decodes_to(frame(json, payload), parse, r),
    ensures
        exists|parsed: Result<C, String>|
            {
                &&& #[trigger] parser_answers(parse, json, parsed)
                &&& decode_outcome(parsed, json, payload, r)
            },
{
    frame_is_cut_where_joined(json, payload);
}

} // verus!
