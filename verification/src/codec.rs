//! The wire form of a piece of text: how the text reply of an operation is
//! written for the host, and how a text reply of the host is read.
//!
//! The bytes are written and read by `rmp_serde`; this module states what it
//! relies on and maps the outcomes to the library's errors.

use crate::records::CallError;
use vstd::prelude::*;
use vstd::string::*;
use vstd::utf8::encode_utf8;

verus! {

/// The error of `rmp_serde`'s serializer, carried through as an opaque
/// value.
#[verifier::external_type_specification]
#[verifier::external_body]
pub struct ExEncodeError(rmp_serde::encode::Error);

/// The header that announces a string of `len` bytes: the shortest of the
/// four string markers that can hold the length, then the length itself,
/// most significant byte first.
pub open spec fn text_header(len: nat) -> Seq<u8> {
    if len < 32 {
        seq![(0xa0 + len) as u8]
    } else if len < 256 {
        seq![0xd9u8, len as u8]
    } else if len < 65536 {
        seq![0xdau8, (len / 256) as u8, (len % 256) as u8]
    } else {
        seq![
            0xdbu8,
            ((len / 16777216) % 256) as u8,
            ((len / 65536) % 256) as u8,
            ((len / 256) % 256) as u8,
            (len % 256) as u8,
        ]
    }
}

/// The wire form of a string with the given UTF-8 bytes: the header for
/// their number, counted in 32 bits, then the bytes themselves.
pub open spec fn text_wire(utf8: Seq<u8>) -> Seq<u8> {
    text_header(utf8.len() % 4294967296) + utf8
}

/// What reading a string from the given bytes yields: the string, or the
/// codec's account of why the bytes are not one.
pub uninterp spec fn text_reading(bytes: Seq<u8>) -> Result<Seq<char>, Seq<char>>;

/// Writes a string with `rmp_serde::Serializer`, set up to write structs as
/// maps, through the string's `serde::Serialize` impl. Trusted: the
/// serializer succeeds, since writing a string fails only where the writer
/// does and the writer is a vector that grows; and the bytes are the string
/// marker and length that `rmp::encode::write_str` chooses, followed by the
/// string's UTF-8 bytes.
#[verifier::external_body]
fn write_text(item: &str) -> (r: Result<Vec<u8>, rmp_serde::encode::Error>)
    ensures
        r is Ok,
        r->Ok_0@ == text_wire(item.spec_bytes()),
{
    let mut buf = Vec::new();
    let mut writer = rmp_serde::Serializer::new(&mut buf).with_struct_map();
    match serde::Serialize::serialize(item, &mut writer) {
        Ok(()) => Ok(buf),
        Err(e) => Err(e),
    }
}

/// Reads a string with `rmp_serde::Deserializer` over a cursor on the bytes,
/// through `String`'s `serde::Deserialize` impl; a failure is handed on as
/// the message that the decoder's error displays. Trusted: the outcome
/// depends on the bytes alone; and bytes that are exactly the wire form of a
/// string shorter than 2^32 bytes are read as that string, since the decoder
/// takes the length from any of the four string markers, reads that many
/// bytes and accepts them where they are UTF-8.
#[verifier::external_body]
fn read_text(buf: &[u8]) -> (r: Result<String, String>)
    ensures
        match r {
            Ok(text) => text_reading(buf@) == Ok::<Seq<char>, Seq<char>>(text@),
            Err(cause) => text_reading(buf@) == Err::<Seq<char>, Seq<char>>(cause@),
        },
        forall|text: Seq<char>| #![trigger encode_utf8(text)]
            encode_utf8(text).len() < 4294967296 && buf@ == text_wire(encode_utf8(text)) ==> r is Ok
                && r->Ok_0@ == text,
{
    let mut reader = rmp_serde::Deserializer::new(std::io::Cursor::new(buf));
    let outcome: Result<String, rmp_serde::decode::Error> = serde::Deserialize::deserialize(
        &mut reader,
    );
    match outcome {
        Ok(text) => Ok(text),
        Err(e) => Err(e.to_string()),
    }
}

/// Maps the serializer's outcome to the library's: the bytes as they are, or
/// the encoding error, whatever the serializer's own error was.
fn encoded(outcome: Result<Vec<u8>, rmp_serde::encode::Error>) -> (r: Result<
    Vec<u8>,
    CallError,
>)
    ensures
        match outcome {
            Ok(bytes) => r == Ok::<Vec<u8>, CallError>(bytes),
            Err(_) => r == Err::<Vec<u8>, CallError>(CallError::Encode),
        },
{
    match outcome {
        Ok(bytes) => Ok(bytes),
        Err(_) => Err(CallError::Encode),
    }
}

/// Maps the decoder's outcome to the library's: the text as it is, or a
/// decoding error whose message is the fixed prefix and then the cause.
pub fn decoded(outcome: Result<String, String>) -> (r: Result<String, CallError>)
    ensures
        match outcome {
            Ok(text) => r == Ok::<String, CallError>(text),
            Err(cause) => match r {
                Err(CallError::Decode(message)) => message@ == CallError::decode_prefix() + cause@,
                _ => false,
            },
        },
{
    match outcome {
        Ok(text) => Ok(text),
        Err(cause) => Err(CallError::decode_failure(cause.as_str())),
    }
}

/// Writes a piece of text in its wire form. Every text can be written.
pub fn serialize_text(item: &str) -> (r: Result<Vec<u8>, CallError>)
    ensures
        r is Ok,
        r->Ok_0@ == text_wire(item.spec_bytes()),
{
    encoded(write_text(item))
}

/// Reads a piece of text from its wire form. What `serialize_text` wrote for
/// a text shorter than 2^32 bytes is read back as that text.
pub fn deserialize_text(buf: &[u8]) -> (r: Result<String, CallError>)
    ensures
        match text_reading(buf@) {
            Ok(text) => r is Ok && r->Ok_0@ == text,
            Err(cause) => match r {
                Err(CallError::Decode(message)) => message@ == CallError::decode_prefix() + cause,
                _ => false,
            },
        },
        forall|text: Seq<char>| #![trigger encode_utf8(text)]
            encode_utf8(text).len() < 4294967296 && buf@ == text_wire(encode_utf8(text)) ==> r is Ok
                && r->Ok_0@ == text,
{
    decoded(read_text(buf))
}

} // verus!
