//! Decoding the streamed response. The server answers with newline-delimited
//! JSON records; each raw chunk that parses as a record with a
//! `message.content` string field yields one fragment of the assistant's
//! reply. Malformed or non-JSON chunks are dropped, deliberately: transport
//! chunks need not align with record boundaries, and one mis-aligned chunk
//! must not end an otherwise healthy stream.

use vstd::prelude::*;
use vstd::utf8::decode_utf8;
use vstd::utf8::valid_utf8;
use crate::transcript::Fragment;

verus! {

/// The `message.content` string field of the JSON record a chunk's text
/// parses as, or nothing when the text is not such a record. A function of
/// the characters alone.
pub uninterp spec fn content_fragment_of(s: Seq<char>) -> Option<Seq<char>>;

/// Relies on core::str::from_utf8: it returns the string view of the bytes
/// exactly when they are valid UTF-8, as vstd's `decode_utf8` reads them.
#[verifier::external_body]
fn bytes_to_str(bytes: &[u8]) -> (r: Option<&str>)
    ensures
        match r {
            Some(s) => valid_utf8(bytes@) && s@ == decode_utf8(bytes@),
            None => !valid_utf8(bytes@),
        },
{
    core::str::from_utf8(bytes).ok()
}

/// Relies on serde_json::from_str, serde_json::Value's square-bracket string
/// index (which yields Null, never a panic, on a missing key or a non-object)
/// and Value::as_str: together they extract the record's `message.content`
/// string field, a function of the chunk's characters alone, named
/// `content_fragment_of`.
#[verifier::external_body]
fn extract_fragment(s: &str) -> (r: Option<String>)
    ensures
        match r {
            Some(f) => content_fragment_of(s@) == Some(f@),
            None => content_fragment_of(s@) is None,
        },
{
    match serde_json::from_str::<serde_json::Value>(s) {
        Ok(v) => v["message"]["content"].as_str().map(|t| t.to_string()),
        Err(_) => None,
    }
}

/// The fragment text one raw chunk carries: the `message.content` field of
/// the record its UTF-8 text parses as, or nothing for a chunk that is not
/// valid UTF-8 or not such a record.
pub open spec fn spec_decode_chunk(b: Seq<u8>) -> Option<Seq<char>> {
    if valid_utf8(b) {
        content_fragment_of(decode_utf8(b))
    } else {
        None
    }
}

/// Decodes one raw chunk of the response stream into the reply fragment it
/// carries, tagged with the turn it belongs to; a chunk that carries none is
/// dropped (None), never a failure.
pub fn decode_chunk(turn: usize, bytes: &[u8]) -> (r: Option<Fragment>)
    ensures
        match r {
            Some(f) => spec_decode_chunk(bytes@) == Some(f.text@) && f.turn == turn,
            None => spec_decode_chunk(bytes@) is None,
        },
{
    match bytes_to_str(bytes) {
        Some(s) => match extract_fragment(s) {
            Some(text) => Some(Fragment { turn, text }),
            None => None,
        },
        None => None,
    }
}

} // verus!
