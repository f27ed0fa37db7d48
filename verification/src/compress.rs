//! The codec: a JSON value becomes text, the text a zlib stream, the stream a
//! line of base64; decoding undoes the three stages in turn.
//!
//! The stages themselves are done by `serde_json`, `flate2` and `base64`.
//! What those crates compute is not written out here. Each result has a name,
//! and the contracts say which name applies to which input.
use vstd::prelude::*;
use std::io::{Read, Write};
use base64::Engine;
use base64::engine::general_purpose::STANDARD;
use flate2::Compression;
use flate2::read::ZlibDecoder;
use flate2::write::ZlibEncoder;
use serde_json::Value;
use crate::error::{PassError, Stage};
use crate::json::{Json, json_of, json_text, json_parse, readable_depth, json_to_string, json_from_str};
use crate::node::{TemplateNode, TemplateNodeView};
use crate::wire::{Decoded, DecodedView, node_json, nodes_json, json_decoded};
use crate::wire::{node_to_json, nodes_to_json, decoded_from_json};
use crate::wire::{lemma_node_round_trip, lemma_nodes_round_trip};

verus! {

/// `std::io::Error`, with which `flate2` fails; nothing of it is read.
#[verifier::external_type_specification]
#[verifier::external_body]
pub struct ExIoError(std::io::Error);

/// `base64::DecodeError`, of which nothing is read.
#[verifier::external_type_specification]
#[verifier::external_body]
pub struct ExDecodeError(base64::DecodeError);

/// The zlib stream that `flate2` writes for a text at its default level, or
/// `None` where it fails.
pub uninterp spec fn zlib_deflate(text: Seq<char>) -> Option<Seq<u8>>;

/// The text that `flate2` reads out of a zlib stream, or `None` where the
/// stream is corrupt or does not hold UTF-8.
pub uninterp spec fn zlib_inflate(stream: Seq<u8>) -> Option<Seq<char>>;

/// The padded standard base64 text of some bytes.
pub uninterp spec fn base64_text(bytes: Seq<u8>) -> Seq<char>;

/// The bytes that a padded standard base64 text stands for, or `None` where
/// the text is not canonical base64.
pub uninterp spec fn base64_bytes(text: Seq<char>) -> Option<Seq<u8>>;

/// A character of the standard base64 alphabet, or the padding sign.
pub open spec fn is_base64_char(c: char) -> bool {
    ||| 'A' <= c <= 'Z'
    ||| 'a' <= c <= 'z'
    ||| '0' <= c <= '9'
    ||| c == '+'
    ||| c == '/'
    ||| c == '='
}

/// Bytes of this length have a base64 text that fits in memory.
pub open spec fn base64_encodable(len: nat) -> bool {
    len / 3 < isize::MAX / 4
}

/// `ZlibEncoder` over a `Vec`, at `Compression::default()`, fed the bytes of
/// the text and finished: the zlib stream of the text, which depends on the
/// text alone. `ZlibDecoder` reads the text back out of that stream.
#[verifier::external_body]
pub(crate) fn deflate(text: &str) -> (stream: Result<Vec<u8>, std::io::Error>)
    ensures
        match stream {
            Ok(bytes) => zlib_deflate(text@) == Some(bytes@),
            Err(_) => zlib_deflate(text@) is None,
        },
        stream matches Ok(bytes) ==> zlib_inflate(bytes@) == Some(text@),
{
    let mut encoder = ZlibEncoder::new(Vec::new(), Compression::default());
    encoder.write_all(text.as_bytes())?;
    encoder.finish()
}

/// `ZlibDecoder` over the bytes, read to its end as a string: the text that
/// the stream holds, which depends on the bytes alone.
#[verifier::external_body]
pub(crate) fn inflate(stream: &Vec<u8>) -> (text: Result<String, std::io::Error>)
    ensures
        match text {
            Ok(t) => zlib_inflate(stream@) == Some(t@),
            Err(_) => zlib_inflate(stream@) is None,
        },
{
    let mut decoder = ZlibDecoder::new(&stream[..]);
    let mut text = String::new();
    decoder.read_to_string(&mut text)?;
    Ok(text)
}

/// `STANDARD.encode`: the base64 text of the bytes, written in the standard
/// alphabet with padding. `STANDARD.decode` gives the bytes back. The call
/// panics where the text's length overflows, which the bound on the input
/// excludes.
#[verifier::external_body]
pub(crate) fn base64_encode(bytes: &Vec<u8>) -> (text: String)
    requires
        base64_encodable(bytes@.len()),
    ensures
        text@ == base64_text(bytes@),
        base64_bytes(text@) == Some(bytes@),
        forall|i: int| 0 <= i < text@.len() ==> is_base64_char(#[trigger] text@[i]),
{
    STANDARD.encode(bytes)
}

/// `STANDARD.decode`: the bytes that the text stands for, which depend on the
/// text alone.
#[verifier::external_body]
pub(crate) fn base64_decode(text: &str) -> (bytes: Result<Vec<u8>, base64::DecodeError>)
    ensures
        match bytes {
            Ok(b) => base64_bytes(text@) == Some(b@),
            Err(_) => base64_bytes(text@) is None,
        },
{
    STANDARD.decode(text)
}

/// The payload of a JSON value: its text, deflated, in base64. Each stage
/// that fails gives its own error.
pub open spec fn compressed(json: Json) -> Result<Seq<char>, PassError> {
    match json_text(json) {
        None => Err(PassError::EncodingFailure(Stage::Json)),
        Some(text) => match zlib_deflate(text) {
            None => Err(PassError::EncodingFailure(Stage::Compression)),
            Some(stream) => if base64_encodable(stream.len()) {
                Ok(base64_text(stream))
            } else {
                Err(PassError::EncodingFailure(Stage::Base64))
            },
        },
    }
}

/// The JSON value of a payload. Each stage that fails gives its own error.
pub open spec fn decompressed(payload: Seq<char>) -> Result<Json, PassError> {
    match base64_bytes(payload) {
        None => Err(PassError::DecodingFailure(Stage::Base64)),
        Some(stream) => match zlib_inflate(stream) {
            None => Err(PassError::DecodingFailure(Stage::Compression)),
            Some(text) => match json_parse(text) {
                None => Err(PassError::DecodingFailure(Stage::Json)),
                Some(json) => Ok(json),
            },
        },
    }
}

/// The nodes of a payload: what its JSON value denotes.
pub open spec fn decoded(payload: Seq<char>) -> Result<DecodedView, PassError> {
    match decompressed(payload) {
        Err(e) => Err(e),
        Ok(json) => match json_decoded(json) {
            Some(denoted) => Ok(denoted),
            None => Err(PassError::DecodingFailure(Stage::Json)),
        },
    }
}

/// The base64 text of a zlib stream, where the stream is short enough to have
/// one.
pub fn armor(stream: &Vec<u8>) -> (payload: Result<String, PassError>)
    ensures
        match payload {
            Ok(text) => {
                &&& base64_encodable(stream@.len())
                &&& text@ == base64_text(stream@)
                &&& base64_bytes(text@) == Some(stream@)
                &&& forall|i: int| 0 <= i < text@.len() ==> is_base64_char(#[trigger] text@[i])
            },
            Err(e) => !base64_encodable(stream@.len()) && e == PassError::EncodingFailure(Stage::Base64),
        },
{
    if stream.len() / 3 < (isize::MAX as usize) / 4 {
        Ok(base64_encode(stream))
    } else {
        Err(PassError::EncodingFailure(Stage::Base64))
    }
}

/// Encodes a JSON value as a payload.
///
/// The payload is the one that [`compressed`] names, and consists of base64
/// characters. Decoding it gives the value back, provided the value holds no
/// float and is nested no deeper than [`readable_depth`].
pub fn compress(json: &Value) -> (payload: Result<String, PassError>)
    ensures
        match compressed(json_of(*json)) {
            Ok(text) => payload matches Ok(p) && p@ == text,
            Err(e) => payload == Err::<String, PassError>(e),
        },
        payload matches Ok(p) ==> forall|i: int| 0 <= i < p@.len() ==> is_base64_char(#[trigger] p@[i]),
        payload matches Ok(p) ==> json_of(*json).plain(readable_depth()) ==> decompressed(p@) == Ok::<
            Json,
            PassError,
        >(json_of(*json)),
{
    let text = match json_to_string(json) {
        Ok(text) => text,
        Err(_) => { return Err(PassError::EncodingFailure(Stage::Json)); },
    };
    let stream = match deflate(text.as_str()) {
        Ok(stream) => stream,
        Err(_) => { return Err(PassError::EncodingFailure(Stage::Compression)); },
    };
    armor(&stream)
}

/// Decodes a payload to the JSON value that it holds.
pub fn decompress(encoded: &str) -> (json: Result<Value, PassError>)
    ensures
        match decompressed(encoded@) {
            Ok(value) => json matches Ok(found) && json_of(found) == value,
            Err(e) => json matches Err(failure) && failure == e,
        },
{
    let stream = match base64_decode(encoded) {
        Ok(stream) => stream,
        Err(_) => { return Err(PassError::DecodingFailure(Stage::Base64)); },
    };
    let text = match inflate(&stream) {
        Ok(text) => text,
        Err(_) => { return Err(PassError::DecodingFailure(Stage::Compression)); },
    };
    match json_from_str(text.as_str()) {
        Ok(value) => Ok(value),
        Err(_) => Err(PassError::DecodingFailure(Stage::Json)),
    }
}

/// Encodes one node. Decoding the payload gives the node back.
pub fn encode_node(node: &TemplateNode) -> (payload: Result<String, PassError>)
    ensures
        match compressed(node_json(node@)) {
            Ok(text) => payload matches Ok(p) && p@ == text,
            Err(e) => payload == Err::<String, PassError>(e),
        },
        payload matches Ok(p) ==> forall|i: int| 0 <= i < p@.len() ==> is_base64_char(#[trigger] p@[i]),
        payload matches Ok(p) ==> decoded(p@) == Ok::<DecodedView, PassError>(DecodedView::Node(node@)),
{
    proof {
        lemma_node_round_trip(node@);
        node_json(node@).lemma_plain_deeper(3, readable_depth());
    }
    compress(&node_to_json(node))
}

/// Encodes a sequence of nodes. Decoding the payload gives the sequence back.
pub fn encode_sequence(nodes: &Vec<TemplateNode>) -> (payload: Result<String, PassError>)
    ensures
        match compressed(nodes_json(nodes.deep_view())) {
            Ok(text) => payload matches Ok(p) && p@ == text,
            Err(e) => payload == Err::<String, PassError>(e),
        },
        payload matches Ok(p) ==> forall|i: int| 0 <= i < p@.len() ==> is_base64_char(#[trigger] p@[i]),
        payload matches Ok(p) ==> decoded(p@) == Ok::<DecodedView, PassError>(
            DecodedView::Sequence(nodes.deep_view()),
        ),
{
    proof {
        lemma_nodes_round_trip(nodes.deep_view());
        nodes_json(nodes.deep_view()).lemma_plain_deeper(4, readable_depth());
    }
    compress(&nodes_to_json(nodes))
}

/// Decodes a payload to the node or the sequence of nodes that it holds.
pub fn decode(payload: &str) -> (nodes: Result<Decoded, PassError>)
    ensures
        match decoded(payload@) {
            Ok(denoted) => nodes matches Ok(found) && found@ == denoted,
            Err(e) => nodes == Err::<Decoded, PassError>(e),
        },
{
    match decompress(payload) {
        Ok(json) => decoded_from_json(&json),
        Err(e) => Err(e),
    }
}

} // verus!
