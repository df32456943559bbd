//! From a node's answer to the metadata bytes: the text of the `result`
//! member of a JSON document, without its `0x` prefix, read as hexadecimal
//! digits.

use crate::metadata::{decode, decode_spec, VersionedMetadata};
use crate::wire::DecodeError;
use vstd::prelude::*;
use vstd::slice::slice_subrange;
use vstd::string::StringSliceAdditionalSpecFns;

verus! {

/// Why an answer gave no metadata bytes.
#[derive(Clone, Copy, Debug, PartialEq, Eq, Structural)]
pub enum FetchError {
    /// The node could not be reached, or did not answer.
    Transport,
    /// The answer is not a JSON document.
    MalformedEnvelope,
    /// The document has no member `result` that is a text.
    MissingResult,
    /// The text is not an even number of hexadecimal digits.
    InvalidHex,
}

/// The bytes of metadata as a node sent them, not yet decoded.
#[derive(Clone, Debug, PartialEq, Eq)]
pub struct RawMetadataBlob {
    /// The bytes, the magic number first.
    pub bytes: Vec<u8>,
}

impl RawMetadataBlob {
    /// Decodes the bytes, which are then gone.
    pub fn decode(self) -> (r: Result<VersionedMetadata, DecodeError>)
        ensures
            match decode_spec(self.bytes@) {
                Ok(m) => r matches Ok(got) && got@ == m && m.well_formed(),
                Err(e) => r matches Err(got) && got == e,
            },
    {
        decode(self.bytes.as_slice())
    }
}

/// A JSON document of `serde_json`.
#[verifier::external_type_specification]
#[verifier::external_body]
pub struct ExJsonDocument(serde_json::Value);

/// The members of a JSON document that are texts, by their keys. A document
/// that is no object has none.
pub uninterp spec fn text_members(doc: serde_json::Value) -> Map<Seq<char>, Seq<char>>;

/// The text members of the JSON document that a text spells, or none where
/// the text is not JSON.
pub uninterp spec fn document_members(body: Seq<char>) -> Option<Map<Seq<char>, Seq<char>>>;

/// `serde_json::from_str`, for a document of any form: the document that the
/// text spells, or none where the text is not JSON. Which document that is
/// depends on the text alone.
#[verifier::external_body]
fn parse_document(body: &str) -> (doc: Option<serde_json::Value>)
    ensures
        match doc {
            Some(d) => document_members(body@) == Some(text_members(d)),
            None => document_members(body@) is None,
        },
{
    serde_json::from_str::<serde_json::Value>(body).ok()
}

/// `serde_json::Value::get` with a text as index: the member under `key`,
/// where the document is an object that has one and the member is a text.
#[verifier::external_body]
fn text_member(doc: &serde_json::Value, key: &str) -> (r: Option<String>)
    ensures
        match r {
            Some(text) => text_members(*doc).contains_key(key@) && text_members(*doc)[key@]
                == text@,
            None => !text_members(*doc).contains_key(key@),
        },
{
    match doc.get(key) {
        Some(serde_json::Value::String(text)) => Some(text.clone()),
        _ => None,
    }
}

/// The value of a hexadecimal digit, in either case.
pub open spec fn hex_value(c: u8) -> Option<int> {
    if 0x30 <= c <= 0x39 {
        Some(c - 0x30)
    } else if 0x41 <= c <= 0x46 {
        Some(c - 0x41 + 10)
    } else if 0x61 <= c <= 0x66 {
        Some(c - 0x61 + 10)
    } else {
        None
    }
}

/// `digits` is an even number of hexadecimal digits.
pub open spec fn is_hex(digits: Seq<u8>) -> bool {
    digits.len() % 2 == 0 && forall|i: int|
        0 <= i < digits.len() ==> hex_value(#[trigger] digits[i]) is Some
}

/// The bytes that hexadecimal digits spell, two digits to the byte, the
/// higher first.
pub open spec fn hex_bytes(digits: Seq<u8>) -> Seq<u8> {
    Seq::new(
        digits.len() / 2,
        |i: int|
            (16 * hex_value(digits[2 * i])->Some_0 + hex_value(digits[2 * i + 1])->Some_0) as u8,
    )
}

/// `hex::decode`: it accepts exactly an even number of hexadecimal digits,
/// in either case, and gives the bytes that they spell.
#[verifier::external_body]
fn hex_decode(digits: &[u8]) -> (r: Option<Vec<u8>>)
    ensures
        r is Some <==> is_hex(digits@),
        r matches Some(bytes) ==> bytes@ == hex_bytes(digits@),
{
    hex::decode(digits).ok()
}

/// `s` without the prefix `0x`, where it starts with one.
pub open spec fn without_prefix(s: Seq<u8>) -> Seq<u8> {
    if s.len() >= 2 && s[0] == 0x30 && s[1] == 0x78 {
        s.skip(2)
    } else {
        s
    }
}

/// The metadata bytes that the text `digits`, in UTF-8, spells.
pub open spec fn blob_of_text(digits: Seq<u8>) -> Result<Seq<u8>, FetchError> {
    if is_hex(without_prefix(digits)) {
        Ok(hex_bytes(without_prefix(digits)))
    } else {
        Err(FetchError::InvalidHex)
    }
}

/// The metadata bytes in a document: those that the text under `result`
/// spells.
pub open spec fn blob_of_members(members: Map<Seq<char>, Seq<char>>) -> Result<
    Seq<u8>,
    FetchError,
> {
    if members.contains_key("result"@) {
        blob_of_text(vstd::utf8::encode_utf8(members["result"@]))
    } else {
        Err(FetchError::MissingResult)
    }
}

/// `r` holds the bytes `expected`, or is the error that `expected` is.
pub open spec fn fetched(
    r: Result<RawMetadataBlob, FetchError>,
    expected: Result<Seq<u8>, FetchError>,
) -> bool {
    match expected {
        Ok(bytes) => r matches Ok(blob) && blob.bytes@ == bytes,
        Err(e) => r matches Err(got) && got == e,
    }
}

/// Reads a text of hexadecimal digits, with or without the prefix `0x`, as
/// bytes. Fails with `InvalidHex` where the text without the prefix is not
/// an even number of hexadecimal digits.
pub fn blob_from_hex(text: &str) -> (r: Result<RawMetadataBlob, FetchError>)
    ensures
        fetched(r, blob_of_text(text.spec_bytes())),
{
    let all = text.as_bytes();
    let start: usize = if all.len() >= 2 && all[0] == 0x30 && all[1] == 0x78 {
        2
    } else {
        0
    };
    let digits = slice_subrange(all, start, all.len());
    assert(digits@ =~= without_prefix(all@));
    match hex_decode(digits) {
        Some(bytes) => Ok(RawMetadataBlob { bytes }),
        None => Err(FetchError::InvalidHex),
    }
}

/// Takes the metadata bytes out of a node's answer: of a document, the
/// bytes that the text under `result` spells; of none, nothing.
///
/// Fails with `MalformedEnvelope` where there is no document, with
/// `MissingResult` where the document has no text under `result`, and with
/// `InvalidHex` where that text is not hexadecimal.
pub fn blob_from_document(doc: Option<serde_json::Value>) -> (r: Result<
    RawMetadataBlob,
    FetchError,
>)
    ensures
        match doc {
            Some(d) => fetched(r, blob_of_members(text_members(d))),
            None => r matches Err(e) && e == FetchError::MalformedEnvelope,
        },
{
    match doc {
        None => Err(FetchError::MalformedEnvelope),
        Some(d) => match text_member(&d, "result") {
            None => Err(FetchError::MissingResult),
            Some(text) => blob_from_hex(text.as_str()),
        },
    }
}

/// What the text of a node's answer holds: the metadata bytes in the
/// document that the text spells.
pub open spec fn blob_of_response(body: Seq<char>) -> Result<Seq<u8>, FetchError> {
    match document_members(body) {
        Some(members) => blob_of_members(members),
        None => Err(FetchError::MalformedEnvelope),
    }
}

/// Takes the metadata bytes out of the text of a node's answer.
///
/// Fails with `MalformedEnvelope` where the text is not JSON, with
/// `MissingResult` where the document that it spells has no text under
/// `result`, and with `InvalidHex` where that text is not hexadecimal.
pub fn blob_from_response(body: &str) -> (r: Result<RawMetadataBlob, FetchError>)
    ensures
        fetched(r, blob_of_response(body@)),
{
    blob_from_document(parse_document(body))
}

} // verus!
