//! Runtime metadata as a node reports it: four magic bytes, a version tag,
//! and a body whose layout the version fixes.

use crate::codec::{parse, serialize};
use crate::laws::{lemma_parse_faithful, lemma_parse_inverse, lemma_parse_truncated};
use crate::reader::{read_value};
use crate::schema::{v12_body, v12_body_shape, v13_body, v13_body_shape, v14_body, v14_body_shape};
use crate::shape::ShapeModel;
use crate::node::{conforms, Node, NodeModel};
use crate::wire::DecodeError;
use vstd::prelude::*;

verus! {

/// Decoded metadata: one case for each version.
#[derive(Debug, PartialEq, Eq)]
pub enum VersionedMetadata {
    /// The body of version 12, of the layout [`v12_body`].
    V12(Node),
    /// The body of version 13, of the layout [`v13_body`].
    V13(Node),
    /// The body of version 14, of the layout [`v14_body`].
    V14(Node),
    /// Metadata of a version that this library does not interpret: its tag.
    Unsupported(u8),
}

/// The mathematical model of [`VersionedMetadata`].
pub enum MetadataModel {
    V12(NodeModel),
    V13(NodeModel),
    V14(NodeModel),
    Unsupported(u8),
}

impl View for VersionedMetadata {
    type V = MetadataModel;

    open spec fn view(&self) -> MetadataModel {
        match self {
            VersionedMetadata::V12(body) => MetadataModel::V12(body@),
            VersionedMetadata::V13(body) => MetadataModel::V13(body@),
            VersionedMetadata::V14(body) => MetadataModel::V14(body@),
            VersionedMetadata::Unsupported(tag) => MetadataModel::Unsupported(*tag),
        }
    }
}

impl VersionedMetadata {
    /// The version tag: 12, 13 or 14, or the tag of unsupported metadata.
    pub fn version(&self) -> (tag: u8)
        ensures
            tag == self@.tag(),
    {
        match self {
            VersionedMetadata::V12(_) => 12,
            VersionedMetadata::V13(_) => 13,
            VersionedMetadata::V14(_) => 14,
            VersionedMetadata::Unsupported(tag) => *tag,
        }
    }
}

impl MetadataModel {
    /// The version tag.
    pub open spec fn tag(self) -> u8 {
        match self {
            MetadataModel::V12(_) => 12,
            MetadataModel::V13(_) => 13,
            MetadataModel::V14(_) => 14,
            MetadataModel::Unsupported(tag) => tag,
        }
    }

    /// The body, where the version is supported.
    pub open spec fn body(self) -> Option<NodeModel> {
        match self {
            MetadataModel::V12(body) => Some(body),
            MetadataModel::V13(body) => Some(body),
            MetadataModel::V14(body) => Some(body),
            MetadataModel::Unsupported(_) => None,
        }
    }

    /// The body is a fully decoded value of the version's layout.
    pub open spec fn well_formed(self) -> bool {
        match self {
            MetadataModel::V12(body) => conforms(body, v12_body()),
            MetadataModel::V13(body) => conforms(body, v13_body()),
            MetadataModel::V14(body) => conforms(body, v14_body()),
            MetadataModel::Unsupported(tag) => body_layout(tag) is None,
        }
    }
}

/// The four bytes that every metadata buffer starts with: "meta".
pub open spec fn magic() -> Seq<u8> {
    Seq::empty().push(0x6du8).push(0x65u8).push(0x74u8).push(0x61u8)
}

/// `s` starts with the magic bytes.
pub open spec fn has_magic(s: Seq<u8>) -> bool {
    s.len() >= 4 && s[0] == 0x6d && s[1] == 0x65 && s[2] == 0x74 && s[3] == 0x61
}

/// The layout of the body that follows the version tag `tag`, where the
/// version is supported.
pub open spec fn body_layout(tag: u8) -> Option<ShapeModel> {
    if tag == 12 {
        Some(v12_body())
    } else if tag == 13 {
        Some(v13_body())
    } else if tag == 14 {
        Some(v14_body())
    } else {
        None
    }
}

/// The metadata of version `tag` with the body `body`.
pub open spec fn versioned(tag: u8, body: NodeModel) -> MetadataModel {
    if tag == 12 {
        MetadataModel::V12(body)
    } else if tag == 13 {
        MetadataModel::V13(body)
    } else if tag == 14 {
        MetadataModel::V14(body)
    } else {
        MetadataModel::Unsupported(tag)
    }
}

/// What a buffer means: the metadata at its front, or why there is none.
/// Bytes behind the metadata are not looked at.
pub open spec fn decode_spec(s: Seq<u8>) -> Result<MetadataModel, DecodeError> {
    if s.len() < 4 {
        Err(DecodeError::Truncated)
    } else if !has_magic(s) {
        Err(DecodeError::BadMagic)
    } else if s.len() < 5 {
        Err(DecodeError::Truncated)
    } else {
        match body_layout(s[4]) {
            None => Err(DecodeError::UnsupportedVersion),
            Some(layout) => match parse(layout, s.skip(5)) {
                Ok((body, _)) => Ok(versioned(s[4], body)),
                Err(e) => Err(e),
            },
        }
    }
}

/// The bytes of metadata: the magic bytes, the version tag, and the body
/// under the version's layout.
pub open spec fn encode_spec(m: MetadataModel) -> Seq<u8> {
    match m {
        MetadataModel::V12(body) => magic().push(12u8) + serialize(v12_body(), body),
        MetadataModel::V13(body) => magic().push(13u8) + serialize(v13_body(), body),
        MetadataModel::V14(body) => magic().push(14u8) + serialize(v14_body(), body),
        MetadataModel::Unsupported(tag) => magic().push(tag),
    }
}

/// Decodes the metadata at the front of `bytes`.
///
/// Fails with `Truncated` where the buffer ends inside the metadata, with
/// `BadMagic` where its first four bytes are not "meta", with
/// `UnsupportedVersion` where the tag behind them is none of 12, 13 and 14,
/// and with `Malformed` where a field has not the shape of its type.
pub fn decode(bytes: &[u8]) -> (r: Result<VersionedMetadata, DecodeError>)
    ensures
        match decode_spec(bytes@) {
            Ok(m) => r matches Ok(got) && got@ == m && m.well_formed(),
            Err(e) => r matches Err(got) && got == e,
        },
{
    if bytes.len() < 4 {
        return Err(DecodeError::Truncated);
    }
    if bytes[0] != 0x6d || bytes[1] != 0x65 || bytes[2] != 0x74 || bytes[3] != 0x61 {
        return Err(DecodeError::BadMagic);
    }
    if bytes.len() < 5 {
        return Err(DecodeError::Truncated);
    }
    let tag: u8 = bytes[4];
    if tag == 12 {
        proof {
            lemma_decode_well_formed(bytes@);
        }
        match read_value(&v12_body_shape(), bytes, 5) {
            Ok((body, _)) => Ok(VersionedMetadata::V12(body)),
            Err(e) => Err(e),
        }
    } else if tag == 13 {
        proof {
            lemma_decode_well_formed(bytes@);
        }
        match read_value(&v13_body_shape(), bytes, 5) {
            Ok((body, _)) => Ok(VersionedMetadata::V13(body)),
            Err(e) => Err(e),
        }
    } else if tag == 14 {
        proof {
            lemma_decode_well_formed(bytes@);
        }
        match read_value(&v14_body_shape(), bytes, 5) {
            Ok((body, _)) => Ok(VersionedMetadata::V14(body)),
            Err(e) => Err(e),
        }
    } else {
        Err(DecodeError::UnsupportedVersion)
    }
}

/// What decodes is well formed.
pub proof fn lemma_decode_well_formed(s: Seq<u8>)
    ensures
        decode_spec(s) matches Ok(m) ==> m.well_formed(),
{
    if decode_spec(s) is Ok {
        lemma_parse_faithful(body_layout(s[4])->Some_0, s.skip(5));
    }
}

/// Decoding and encoding again gives back the bytes that were decoded: the
/// encoding is the front of the buffer, and the whole of it where nothing
/// follows the metadata.
pub proof fn lemma_decode_then_encode(s: Seq<u8>)
    requires
        decode_spec(s) is Ok,
    ensures
        encode_spec(decode_spec(s)->Ok_0).len() <= s.len(),
        encode_spec(decode_spec(s)->Ok_0) == s.take(encode_spec(decode_spec(s)->Ok_0).len() as int),
        encode_spec(decode_spec(s)->Ok_0).len() == s.len() ==> encode_spec(decode_spec(s)->Ok_0)
            == s,
{
    let m = decode_spec(s)->Ok_0;
    let layout = body_layout(s[4])->Some_0;
    let n = parse(layout, s.skip(5))->Ok_0.1;
    lemma_parse_faithful(layout, s.skip(5));
    assert(magic().push(s[4]) =~= s.take(5));
    assert(s.take(5) + s.skip(5).take(n as int) =~= s.take((5 + n) as int));
    assert(s.take(s.len() as int) =~= s);
}

/// Encoding well-formed metadata of a supported version and decoding the
/// bytes gives back the metadata, whatever follows it in the buffer.
pub proof fn lemma_encode_then_decode(m: MetadataModel, rest: Seq<u8>)
    requires
        m.well_formed(),
        !(m is Unsupported),
    ensures
        decode_spec(encode_spec(m) + rest) == Ok::<MetadataModel, DecodeError>(m),
{
    let layout = body_layout(m.tag())->Some_0;
    let body = m.body()->Some_0;
    let s = encode_spec(m) + rest;
    lemma_parse_inverse(layout, body, rest);
    assert(s.skip(5) =~= serialize(layout, body) + rest);
    assert(s[4] == m.tag());
    assert(has_magic(s));
}

/// A buffer that decodes, cut anywhere inside the metadata, is reported as
/// truncated.
pub proof fn lemma_decode_truncated(s: Seq<u8>, k: int)
    requires
        decode_spec(s) is Ok,
        0 <= k < encode_spec(decode_spec(s)->Ok_0).len(),
    ensures
        decode_spec(s.take(k)) == Err::<MetadataModel, DecodeError>(DecodeError::Truncated),
{
    let layout = body_layout(s[4])->Some_0;
    lemma_parse_faithful(layout, s.skip(5));
    lemma_decode_then_encode(s);
    let cut = s.take(k);
    if k >= 5 {
        assert(has_magic(cut));
        assert(cut[4] == s[4]);
        assert(cut.skip(5) =~= s.skip(5).take(k - 5));
        lemma_parse_truncated(layout, s.skip(5), k - 5);
    } else if k == 4 {
        assert(has_magic(cut));
    }
}

/// A buffer whose version tag is none of the supported ones is reported as
/// such, whatever its other bytes are.
pub proof fn lemma_unsupported_version(tag: u8, body: Seq<u8>)
    requires
        tag != 12 && tag != 13 && tag != 14,
    ensures
        decode_spec(magic().push(tag) + body) == Err::<MetadataModel, DecodeError>(
            DecodeError::UnsupportedVersion,
        ),
{
    let s = magic().push(tag) + body;
    assert(has_magic(s));
    assert(s[4] == tag);
}

} // verus!
