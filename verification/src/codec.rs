//! What a buffer means under a schema, and what a value looks like on the
//! wire: the parser and the serialiser in spec mode.

use crate::shape::{FieldModel, ShapeModel};
use crate::node::{find_case, NodeModel};
use crate::wire::{
    bool_bytes, compact_bytes, parse_bool, parse_compact, parse_text, parse_u8, parse_word,
    text_bytes, u8_bytes, word_bytes, DecodeError, Parsed,
};
use vstd::prelude::*;

verus! {

/// The value of layout `shape` at the front of `s`, and its length.
pub open spec fn parse(shape: ShapeModel, s: Seq<u8>) -> Parsed<NodeModel>
    decreases shape, 0nat, 0nat,
{
    match shape {
        ShapeModel::Byte => match parse_u8(s) {
            Ok((v, n)) => Ok((NodeModel::Int(v), n)),
            Err(e) => Err(e),
        },
        ShapeModel::Bool => match parse_bool(s) {
            Ok((b, n)) => Ok((NodeModel::Bool(b), n)),
            Err(e) => Err(e),
        },
        ShapeModel::Word => match parse_word(s) {
            Ok((v, n)) => Ok((NodeModel::Int(v), n)),
            Err(e) => Err(e),
        },
        ShapeModel::Compact => match parse_compact(s) {
            Ok((v, n)) => Ok((NodeModel::Int(v), n)),
            Err(e) => Err(e),
        },
        ShapeModel::Text => match parse_text(s) {
            Ok((t, n)) => Ok((NodeModel::Text(t), n)),
            Err(e) => Err(e),
        },
        ShapeModel::Opt(inner) => if s.len() < 1 {
            Err(DecodeError::Truncated)
        } else if s[0] == 0 {
            Ok((NodeModel::Opt(None), 1nat))
        } else if s[0] == 1 {
            match parse(*inner, s.skip(1)) {
                Ok((v, n)) => Ok((NodeModel::Opt(Some(Box::new(v))), n + 1)),
                Err(e) => Err(e),
            }
        } else {
            Err(DecodeError::Malformed)
        },
        ShapeModel::List(inner) => match parse_compact(s) {
            Err(e) => Err(e),
            Ok((count, n)) => match parse_items(*inner, s.skip(n as int), count as nat) {
                Ok((items, m)) => Ok((NodeModel::List(items), n + m)),
                Err(e) => Err(e),
            },
        },
        ShapeModel::Record(fields) => match parse_fields(fields, 0, s) {
            Ok((items, n)) => Ok((NodeModel::Record(items), n)),
            Err(e) => Err(e),
        },
        ShapeModel::Choice(cases) => if s.len() < 1 {
            Err(DecodeError::Truncated)
        } else {
            match find_case(cases, s[0], 0) {
                Some(i) => if 0 <= i < cases.len() {
                    match cases[i].payload {
                        None => Ok((NodeModel::Variant(s[0], None), 1nat)),
                        Some(p) => match parse(p, s.skip(1)) {
                            Ok((v, n)) => Ok((NodeModel::Variant(s[0], Some(Box::new(v))), n + 1)),
                            Err(e) => Err(e),
                        },
                    }
                } else {
                    Err(DecodeError::Malformed)
                },
                None => Err(DecodeError::Malformed),
            }
        },
    }
}

/// `count` values of layout `elem`, one after another, at the front of `s`.
pub open spec fn parse_items(elem: ShapeModel, s: Seq<u8>, count: nat) -> Parsed<Seq<NodeModel>>
    decreases elem, 1nat, count,
{
    if count == 0 {
        Ok((Seq::empty(), 0nat))
    } else {
        match parse(elem, s) {
            Err(e) => Err(e),
            Ok((v, n)) => match parse_items(elem, s.skip(n as int), (count - 1) as nat) {
                Err(e) => Err(e),
                Ok((rest, m)) => Ok((seq![v] + rest, n + m)),
            },
        }
    }
}

/// The values of the fields from position `from` on, one after another, at
/// the front of `s`.
pub open spec fn parse_fields(fields: Seq<FieldModel>, from: int, s: Seq<u8>) -> Parsed<
    Seq<NodeModel>,
>
    decreases fields, 1nat, fields.len() - from,
{
    if from < 0 || from >= fields.len() {
        Ok((Seq::empty(), 0nat))
    } else {
        match parse(fields[from].shape, s) {
            Err(e) => Err(e),
            Ok((v, n)) => match parse_fields(fields, from + 1, s.skip(n as int)) {
                Err(e) => Err(e),
                Ok((rest, m)) => Ok((seq![v] + rest, n + m)),
            },
        }
    }
}

/// The bytes of `value` under the layout `shape`. A part left encoded by its
/// producer stands for itself.
pub open spec fn serialize(shape: ShapeModel, value: NodeModel) -> Seq<u8>
    decreases shape, 0nat, 0nat,
{
    match (shape, value) {
        (_, NodeModel::Raw(bytes)) => bytes,
        (ShapeModel::Byte, NodeModel::Int(v)) => u8_bytes(v),
        (ShapeModel::Bool, NodeModel::Bool(b)) => bool_bytes(b),
        (ShapeModel::Word, NodeModel::Int(v)) => word_bytes(v),
        (ShapeModel::Compact, NodeModel::Int(v)) => compact_bytes(v),
        (ShapeModel::Text, NodeModel::Text(t)) => text_bytes(t),
        (ShapeModel::Opt(_), NodeModel::Opt(None)) => seq![0u8],
        (ShapeModel::Opt(inner), NodeModel::Opt(Some(v))) => seq![1u8] + serialize(*inner, *v),
        (ShapeModel::List(inner), NodeModel::List(items)) => compact_bytes(items.len() as u32)
            + serialize_items(*inner, items),
        (ShapeModel::Record(fields), NodeModel::Record(items)) => serialize_fields(
            fields,
            0,
            items,
        ),
        (ShapeModel::Choice(cases), NodeModel::Variant(tag, payload)) => match (
            find_case(cases, tag, 0),
            payload,
        ) {
            (Some(i), Some(v)) => if 0 <= i < cases.len() && cases[i].payload is Some {
                seq![tag] + serialize(cases[i].payload->Some_0, *v)
            } else {
                seq![tag]
            },
            _ => seq![tag],
        },
        _ => Seq::empty(),
    }
}

/// The bytes of `items`, each under the layout `elem`, one after another.
pub open spec fn serialize_items(elem: ShapeModel, items: Seq<NodeModel>) -> Seq<u8>
    decreases elem, 1nat, items.len(),
{
    if items.len() == 0 {
        Seq::empty()
    } else {
        serialize(elem, items[0]) + serialize_items(elem, items.drop_first())
    }
}

/// The bytes of the values `items`, each under the layout of its field,
/// from the field at position `from` on.
pub open spec fn serialize_fields(fields: Seq<FieldModel>, from: int, items: Seq<NodeModel>) -> Seq<
    u8,
>
    decreases fields, 1nat, fields.len() - from,
{
    if from < 0 || from >= fields.len() || items.len() == 0 {
        Seq::empty()
    } else {
        serialize(fields[from].shape, items[0]) + serialize_fields(
            fields,
            from + 1,
            items.drop_first(),
        )
    }
}

} // verus!
