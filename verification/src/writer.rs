//! Writing values to bytes: the executable counterpart of the serialiser.

use crate::codec::{serialize, serialize_fields, serialize_items};
use crate::metadata::{encode_spec, magic, VersionedMetadata};
use crate::node::{models, Node, NodeModel};
use crate::reader::case_position;
use crate::schema::{v12_body_shape, v13_body_shape, v14_body_shape};
use crate::shape::{case_models, field_models, Case, Field, FieldModel, Shape, ShapeModel};
use crate::wire::{compact_bytes, le32_bytes, text_bytes};
use vstd::prelude::*;

verus! {

/// Appends the four little-endian bytes of `v`.
fn put_word(out: &mut Vec<u8>, v: u32)
    ensures
        final(out)@ == old(out)@ + le32_bytes(v as int),
{
    out.push((v % 256) as u8);
    out.push(((v / 256) % 256) as u8);
    out.push(((v / 65536) % 256) as u8);
    out.push(((v / 16777216) % 256) as u8);
    assert(out@ =~= old(out)@ + le32_bytes(v as int));
}

/// Appends the compact encoding of `v`.
fn put_compact(out: &mut Vec<u8>, v: u32)
    ensures
        final(out)@ == old(out)@ + compact_bytes(v),
{
    if v < 64 {
        out.push((4 * v) as u8);
    } else if v < 16384 {
        let x: u32 = 4 * v + 1;
        out.push((x % 256) as u8);
        out.push(((x / 256) % 256) as u8);
    } else if v < 0x4000_0000 {
        put_word(out, 4 * v + 2);
    } else {
        out.push(3);
        put_word(out, v);
    }
    assert(out@ =~= old(out)@ + compact_bytes(v));
}

/// Appends bytes.
fn put_bytes(out: &mut Vec<u8>, bytes: &[u8])
    ensures
        final(out)@ == old(out)@ + bytes@,
{
    let mut i: usize = 0;
    while i < bytes.len()
        invariant
            i <= bytes@.len(),
            out@ == old(out)@ + bytes@.take(i as int),
        decreases bytes@.len() - i,
    {
        out.push(bytes[i]);
        assert(out@ =~= old(out)@ + bytes@.take(i + 1));
        i += 1;
    }
    assert(bytes@.take(bytes@.len() as int) =~= bytes@);
}

/// Appends a text: its length in UTF-8, compact, and its UTF-8.
fn put_text(out: &mut Vec<u8>, t: &str)
    ensures
        final(out)@ == old(out)@ + text_bytes(t@),
{
    let bytes = t.as_bytes();
    put_compact(out, #[verifier::truncate] (bytes.len() as u32));
    put_bytes(out, bytes);
    assert(out@ =~= old(out)@ + text_bytes(t@));
}

/// The bytes of the first `upto` of `items`, each under the layout `elem`.
pub open spec fn items_prefix(elem: ShapeModel, items: Seq<NodeModel>, upto: int) -> Seq<u8>
    decreases upto,
{
    if upto <= 0 || upto > items.len() {
        Seq::empty()
    } else {
        items_prefix(elem, items, upto - 1) + serialize(elem, items[upto - 1])
    }
}

/// The bytes of a run of values are the bytes of its first values and the
/// bytes of the rest.
proof fn lemma_items_prefix(elem: ShapeModel, items: Seq<NodeModel>, upto: int)
    requires
        0 <= upto <= items.len(),
    ensures
        serialize_items(elem, items) == items_prefix(elem, items, upto) + serialize_items(
            elem,
            items.skip(upto),
        ),
    decreases upto,
{
    if upto == 0 {
        assert(items.skip(0) =~= items);
        assert(Seq::<u8>::empty() + serialize_items(elem, items) =~= serialize_items(elem, items));
    } else {
        lemma_items_prefix(elem, items, upto - 1);
        let tail = items.skip(upto - 1);
        assert(tail[0] == items[upto - 1]);
        assert(tail.drop_first() =~= items.skip(upto));
        assert(items_prefix(elem, items, upto - 1) + (serialize(elem, tail[0]) + serialize_items(
            elem,
            tail.drop_first(),
        )) =~= items_prefix(elem, items, upto) + serialize_items(elem, items.skip(upto)));
    }
}

/// The bytes of the first `upto` of `items`, each under the layout of its
/// field.
pub open spec fn fields_prefix(fields: Seq<FieldModel>, items: Seq<NodeModel>, upto: int) -> Seq<u8>
    decreases upto,
{
    if upto <= 0 || upto > items.len() || upto > fields.len() {
        Seq::empty()
    } else {
        fields_prefix(fields, items, upto - 1) + serialize(fields[upto - 1].shape, items[upto - 1])
    }
}

/// The bytes of a record's values are the bytes of its first values and the
/// bytes of the rest.
proof fn lemma_fields_prefix(fields: Seq<FieldModel>, items: Seq<NodeModel>, upto: int)
    requires
        0 <= upto <= items.len(),
        upto <= fields.len(),
    ensures
        serialize_fields(fields, 0, items) == fields_prefix(fields, items, upto) + serialize_fields(
            fields,
            upto,
            items.skip(upto),
        ),
    decreases upto,
{
    if upto == 0 {
        assert(items.skip(0) =~= items);
        assert(Seq::<u8>::empty() + serialize_fields(fields, 0, items) =~= serialize_fields(
            fields,
            0,
            items,
        ));
    } else {
        lemma_fields_prefix(fields, items, upto - 1);
        let tail = items.skip(upto - 1);
        assert(tail[0] == items[upto - 1]);
        assert(tail.drop_first() =~= items.skip(upto));
        assert(fields_prefix(fields, items, upto - 1) + (serialize(fields[upto - 1].shape, tail[0])
            + serialize_fields(fields, upto, tail.drop_first())) =~= fields_prefix(
            fields,
            items,
            upto,
        ) + serialize_fields(fields, upto, items.skip(upto)));
    }
}

/// Appends the values of `items`, each under the layout `elem`.
fn put_items(out: &mut Vec<u8>, elem: &Shape, items: &Vec<Node>)
    ensures
        final(out)@ == old(out)@ + serialize_items(elem@, models(items@)),
    decreases elem, 1nat,
{
    let ghost all = models(items@);
    let mut i: usize = 0;
    assert(out@ =~= old(out)@ + items_prefix(elem@, all, 0));
    while i < items.len()
        invariant
            i <= items@.len(),
            all == models(items@),
            out@ == old(out)@ + items_prefix(elem@, all, i as int),
        decreases items@.len() - i,
    {
        assert(all[i as int] == items@[i as int]@);
        put_node(out, elem, &items[i]);
        assert(out@ =~= old(out)@ + items_prefix(elem@, all, i + 1));
        i += 1;
    }
    proof {
        lemma_items_prefix(elem@, all, all.len() as int);
        assert(all.skip(all.len() as int) =~= Seq::<NodeModel>::empty());
        assert(items_prefix(elem@, all, all.len() as int) + Seq::<u8>::empty() =~= items_prefix(
            elem@,
            all,
            all.len() as int,
        ));
    }
}

/// Appends the values of a record, each under the layout of its field.
fn put_fields(out: &mut Vec<u8>, fields: &Vec<Field>, items: &Vec<Node>)
    ensures
        final(out)@ == old(out)@ + serialize_fields(field_models(fields@), 0, models(items@)),
    decreases fields, 1nat,
{
    let ghost fm = field_models(fields@);
    let ghost all = models(items@);
    let count: usize = if fields.len() <= items.len() {
        fields.len()
    } else {
        items.len()
    };
    let mut i: usize = 0;
    assert(out@ =~= old(out)@ + fields_prefix(fm, all, 0));
    while i < count
        invariant
            i <= count,
            count <= fields@.len(),
            count <= items@.len(),
            count == fields@.len() || count == items@.len(),
            fm == field_models(fields@),
            all == models(items@),
            out@ == old(out)@ + fields_prefix(fm, all, i as int),
        decreases count - i,
    {
        assert(all[i as int] == items@[i as int]@);
        assert(fm[i as int] == fields@[i as int]@);
        put_node(out, &fields[i].shape, &items[i]);
        assert(out@ =~= old(out)@ + fields_prefix(fm, all, i + 1));
        i += 1;
    }
    proof {
        lemma_fields_prefix(fm, all, count as int);
        assert(serialize_fields(fm, count as int, all.skip(count as int)) =~= Seq::<u8>::empty());
        assert(fields_prefix(fm, all, count as int) + Seq::<u8>::empty() =~= fields_prefix(
            fm,
            all,
            count as int,
        ));
    }
}

/// Appends one case of a choice.
fn put_variant(out: &mut Vec<u8>, cases: &Vec<Case>, tag: u8, payload: &Option<Box<Node>>)
    ensures
        final(out)@ == old(out)@ + serialize(
            ShapeModel::Choice(case_models(cases@)),
            NodeModel::Variant(
                tag,
                match payload {
                    Some(w) => Some(Box::new(w.model())),
                    None => None,
                },
            ),
        ),
    decreases cases, 1nat,
{
    let ghost cm = case_models(cases@);
    out.push(tag);
    match (case_position(cases, tag), payload) {
        (Some(i), Some(w)) => {
            assert(cm[i as int] == cases@[i as int]@);
            match &cases[i].payload {
                Some(p) => {
                    put_node(out, p, w);
                    assert(out@ =~= old(out)@ + (Seq::<u8>::empty().push(tag) + serialize(p@, w@)));
                },
                None => {
                    assert(out@ =~= old(out)@ + Seq::<u8>::empty().push(tag));
                },
            }
        },
        _ => {
            assert(out@ =~= old(out)@ + Seq::<u8>::empty().push(tag));
        },
    }
}

/// Appends `v` under the layout `shape`.
pub fn put_node(out: &mut Vec<u8>, shape: &Shape, v: &Node)
    ensures
        final(out)@ == old(out)@ + serialize(shape@, v@),
    decreases shape, 0nat,
{
    match (shape, v) {
        (_, Node::Raw(bytes)) => {
            put_bytes(out, bytes.as_slice());
        },
        (Shape::Byte, Node::Int(x)) => {
            out.push(#[verifier::truncate] (*x as u8));
            assert(out@ =~= old(out)@ + serialize(shape@, v@));
        },
        (Shape::Bool, Node::Bool(b)) => {
            out.push(if *b { 1 } else { 0 });
            assert(out@ =~= old(out)@ + serialize(shape@, v@));
        },
        (Shape::Word, Node::Int(x)) => {
            put_word(out, *x);
        },
        (Shape::Compact, Node::Int(x)) => {
            put_compact(out, *x);
        },
        (Shape::Text, Node::Text(t)) => {
            put_text(out, t.as_str());
        },
        (Shape::Opt(_), Node::Opt(None)) => {
            out.push(0);
            assert(out@ =~= old(out)@ + serialize(shape@, v@));
        },
        (Shape::Opt(inner), Node::Opt(Some(w))) => {
            out.push(1);
            put_node(out, inner, w);
            assert(out@ =~= old(out)@ + serialize(shape@, v@));
        },
        (Shape::List(inner), Node::List(items)) => {
            assert(v@ == NodeModel::List(models(items@)));
            put_compact(out, #[verifier::truncate] (items.len() as u32));
            put_items(out, inner, items);
            assert(out@ =~= old(out)@ + serialize(shape@, v@));
        },
        (Shape::Record(fields), Node::Record(items)) => {
            assert(v@ == NodeModel::Record(models(items@)));
            put_fields(out, fields, items);
        },
        (Shape::Choice(cases), Node::Variant(tag, payload)) => {
            put_variant(out, cases, *tag, payload);
            assert(v@ == NodeModel::Variant(
                *tag,
                match payload {
                    Some(w) => Some(Box::new(w.model())),
                    None => None,
                },
            ));
        },
        _ => {
            assert(out@ =~= old(out)@ + serialize(shape@, v@));
        },
    }
}

/// Encodes metadata: the magic bytes, the version tag, and the body under
/// the version's layout.
pub fn encode(metadata: &VersionedMetadata) -> (bytes: Vec<u8>)
    ensures
        bytes@ == encode_spec(metadata@),
{
    let mut out: Vec<u8> = Vec::new();
    out.push(0x6d);
    out.push(0x65);
    out.push(0x74);
    out.push(0x61);
    assert(out@ =~= magic());
    match metadata {
        VersionedMetadata::V12(body) => {
            out.push(12);
            put_node(&mut out, &v12_body_shape(), body);
        },
        VersionedMetadata::V13(body) => {
            out.push(13);
            put_node(&mut out, &v13_body_shape(), body);
        },
        VersionedMetadata::V14(body) => {
            out.push(14);
            put_node(&mut out, &v14_body_shape(), body);
        },
        VersionedMetadata::Unsupported(tag) => {
            out.push(*tag);
        },
    }
    assert(out@ =~= encode_spec(metadata@));
    out
}

} // verus!
