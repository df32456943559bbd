//! What holds of the parser and the serialiser under every schema.

use crate::codec::{
    parse, parse_fields, parse_items, serialize, serialize_fields, serialize_items,
};
use crate::shape::{FieldModel, ShapeModel};
use crate::node::{conforms, find_case, NodeModel};
use crate::wire::{
    lemma_bytes_of_le32, lemma_compact_faithful, lemma_compact_inverse, lemma_compact_truncated,
    lemma_le32_of_bytes, lemma_text_faithful, lemma_text_inverse, lemma_text_truncated,
    compact_bytes, parse_compact, DecodeError,
};
use vstd::prelude::*;

verus! {

/// Whatever the parser accepts is a value of the schema, lies within the
/// buffer, and is spelt by the serialiser exactly as the buffer spells it.
pub proof fn lemma_parse_faithful(shape: ShapeModel, s: Seq<u8>)
    requires
        parse(shape, s) is Ok,
    ensures
        parse(shape, s)->Ok_0.1 <= s.len(),
        conforms(parse(shape, s)->Ok_0.0, shape),
        serialize(shape, parse(shape, s)->Ok_0.0) == s.take(parse(shape, s)->Ok_0.1 as int),
    decreases shape, 0nat, 0nat,
{
    let v = parse(shape, s)->Ok_0.0;
    let n = parse(shape, s)->Ok_0.1;
    match shape {
        ShapeModel::Byte => {
            assert(serialize(shape, v) =~= s.take(1));
        },
        ShapeModel::Bool => {
            assert(serialize(shape, v) =~= s.take(1));
        },
        ShapeModel::Word => {
            lemma_bytes_of_le32(s[0], s[1], s[2], s[3]);
            assert(serialize(shape, v) =~= s.take(4));
        },
        ShapeModel::Compact => {
            lemma_compact_faithful(s);
        },
        ShapeModel::Text => {
            lemma_text_faithful(s);
        },
        ShapeModel::Opt(inner) => {
            if s[0] == 0 {
                assert(serialize(shape, v) =~= s.take(1));
            } else {
                lemma_parse_faithful(*inner, s.skip(1));
                let m = parse(*inner, s.skip(1))->Ok_0.1;
                assert(seq![1u8] + s.skip(1).take(m as int) =~= s.take((m + 1) as int));
            }
        },
        ShapeModel::List(inner) => {
            let count = parse_compact(s)->Ok_0.0;
            let k = parse_compact(s)->Ok_0.1;
            lemma_compact_faithful(s);
            lemma_items_faithful(*inner, s.skip(k as int), count as nat);
            let m = parse_items(*inner, s.skip(k as int), count as nat)->Ok_0.1;
            assert(s.take(k as int) + s.skip(k as int).take(m as int) =~= s.take((k + m) as int));
        },
        ShapeModel::Record(fields) => {
            lemma_fields_faithful(fields, 0, s);
        },
        ShapeModel::Choice(cases) => {
            let i = find_case(cases, s[0], 0)->Some_0;
            match cases[i].payload {
                None => {
                    assert(serialize(shape, v) =~= s.take(1));
                },
                Some(p) => {
                    lemma_parse_faithful(p, s.skip(1));
                    let m = parse(p, s.skip(1))->Ok_0.1;
                    assert(seq![s[0]] + s.skip(1).take(m as int) =~= s.take((m + 1) as int));
                },
            }
        },
    }
}

/// The same of a run of values of one layout.
pub proof fn lemma_items_faithful(elem: ShapeModel, s: Seq<u8>, count: nat)
    requires
        parse_items(elem, s, count) is Ok,
    ensures
        parse_items(elem, s, count)->Ok_0.1 <= s.len(),
        parse_items(elem, s, count)->Ok_0.0.len() == count,
        forall|i: int|
            0 <= i < count ==> conforms(#[trigger] parse_items(elem, s, count)->Ok_0.0[i], elem),
        serialize_items(elem, parse_items(elem, s, count)->Ok_0.0) == s.take(
            parse_items(elem, s, count)->Ok_0.1 as int,
        ),
    decreases elem, 1nat, count,
{
    let items = parse_items(elem, s, count)->Ok_0.0;
    if count == 0 {
        assert(serialize_items(elem, items) =~= s.take(0));
    } else {
        let v = parse(elem, s)->Ok_0.0;
        let n = parse(elem, s)->Ok_0.1;
        let rest = parse_items(elem, s.skip(n as int), (count - 1) as nat)->Ok_0.0;
        let m = parse_items(elem, s.skip(n as int), (count - 1) as nat)->Ok_0.1;
        lemma_parse_faithful(elem, s);
        lemma_items_faithful(elem, s.skip(n as int), (count - 1) as nat);
        assert(items.drop_first() =~= rest);
        assert(s.take(n as int) + s.skip(n as int).take(m as int) =~= s.take((n + m) as int));
        assert forall|i: int| 0 <= i < count implies conforms(#[trigger] items[i], elem) by {
            if i > 0 {
                assert(items[i] == rest[i - 1]);
            }
        }
    }
}

/// The same of the values of a record's fields from position `from` on.
pub proof fn lemma_fields_faithful(fields: Seq<FieldModel>, from: int, s: Seq<u8>)
    requires
        0 <= from <= fields.len(),
        parse_fields(fields, from, s) is Ok,
    ensures
        parse_fields(fields, from, s)->Ok_0.1 <= s.len(),
        parse_fields(fields, from, s)->Ok_0.0.len() == fields.len() - from,
        forall|i: int|
            0 <= i < fields.len() - from ==> conforms(
                #[trigger] parse_fields(fields, from, s)->Ok_0.0[i],
                fields[from + i].shape,
            ),
        serialize_fields(fields, from, parse_fields(fields, from, s)->Ok_0.0) == s.take(
            parse_fields(fields, from, s)->Ok_0.1 as int,
        ),
    decreases fields, 1nat, fields.len() - from,
{
    let items = parse_fields(fields, from, s)->Ok_0.0;
    if from >= fields.len() {
        assert(serialize_fields(fields, from, items) =~= s.take(0));
    } else {
        let v = parse(fields[from].shape, s)->Ok_0.0;
        let n = parse(fields[from].shape, s)->Ok_0.1;
        let rest = parse_fields(fields, from + 1, s.skip(n as int))->Ok_0.0;
        let m = parse_fields(fields, from + 1, s.skip(n as int))->Ok_0.1;
        lemma_parse_faithful(fields[from].shape, s);
        lemma_fields_faithful(fields, from + 1, s.skip(n as int));
        assert(items.drop_first() =~= rest);
        assert(s.take(n as int) + s.skip(n as int).take(m as int) =~= s.take((n + m) as int));
        assert forall|i: int| 0 <= i < fields.len() - from implies conforms(
            #[trigger] items[i],
            fields[from + i].shape,
        ) by {
            if i > 0 {
                assert(items[i] == rest[i - 1]);
            }
        }
    }
}

/// Whatever value of the schema the serialiser writes, the parser reads
/// back, with its length, whatever follows it in the buffer.
pub proof fn lemma_parse_inverse(shape: ShapeModel, v: NodeModel, rest: Seq<u8>)
    requires
        conforms(v, shape),
    ensures
        parse(shape, serialize(shape, v) + rest) == Ok::<(NodeModel, nat), DecodeError>(
            (v, serialize(shape, v).len()),
        ),
    decreases shape, 0nat, 0nat,
{
    let bytes = serialize(shape, v);
    let s = bytes + rest;
    match shape {
        ShapeModel::Byte => {
            assert(s[0] == bytes[0]);
        },
        ShapeModel::Bool => {
            assert(s[0] == bytes[0]);
        },
        ShapeModel::Word => {
            let x = v->Int_0;
            lemma_le32_of_bytes(x);
            assert(s[0] == bytes[0] && s[1] == bytes[1] && s[2] == bytes[2] && s[3] == bytes[3]);
        },
        ShapeModel::Compact => {
            lemma_compact_inverse(v->Int_0, rest);
        },
        ShapeModel::Text => {
            lemma_text_inverse(v->Text_0, rest);
        },
        ShapeModel::Opt(inner) => {
            match v {
                NodeModel::Opt(Some(w)) => {
                    lemma_parse_inverse(*inner, *w, rest);
                    assert(s[0] == 1);
                    assert(s.skip(1) =~= serialize(*inner, *w) + rest);
                },
                _ => {
                    assert(s[0] == 0);
                },
            }
        },
        ShapeModel::List(inner) => {
            let items = v->List_0;
            let head = compact_bytes(items.len() as u32);
            let body = serialize_items(*inner, items);
            lemma_compact_inverse(items.len() as u32, body + rest);
            assert(s =~= head + (body + rest));
            assert(s.skip(head.len() as int) =~= body + rest);
            lemma_items_inverse(*inner, items, rest);
        },
        ShapeModel::Record(fields) => {
            lemma_fields_inverse(fields, 0, v->Record_0, rest);
        },
        ShapeModel::Choice(cases) => {
            let tag = v->Variant_0;
            let i = find_case(cases, tag, 0)->Some_0;
            assert(s[0] == tag);
            match cases[i].payload {
                None => {},
                Some(p) => {
                    let w = *v->Variant_1->Some_0;
                    lemma_parse_inverse(p, w, rest);
                    assert(s.skip(1) =~= serialize(p, w) + rest);
                },
            }
        },
    }
}

/// The same of a run of values of one layout.
pub proof fn lemma_items_inverse(elem: ShapeModel, items: Seq<NodeModel>, rest: Seq<u8>)
    requires
        forall|i: int| 0 <= i < items.len() ==> conforms(#[trigger] items[i], elem),
    ensures
        parse_items(elem, serialize_items(elem, items) + rest, items.len()) == Ok::<
            (Seq<NodeModel>, nat),
            DecodeError,
        >((items, serialize_items(elem, items).len())),
    decreases elem, 1nat, items.len(),
{
    if items.len() > 0 {
        let first = serialize(elem, items[0]);
        let tail = serialize_items(elem, items.drop_first());
        let s = serialize_items(elem, items) + rest;
        assert(s =~= first + (tail + rest));
        lemma_parse_inverse(elem, items[0], tail + rest);
        assert(s.skip(first.len() as int) =~= tail + rest);
        assert forall|i: int| 0 <= i < items.drop_first().len() implies conforms(
            #[trigger] items.drop_first()[i],
            elem,
        ) by {
            assert(items.drop_first()[i] == items[i + 1]);
        }
        lemma_items_inverse(elem, items.drop_first(), rest);
        assert(seq![items[0]] + items.drop_first() =~= items);
    } else {
        assert(items =~= Seq::empty());
    }
}

/// The same of the values of a record's fields from position `from` on.
pub proof fn lemma_fields_inverse(
    fields: Seq<FieldModel>,
    from: int,
    items: Seq<NodeModel>,
    rest: Seq<u8>,
)
    requires
        0 <= from <= fields.len(),
        items.len() == fields.len() - from,
        forall|i: int|
            0 <= i < items.len() ==> conforms(#[trigger] items[i], fields[from + i].shape),
    ensures
        parse_fields(fields, from, serialize_fields(fields, from, items) + rest) == Ok::<
            (Seq<NodeModel>, nat),
            DecodeError,
        >((items, serialize_fields(fields, from, items).len())),
    decreases fields, 1nat, fields.len() - from,
{
    if from < fields.len() {
        let first = serialize(fields[from].shape, items[0]);
        let tail = serialize_fields(fields, from + 1, items.drop_first());
        let s = serialize_fields(fields, from, items) + rest;
        assert(s =~= first + (tail + rest));
        lemma_parse_inverse(fields[from].shape, items[0], tail + rest);
        assert(s.skip(first.len() as int) =~= tail + rest);
        assert forall|i: int| 0 <= i < items.drop_first().len() implies conforms(
            #[trigger] items.drop_first()[i],
            fields[from + 1 + i].shape,
        ) by {
            assert(items.drop_first()[i] == items[i + 1]);
        }
        lemma_fields_inverse(fields, from + 1, items.drop_first(), rest);
        assert(seq![items[0]] + items.drop_first() =~= items);
    } else {
        assert(items =~= Seq::empty());
    }
}

/// The parser reads a value from its own bytes alone: what follows them
/// does not matter.
pub proof fn lemma_parse_stable(shape: ShapeModel, s: Seq<u8>, t: Seq<u8>)
    requires
        parse(shape, s) is Ok,
    ensures
        parse(shape, s.take(parse(shape, s)->Ok_0.1 as int) + t) == parse(shape, s),
{
    lemma_parse_faithful(shape, s);
    lemma_parse_inverse(shape, parse(shape, s)->Ok_0.0, t);
}

/// The start of a buffer that the parser accepts, cut anywhere inside the
/// value, is reported as truncated.
pub proof fn lemma_parse_truncated(shape: ShapeModel, s: Seq<u8>, k: int)
    requires
        parse(shape, s) is Ok,
        0 <= k < parse(shape, s)->Ok_0.1,
    ensures
        parse(shape, s.take(k)) == Err::<(NodeModel, nat), DecodeError>(DecodeError::Truncated),
    decreases shape, 0nat, 0nat,
{
    assert(k < s.len()) by {
        lemma_parse_faithful(shape, s);
    }
    let cut = s.take(k);
    match shape {
        ShapeModel::Byte => {},
        ShapeModel::Bool => {},
        ShapeModel::Word => {},
        ShapeModel::Compact => {
            lemma_compact_truncated(s, k);
        },
        ShapeModel::Text => {
            lemma_text_truncated(s, k);
        },
        ShapeModel::Opt(inner) => {
            if k > 0 {
                assert(cut[0] == s[0]);
                assert(cut.skip(1) =~= s.skip(1).take(k - 1));
                lemma_parse_truncated(*inner, s.skip(1), k - 1);
            }
        },
        ShapeModel::List(inner) => {
            let count = parse_compact(s)->Ok_0.0;
            let n = parse_compact(s)->Ok_0.1;
            lemma_compact_faithful(s);
            if k < n {
                lemma_compact_truncated(s, k);
            } else {
                lemma_compact_inverse(count, s.subrange(n as int, k));
                assert(cut =~= s.take(n as int) + s.subrange(n as int, k));
                assert(cut.skip(n as int) =~= s.skip(n as int).take(k - n));
                lemma_items_truncated(*inner, s.skip(n as int), count as nat, k - n);
            }
        },
        ShapeModel::Record(fields) => {
            lemma_fields_truncated(fields, 0, s, k);
        },
        ShapeModel::Choice(cases) => {
            if k > 0 {
                assert(cut[0] == s[0]);
                let i = find_case(cases, s[0], 0)->Some_0;
                match cases[i].payload {
                    None => {},
                    Some(p) => {
                        assert(cut.skip(1) =~= s.skip(1).take(k - 1));
                        lemma_parse_truncated(p, s.skip(1), k - 1);
                    },
                }
            }
        },
    }
}

/// The same of a run of values of one layout.
pub proof fn lemma_items_truncated(elem: ShapeModel, s: Seq<u8>, count: nat, k: int)
    requires
        parse_items(elem, s, count) is Ok,
        0 <= k < parse_items(elem, s, count)->Ok_0.1,
    ensures
        parse_items(elem, s.take(k), count) == Err::<(Seq<NodeModel>, nat), DecodeError>(
            DecodeError::Truncated,
        ),
    decreases elem, 1nat, count,
{
    if count > 0 {
        let n = parse(elem, s)->Ok_0.1;
        lemma_parse_faithful(elem, s);
        lemma_items_faithful(elem, s.skip(n as int), (count - 1) as nat);
        if k < n {
            lemma_parse_truncated(elem, s, k);
        } else {
            lemma_parse_stable(elem, s, s.subrange(n as int, k));
            assert(s.take(k) =~= s.take(n as int) + s.subrange(n as int, k));
            assert(s.take(k).skip(n as int) =~= s.skip(n as int).take(k - n));
            lemma_items_truncated(elem, s.skip(n as int), (count - 1) as nat, k - n);
        }
    }
}

/// The same of the values of a record's fields from position `from` on.
pub proof fn lemma_fields_truncated(fields: Seq<FieldModel>, from: int, s: Seq<u8>, k: int)
    requires
        0 <= from <= fields.len(),
        parse_fields(fields, from, s) is Ok,
        0 <= k < parse_fields(fields, from, s)->Ok_0.1,
    ensures
        parse_fields(fields, from, s.take(k)) == Err::<(Seq<NodeModel>, nat), DecodeError>(
            DecodeError::Truncated,
        ),
    decreases fields, 1nat, fields.len() - from,
{
    if from < fields.len() {
        let n = parse(fields[from].shape, s)->Ok_0.1;
        lemma_parse_faithful(fields[from].shape, s);
        lemma_fields_faithful(fields, from + 1, s.skip(n as int));
        if k < n {
            lemma_parse_truncated(fields[from].shape, s, k);
        } else {
            lemma_parse_stable(fields[from].shape, s, s.subrange(n as int, k));
            assert(s.take(k) =~= s.take(n as int) + s.subrange(n as int, k));
            assert(s.take(k).skip(n as int) =~= s.skip(n as int).take(k - n));
            lemma_fields_truncated(fields, from + 1, s.skip(n as int), k - n);
        }
    }
}

} // verus!
