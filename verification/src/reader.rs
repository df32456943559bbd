//! Reading values from a buffer: the executable counterpart of the parser.

use crate::codec::{parse, parse_fields, parse_items};
use crate::node::{find_case, models, Node, NodeModel};
use crate::shape::{case_models, field_models, Case, Field, Shape};
use crate::wire::{parse_text, read_bool, read_compact, read_u8, read_word, DecodeError, Parsed};
use vstd::prelude::*;
use vstd::slice::{slice_subrange, slice_to_vec};
use vstd::utf8::{decode_utf8, valid_utf8};

verus! {

/// A reader's result `r`, started at `pos`, is the value that the parser
/// found at the front of the bytes from `pos` on.
pub open spec fn decoded(
    r: Result<(Node, usize), DecodeError>,
    p: Parsed<NodeModel>,
    pos: usize,
    len: nat,
) -> bool {
    match p {
        Ok((v, n)) => r matches Ok((got, end)) && got@ == v && end == pos + n && pos + n <= len,
        Err(e) => r matches Err(got) && got == e,
    }
}

/// `String::from_utf8` of std: it accepts exactly the byte strings that are
/// well-formed UTF-8, and gives the text that they encode.
#[verifier::external_body]
fn text_of_utf8(bytes: Vec<u8>) -> (r: Option<String>)
    ensures
        r is Some <==> valid_utf8(bytes@),
        r matches Some(t) ==> t@ == decode_utf8(bytes@),
{
    String::from_utf8(bytes).ok()
}

/// Reads a text at `pos`.
pub fn read_text(buf: &[u8], pos: usize) -> (r: Result<(String, usize), DecodeError>)
    requires
        pos <= buf@.len(),
    ensures
        match parse_text(buf@.skip(pos as int)) {
            Ok((t, n)) => r matches Ok((got, end)) && got@ == t && end == pos + n && pos + n
                <= buf@.len(),
            Err(e) => r matches Err(got) && got == e,
        },
{
    match read_compact(buf, pos) {
        Err(e) => Err(e),
        Ok((len, start)) => {
            if buf.len() - start < len as usize {
                Err(DecodeError::Truncated)
            } else {
                let end: usize = start + len as usize;
                let bytes = slice_to_vec(slice_subrange(buf, start, end));
                assert(bytes@ =~= buf@.skip(pos as int).subrange(
                    start - pos,
                    start - pos + len as int,
                ));
                match text_of_utf8(bytes) {
                    Some(t) => Ok((t, end)),
                    None => Err(DecodeError::Malformed),
                }
            }
        },
    }
}

/// The position of the first case that `tag` selects.
pub fn case_position(cases: &Vec<Case>, tag: u8) -> (r: Option<usize>)
    ensures
        r matches Some(i) ==> i < cases@.len() && find_case(case_models(cases@), tag, 0) == Some(
            i as int,
        ),
        r is None ==> find_case(case_models(cases@), tag, 0) is None,
{
    let ghost cm = case_models(cases@);
    let mut j: usize = 0;
    while j < cases.len()
        invariant
            0 <= j <= cases@.len(),
            cm == case_models(cases@),
            find_case(cm, tag, 0) == find_case(cm, tag, j as int),
        decreases cases@.len() - j,
    {
        if cases[j].index == tag {
            return Some(j);
        }
        j += 1;
    }
    None
}

/// Skipping twice is skipping once.
pub proof fn lemma_skip_skip(s: Seq<u8>, a: int, b: int)
    requires
        0 <= a,
        0 <= b,
        a + b <= s.len(),
    ensures
        s.skip(a).skip(b) == s.skip(a + b),
{
    assert(s.skip(a).skip(b) =~= s.skip(a + b));
}

/// The parse of a run of values, given the values already taken from its
/// front, their length, and the parse of what is left.
pub open spec fn joined(
    done: Seq<NodeModel>,
    used: nat,
    rest: Parsed<Seq<NodeModel>>,
) -> Parsed<Seq<NodeModel>> {
    match rest {
        Ok((items, m)) => Ok((done + items, used + m)),
        Err(e) => Err(e),
    }
}

/// A reader's result `r`, started at `pos`, is the run of values that the
/// parser found at the front of the bytes from `pos` on.
pub open spec fn decoded_run(
    r: Result<(Vec<Node>, usize), DecodeError>,
    p: Parsed<Seq<NodeModel>>,
    pos: usize,
    len: nat,
) -> bool {
    match p {
        Ok((v, n)) => r matches Ok((got, end)) && models(got@) == v && end == pos + n && pos + n
            <= len,
        Err(e) => r matches Err(got) && got == e,
    }
}

/// Reads `count` values of the layout `elem`, one after another, at `pos`.
pub fn read_items(elem: &Shape, buf: &[u8], pos: usize, count: u32) -> (r: Result<
    (Vec<Node>, usize),
    DecodeError,
>)
    requires
        pos <= buf@.len(),
    ensures
        decoded_run(r, parse_items(elem@, buf@.skip(pos as int), count as nat), pos, buf@.len()),
    decreases elem, 1nat,
{
    let ghost whole = parse_items(elem@, buf@.skip(pos as int), count as nat);
    let mut items: Vec<Node> = Vec::new();
    let mut at: usize = pos;
    let mut i: u32 = 0;
    assert(models(items@) + whole->Ok_0.0 =~= whole->Ok_0.0);
    while i < count
        invariant
            pos <= at <= buf@.len(),
            i <= count,
            whole == parse_items(elem@, buf@.skip(pos as int), count as nat),
            whole == joined(
                models(items@),
                (at - pos) as nat,
                parse_items(elem@, buf@.skip(at as int), (count - i) as nat),
            ),
        decreases count - i,
    {
        match read_value(elem, buf, at) {
            Err(e) => {
                return Err(e);
            },
            Ok((v, end)) => {
                proof {
                    lemma_skip_skip(buf@, at as int, end - at);
                    let rest = parse_items(elem@, buf@.skip(end as int), (count - i - 1) as nat);
                    if rest is Ok {
                        assert(models(items@.push(v)) + rest->Ok_0.0 =~= models(items@) + (seq![
                            v@,
                        ] + rest->Ok_0.0));
                    }
                }
                items.push(v);
                at = end;
                i += 1;
            },
        }
    }
    assert(models(items@) + Seq::<NodeModel>::empty() =~= models(items@));
    Ok((items, at))
}

/// Reads the values of `fields`, one after another, at `pos`.
pub fn read_fields(fields: &Vec<Field>, buf: &[u8], pos: usize) -> (r: Result<
    (Vec<Node>, usize),
    DecodeError,
>)
    requires
        pos <= buf@.len(),
    ensures
        decoded_run(
            r,
            parse_fields(field_models(fields@), 0, buf@.skip(pos as int)),
            pos,
            buf@.len(),
        ),
    decreases fields, 1nat,
{
    let ghost fm = field_models(fields@);
    let ghost whole = parse_fields(fm, 0, buf@.skip(pos as int));
    let mut items: Vec<Node> = Vec::new();
    let mut at: usize = pos;
    let mut i: usize = 0;
    assert(models(items@) + whole->Ok_0.0 =~= whole->Ok_0.0);
    while i < fields.len()
        invariant
            pos <= at <= buf@.len(),
            i <= fields@.len(),
            fm == field_models(fields@),
            whole == parse_fields(fm, 0, buf@.skip(pos as int)),
            whole == joined(
                models(items@),
                (at - pos) as nat,
                parse_fields(fm, i as int, buf@.skip(at as int)),
            ),
        decreases fields@.len() - i,
    {
        assert(fm[i as int].shape == fields@[i as int].shape.model());
        match read_value(&fields[i].shape, buf, at) {
            Err(e) => {
                return Err(e);
            },
            Ok((v, end)) => {
                proof {
                    lemma_skip_skip(buf@, at as int, end - at);
                    let rest = parse_fields(fm, i + 1, buf@.skip(end as int));
                    if rest is Ok {
                        assert(models(items@.push(v)) + rest->Ok_0.0 =~= models(items@) + (seq![
                            v@,
                        ] + rest->Ok_0.0));
                    }
                }
                items.push(v);
                at = end;
                i += 1;
            },
        }
    }
    assert(models(items@) + Seq::<NodeModel>::empty() =~= models(items@));
    Ok((items, at))
}

/// Reads a value of the layout `shape` at `pos`.
pub fn read_value(shape: &Shape, buf: &[u8], pos: usize) -> (r: Result<(Node, usize), DecodeError>)
    requires
        pos <= buf@.len(),
    ensures
        decoded(r, parse(shape@, buf@.skip(pos as int)), pos, buf@.len()),
    decreases shape, 0nat,
{
    match shape {
        Shape::Byte => match read_u8(buf, pos) {
            Ok((v, end)) => Ok((Node::Int(v), end)),
            Err(e) => Err(e),
        },
        Shape::Bool => match read_bool(buf, pos) {
            Ok((b, end)) => Ok((Node::Bool(b), end)),
            Err(e) => Err(e),
        },
        Shape::Word => match read_word(buf, pos) {
            Ok((v, end)) => Ok((Node::Int(v), end)),
            Err(e) => Err(e),
        },
        Shape::Compact => match read_compact(buf, pos) {
            Ok((v, end)) => Ok((Node::Int(v), end)),
            Err(e) => Err(e),
        },
        Shape::Text => match read_text(buf, pos) {
            Ok((t, end)) => Ok((Node::Text(t), end)),
            Err(e) => Err(e),
        },
        Shape::Opt(inner) => {
            if pos >= buf.len() {
                return Err(DecodeError::Truncated);
            }
            let tag: u8 = buf[pos];
            if tag == 0 {
                Ok((Node::Opt(None), pos + 1))
            } else if tag == 1 {
                proof {
                    lemma_skip_skip(buf@, pos as int, 1);
                }
                match read_value(inner, buf, pos + 1) {
                    Ok((v, end)) => Ok((Node::Opt(Some(Box::new(v))), end)),
                    Err(e) => Err(e),
                }
            } else {
                Err(DecodeError::Malformed)
            }
        },
        Shape::List(inner) => match read_compact(buf, pos) {
            Err(e) => Err(e),
            Ok((count, start)) => {
                proof {
                    lemma_skip_skip(buf@, pos as int, start - pos);
                }
                match read_items(inner, buf, start, count) {
                    Ok((items, end)) => Ok((Node::List(items), end)),
                    Err(e) => Err(e),
                }
            },
        },
        Shape::Record(fields) => match read_fields(fields, buf, pos) {
            Ok((items, end)) => Ok((Node::Record(items), end)),
            Err(e) => Err(e),
        },
        Shape::Choice(cases) => {
            if pos >= buf.len() {
                return Err(DecodeError::Truncated);
            }
            let tag: u8 = buf[pos];
            match case_position(cases, tag) {
                None => Err(DecodeError::Malformed),
                Some(i) => match &cases[i].payload {
                    None => Ok((Node::Variant(tag, None), pos + 1)),
                    Some(p) => {
                        proof {
                            lemma_skip_skip(buf@, pos as int, 1);
                        }
                        match read_value(p, buf, pos + 1) {
                            Ok((v, end)) => Ok((Node::Variant(tag, Some(Box::new(v))), end)),
                            Err(e) => Err(e),
                        }
                    },
                },
            }
        },
    }
}

} // verus!
