//! Showing values as indented JSON text.

use crate::lookup::{component_layout, LookupModel, LookupResult, Schema};
use crate::metadata::{MetadataModel, VersionedMetadata};
use crate::reader::case_position;
use crate::schema::{
    v12_body, v12_body_shape, v12_module_shape, v13_body, v13_body_shape, v13_module_shape,
    v14_body, v14_body_shape, v14_pallet_shape,
};
use crate::shape::{case_models, field_models, Case, Field, FieldModel, Shape, ShapeModel};
use crate::node::{find_case, models, Node, NodeModel};
use vstd::prelude::*;
use vstd::std_specs::iter::IteratorSpec;
use vstd::string::StringExecFns;

verus! {

broadcast use vstd::string::group_string_axioms;

/// The digit of `d` in base ten; for ten to fifteen, its letter in base
/// sixteen.
pub open spec fn digit(d: int) -> char {
    if d == 0 {
        '0'
    } else if d == 1 {
        '1'
    } else if d == 2 {
        '2'
    } else if d == 3 {
        '3'
    } else if d == 4 {
        '4'
    } else if d == 5 {
        '5'
    } else if d == 6 {
        '6'
    } else if d == 7 {
        '7'
    } else if d == 8 {
        '8'
    } else if d == 9 {
        '9'
    } else if d == 10 {
        'a'
    } else if d == 11 {
        'b'
    } else if d == 12 {
        'c'
    } else if d == 13 {
        'd'
    } else if d == 14 {
        'e'
    } else {
        'f'
    }
}

/// A number in base ten, without leading zeros.
pub open spec fn decimal(x: nat) -> Seq<char>
    decreases x,
{
    if x < 10 {
        Seq::empty().push(digit(x as int))
    } else {
        decimal(x / 10).push(digit((x % 10) as int))
    }
}

/// How a character stands inside a quoted text: a quote, a backslash and
/// the control characters are escaped, every other character stands for
/// itself.
pub open spec fn escape(c: char) -> Seq<char> {
    if c == '"' {
        Seq::empty().push('\\').push('"')
    } else if c == '\\' {
        Seq::empty().push('\\').push('\\')
    } else if c == '\u{08}' {
        Seq::empty().push('\\').push('b')
    } else if c == '\u{0c}' {
        Seq::empty().push('\\').push('f')
    } else if c == '\n' {
        Seq::empty().push('\\').push('n')
    } else if c == '\r' {
        Seq::empty().push('\\').push('r')
    } else if c == '\t' {
        Seq::empty().push('\\').push('t')
    } else if (c as u32) < 0x20 {
        Seq::empty().push('\\').push('u').push('0').push('0').push(
            digit((c as u32 / 16) as int),
        ).push(digit((c as u32 % 16) as int))
    } else {
        Seq::empty().push(c)
    }
}

/// The first `upto` characters of `t`, each as it stands inside a quoted
/// text.
pub open spec fn escaped(t: Seq<char>, upto: int) -> Seq<char>
    decreases upto,
{
    if upto <= 0 || upto > t.len() {
        Seq::empty()
    } else {
        escaped(t, upto - 1) + escape(t[upto - 1])
    }
}

/// A text between quotes.
pub open spec fn quoted(t: Seq<char>) -> Seq<char> {
    Seq::empty().push('"') + escaped(t, t.len() as int) + Seq::empty().push('"')
}

/// The blanks in front of a line at the nesting depth `depth`: two for each
/// level.
pub open spec fn indent(depth: nat) -> Seq<char> {
    Seq::new(2 * depth, |i: int| ' ')
}

/// What stands between `open` and `close`: nothing, or the lines `inner` and
/// the closing bracket on a line of its own.
pub open spec fn bracketed(open: char, inner: Seq<char>, depth: nat, close: char) -> Seq<char> {
    if inner.len() == 0 {
        Seq::empty().push(open).push(close)
    } else {
        Seq::empty().push(open) + inner + Seq::empty().push('\n') + indent(depth)
            + Seq::empty().push(close)
    }
}

/// What starts an entry of a list or of an object: a line break, behind a
/// comma where the entry is not the first, and the blanks of the depth.
pub open spec fn entry_start(first: bool, depth: nat) -> Seq<char> {
    if first {
        Seq::empty().push('\n') + indent(depth)
    } else {
        Seq::empty().push(',').push('\n') + indent(depth)
    }
}

/// An empty list or an absent option: what an elidable field leaves out.
pub open spec fn is_empty(v: NodeModel) -> bool {
    match v {
        NodeModel::Opt(None) => true,
        NodeModel::List(items) => items.len() == 0,
        _ => false,
    }
}

/// Whether a field with the value `v` is shown.
pub open spec fn shown(field: FieldModel, v: NodeModel) -> bool {
    !(field.elidable && is_empty(v))
}

/// The smaller of two lengths.
pub open spec fn shorter(a: nat, b: nat) -> nat {
    if a <= b {
        a
    } else {
        b
    }
}

/// The text of `v` under the layout `shape`, at the nesting depth `depth`.
///
/// Numbers stand in base ten, texts between quotes, an absent option as
/// `null`, a list between square brackets with one entry on each line, a
/// record between braces with one shown field on each line, in the layout's
/// order, a case without a value as its quoted name, a case with a value as
/// an object of one entry under its name, and a part left encoded as the list
/// of its bytes. A value that has not the layout stands as `null`.
pub open spec fn render_value(shape: ShapeModel, v: NodeModel, depth: nat) -> Seq<char>
    decreases shape, 0nat, 0nat,
{
    match (shape, v) {
        (_, NodeModel::Raw(bytes)) => bracketed(
            '[',
            render_bytes(bytes, depth + 1, bytes.len() as int),
            depth,
            ']',
        ),
        (ShapeModel::Byte, NodeModel::Int(x)) => decimal(x as nat),
        (ShapeModel::Word, NodeModel::Int(x)) => decimal(x as nat),
        (ShapeModel::Compact, NodeModel::Int(x)) => decimal(x as nat),
        (ShapeModel::Bool, NodeModel::Bool(b)) => if b {
            "true"@
        } else {
            "false"@
        },
        (ShapeModel::Text, NodeModel::Text(t)) => quoted(t),
        (ShapeModel::Opt(inner), NodeModel::Opt(Some(w))) => render_value(*inner, *w, depth),
        (ShapeModel::List(inner), NodeModel::List(items)) => bracketed(
            '[',
            render_items(*inner, items, depth + 1, items.len() as int),
            depth,
            ']',
        ),
        (ShapeModel::Record(fields), NodeModel::Record(items)) => bracketed(
            '{',
            render_fields(fields, items, depth + 1, shorter(fields.len(), items.len()) as int),
            depth,
            '}',
        ),
        (ShapeModel::Choice(cases), NodeModel::Variant(tag, payload)) => match find_case(
            cases,
            tag,
            0,
        ) {
            Some(i) => if 0 <= i < cases.len() {
                match (cases[i].payload, payload) {
                    (None, _) => quoted(cases[i].name),
                    (Some(p), Some(w)) => bracketed(
                        '{',
                        entry_start(true, depth + 1) + quoted(cases[i].name) + ": "@ + render_value(
                            p,
                            *w,
                            depth + 1,
                        ),
                        depth,
                        '}',
                    ),
                    (Some(_), None) => "null"@,
                }
            } else {
                "null"@
            },
            None => "null"@,
        },
        _ => "null"@,
    }
}

/// The lines of the first `upto` bytes of `bytes`, as entries of a list.
pub open spec fn render_bytes(bytes: Seq<u8>, depth: nat, upto: int) -> Seq<char>
    decreases upto,
{
    if upto <= 0 || upto > bytes.len() {
        Seq::empty()
    } else {
        render_bytes(bytes, depth, upto - 1) + entry_start(upto == 1, depth) + decimal(
            bytes[upto - 1] as nat,
        )
    }
}

/// The lines of the first `upto` values of `items`, as entries of a list.
pub open spec fn render_items(
    elem: ShapeModel,
    items: Seq<NodeModel>,
    depth: nat,
    upto: int,
) -> Seq<char>
    decreases elem, 1nat, upto,
{
    if upto <= 0 || upto > items.len() {
        Seq::empty()
    } else {
        render_items(elem, items, depth, upto - 1) + entry_start(upto == 1, depth) + render_value(
            elem,
            items[upto - 1],
            depth,
        )
    }
}

/// The lines of those of the first `upto` fields that are shown, as entries
/// of an object.
pub open spec fn render_fields(
    fields: Seq<FieldModel>,
    items: Seq<NodeModel>,
    depth: nat,
    upto: int,
) -> Seq<char>
    decreases fields, 1nat, upto,
{
    if upto <= 0 || upto > fields.len() || upto > items.len() {
        Seq::empty()
    } else if shown(fields[upto - 1], items[upto - 1]) {
        render_fields(fields, items, depth, upto - 1) + entry_start(
            render_fields(fields, items, depth, upto - 1).len() == 0,
            depth,
        ) + quoted(fields[upto - 1].name) + ": "@ + render_value(
            fields[upto - 1].shape,
            items[upto - 1],
            depth,
        )
    } else {
        render_fields(fields, items, depth, upto - 1)
    }
}

/// `String::push` of std: it appends the character to the text.
#[verifier::external_body]
fn push_char(out: &mut String, c: char)
    ensures
        final(out)@ == old(out)@.push(c),
{
    out.push(c);
}

/// Computes [`digit`].
fn digit_char(d: u128) -> (c: char)
    requires
        d < 16,
    ensures
        c == digit(d as int),
{
    if d == 0 {
        '0'
    } else if d == 1 {
        '1'
    } else if d == 2 {
        '2'
    } else if d == 3 {
        '3'
    } else if d == 4 {
        '4'
    } else if d == 5 {
        '5'
    } else if d == 6 {
        '6'
    } else if d == 7 {
        '7'
    } else if d == 8 {
        '8'
    } else if d == 9 {
        '9'
    } else if d == 10 {
        'a'
    } else if d == 11 {
        'b'
    } else if d == 12 {
        'c'
    } else if d == 13 {
        'd'
    } else if d == 14 {
        'e'
    } else {
        'f'
    }
}

/// Appends a number in base ten.
pub fn write_decimal(out: &mut String, x: u128)
    ensures
        final(out)@ == old(out)@ + decimal(x as nat),
    decreases x,
{
    if x < 10 {
        push_char(out, digit_char(x));
        assert(out@ =~= old(out)@ + decimal(x as nat));
    } else {
        write_decimal(out, x / 10);
        push_char(out, digit_char(x % 10));
        assert(out@ =~= old(out)@ + decimal(x as nat));
    }
}

/// Appends a character as it stands inside a quoted text.
fn write_escape(out: &mut String, c: char)
    ensures
        final(out)@ == old(out)@ + escape(c),
{
    if c == '"' {
        push_char(out, '\\');
        push_char(out, '"');
    } else if c == '\\' {
        push_char(out, '\\');
        push_char(out, '\\');
    } else if c == '\u{08}' {
        push_char(out, '\\');
        push_char(out, 'b');
    } else if c == '\u{0c}' {
        push_char(out, '\\');
        push_char(out, 'f');
    } else if c == '\n' {
        push_char(out, '\\');
        push_char(out, 'n');
    } else if c == '\r' {
        push_char(out, '\\');
        push_char(out, 'r');
    } else if c == '\t' {
        push_char(out, '\\');
        push_char(out, 't');
    } else if (c as u32) < 0x20 {
        push_char(out, '\\');
        push_char(out, 'u');
        push_char(out, '0');
        push_char(out, '0');
        push_char(out, digit_char((c as u32 / 16) as u128));
        push_char(out, digit_char((c as u32 % 16) as u128));
    } else {
        push_char(out, c);
    }
    assert(out@ =~= old(out)@ + escape(c));
}

/// Appends a text between quotes.
fn write_quoted(out: &mut String, t: &str)
    ensures
        final(out)@ == old(out)@ + quoted(t@),
{
    push_char(out, '"');
    let mut chars = t.chars();
    let ghost mut i: int = 0;
    loop
        invariant
            0 <= i <= t@.len(),
            chars.remaining() == t@.skip(i),
            out@ == old(out)@.push('"') + escaped(t@, i),
        ensures
            i == t@.len(),
        decreases t@.len() - i,
    {
        let ghost before = chars;
        match chars.next() {
            Some(c) => {
                assert(c == t@[i]);
                write_escape(out, c);
                proof {
                    assert(t@.skip(i).drop_first() =~= t@.skip(i + 1));
                    assert(escaped(t@, i + 1) == escaped(t@, i) + escape(c));
                    assert(out@ =~= old(out)@.push('"') + escaped(t@, i + 1));
                    i = i + 1;
                }
            },
            None => {
                assert(i == t@.len());
                break ;
            },
        }
    }
    push_char(out, '"');
    assert(out@ =~= old(out)@ + quoted(t@));
}

/// Appends the blanks of the current depth.
fn write_pad(out: &mut String, pad: &Vec<char>)
    ensures
        final(out)@ == old(out)@ + pad@,
{
    let mut i: usize = 0;
    while i < pad.len()
        invariant
            i <= pad@.len(),
            out@ == old(out)@ + pad@.take(i as int),
        decreases pad@.len() - i,
    {
        push_char(out, pad[i]);
        assert(out@ =~= old(out)@ + pad@.take(i + 1));
        i += 1;
    }
    assert(pad@.take(pad@.len() as int) =~= pad@);
}

/// Goes one level deeper.
fn deeper(pad: &mut Vec<char>, Ghost(depth): Ghost<nat>)
    requires
        old(pad)@ == indent(depth),
    ensures
        final(pad)@ == indent(depth + 1),
{
    pad.push(' ');
    pad.push(' ');
    assert(pad@ =~= indent(depth + 1));
}

/// Comes one level back.
fn shallower(pad: &mut Vec<char>, Ghost(depth): Ghost<nat>)
    requires
        old(pad)@ == indent(depth + 1),
    ensures
        final(pad)@ == indent(depth),
{
    pad.pop();
    pad.pop();
    assert(pad@ =~= indent(depth));
}

/// Starts an entry of a list or of an object.
fn write_entry_start(out: &mut String, pad: &Vec<char>, first: bool, Ghost(depth): Ghost<nat>)
    requires
        pad@ == indent(depth),
    ensures
        final(out)@ == old(out)@ + entry_start(first, depth),
{
    if !first {
        push_char(out, ',');
    }
    push_char(out, '\n');
    write_pad(out, pad);
    assert(out@ =~= old(out)@ + entry_start(first, depth));
}

/// Closes a list or an object that was opened with `open` and holds the
/// lines `inner`.
fn write_close(
    out: &mut String,
    pad: &Vec<char>,
    close: char,
    empty: bool,
    Ghost(start): Ghost<Seq<char>>,
    Ghost(open): Ghost<char>,
    Ghost(inner): Ghost<Seq<char>>,
    Ghost(depth): Ghost<nat>,
)
    requires
        pad@ == indent(depth),
        old(out)@ == start.push(open) + inner,
        empty == (inner.len() == 0),
    ensures
        final(out)@ == start + bracketed(open, inner, depth, close),
{
    if !empty {
        push_char(out, '\n');
        write_pad(out, pad);
    }
    push_char(out, close);
    assert(out@ =~= start + bracketed(open, inner, depth, close));
}

/// Appends the bytes of a part that was left encoded, as a list.
fn write_bytes(out: &mut String, pad: &mut Vec<char>, bytes: &Vec<u8>, Ghost(depth): Ghost<nat>)
    requires
        old(pad)@ == indent(depth),
    ensures
        final(pad)@ == indent(depth),
        final(out)@ == old(out)@ + bracketed(
            '[',
            render_bytes(bytes@, depth + 1, bytes@.len() as int),
            depth,
            ']',
        ),
{
    push_char(out, '[');
    deeper(pad, Ghost(depth));
    let mut i: usize = 0;
    while i < bytes.len()
        invariant
            i <= bytes@.len(),
            pad@ == indent(depth + 1),
            out@ == old(out)@.push('[') + render_bytes(bytes@, depth + 1, i as int),
            (i == 0) == (render_bytes(bytes@, depth + 1, i as int).len() == 0),
        decreases bytes@.len() - i,
    {
        let ghost before = out@;
        write_entry_start(out, pad, i == 0, Ghost(depth + 1));
        write_decimal(out, bytes[i] as u128);
        assert(out@ =~= old(out)@.push('[') + render_bytes(bytes@, depth + 1, i + 1));
        i += 1;
    }
    shallower(pad, Ghost(depth));
    write_close(
        out,
        pad,
        ']',
        i == 0,
        Ghost(old(out)@),
        Ghost('['),
        Ghost(render_bytes(bytes@, depth + 1, bytes@.len() as int)),
        Ghost(depth),
    );
}

/// Whether `v` is an empty list or an absent option.
fn value_is_empty(v: &Node) -> (r: bool)
    ensures
        r == is_empty(v@),
{
    match v {
        Node::Opt(None) => true,
        Node::Opt(Some(_)) => false,
        Node::List(items) => {
            assert(v@ == NodeModel::List(models(items@)));
            items.len() == 0
        },
        _ => false,
    }
}

/// Appends the values of `items` as a list.
fn write_items(
    out: &mut String,
    pad: &mut Vec<char>,
    elem: &Shape,
    items: &Vec<Node>,
    Ghost(depth): Ghost<nat>,
)
    requires
        old(pad)@ == indent(depth),
    ensures
        final(pad)@ == indent(depth),
        final(out)@ == old(out)@ + bracketed(
            '[',
            render_items(elem@, models(items@), depth + 1, items@.len() as int),
            depth,
            ']',
        ),
    decreases elem, 1nat,
{
    let ghost all = models(items@);
    push_char(out, '[');
    deeper(pad, Ghost(depth));
    let mut i: usize = 0;
    while i < items.len()
        invariant
            i <= items@.len(),
            all == models(items@),
            pad@ == indent(depth + 1),
            out@ == old(out)@.push('[') + render_items(elem@, all, depth + 1, i as int),
            (i == 0) == (render_items(elem@, all, depth + 1, i as int).len() == 0),
        decreases items@.len() - i,
    {
        assert(all[i as int] == items@[i as int]@);
        write_entry_start(out, pad, i == 0, Ghost(depth + 1));
        write_value(out, pad, elem, &items[i], Ghost(depth + 1));
        assert(out@ =~= old(out)@.push('[') + render_items(elem@, all, depth + 1, i + 1));
        i += 1;
    }
    shallower(pad, Ghost(depth));
    write_close(
        out,
        pad,
        ']',
        i == 0,
        Ghost(old(out)@),
        Ghost('['),
        Ghost(render_items(elem@, all, depth + 1, items@.len() as int)),
        Ghost(depth),
    );
}

/// Appends the shown fields of a record as an object.
fn write_fields(
    out: &mut String,
    pad: &mut Vec<char>,
    fields: &Vec<Field>,
    items: &Vec<Node>,
    Ghost(depth): Ghost<nat>,
)
    requires
        old(pad)@ == indent(depth),
    ensures
        final(pad)@ == indent(depth),
        final(out)@ == old(out)@ + bracketed(
            '{',
            render_fields(
                field_models(fields@),
                models(items@),
                depth + 1,
                shorter(fields@.len(), items@.len()) as int,
            ),
            depth,
            '}',
        ),
    decreases fields, 1nat,
{
    let ghost fm = field_models(fields@);
    let ghost all = models(items@);
    let count: usize = if fields.len() <= items.len() {
        fields.len()
    } else {
        items.len()
    };
    push_char(out, '{');
    deeper(pad, Ghost(depth));
    let mut any: bool = false;
    let mut i: usize = 0;
    while i < count
        invariant
            i <= count,
            count == shorter(fields@.len(), items@.len()),
            fm == field_models(fields@),
            all == models(items@),
            pad@ == indent(depth + 1),
            out@ == old(out)@.push('{') + render_fields(fm, all, depth + 1, i as int),
            any == (render_fields(fm, all, depth + 1, i as int).len() > 0),
        decreases count - i,
    {
        assert(all[i as int] == items@[i as int]@);
        assert(fm[i as int] == fields@[i as int]@);
        let hidden = fields[i].elidable && value_is_empty(&items[i]);
        if !hidden {
            write_entry_start(out, pad, !any, Ghost(depth + 1));
            write_quoted(out, fields[i].name);
            out.append(": ");
            write_value(out, pad, &fields[i].shape, &items[i], Ghost(depth + 1));
            any = true;
        }
        assert(out@ =~= old(out)@.push('{') + render_fields(fm, all, depth + 1, i + 1));
        i += 1;
    }
    shallower(pad, Ghost(depth));
    write_close(
        out,
        pad,
        '}',
        !any,
        Ghost(old(out)@),
        Ghost('{'),
        Ghost(render_fields(fm, all, depth + 1, count as int)),
        Ghost(depth),
    );
}

/// Appends `v` under the layout `shape`.
fn write_value(
    out: &mut String,
    pad: &mut Vec<char>,
    shape: &Shape,
    v: &Node,
    Ghost(depth): Ghost<nat>,
)
    requires
        old(pad)@ == indent(depth),
    ensures
        final(pad)@ == indent(depth),
        final(out)@ == old(out)@ + render_value(shape@, v@, depth),
    decreases shape, 0nat,
{
    match (shape, v) {
        (_, Node::Raw(bytes)) => {
            write_bytes(out, pad, bytes, Ghost(depth));
        },
        (Shape::Byte, Node::Int(x)) => {
            write_decimal(out, *x as u128);
        },
        (Shape::Word, Node::Int(x)) => {
            write_decimal(out, *x as u128);
        },
        (Shape::Compact, Node::Int(x)) => {
            write_decimal(out, *x as u128);
        },
        (Shape::Bool, Node::Bool(b)) => {
            if *b {
                out.append("true");
            } else {
                out.append("false");
            }
        },
        (Shape::Text, Node::Text(t)) => {
            write_quoted(out, t.as_str());
        },
        (Shape::Opt(inner), Node::Opt(Some(w))) => {
            write_value(out, pad, inner, w, Ghost(depth));
        },
        (Shape::List(inner), Node::List(items)) => {
            assert(v@ == NodeModel::List(models(items@)));
            write_items(out, pad, inner, items, Ghost(depth));
        },
        (Shape::Record(fields), Node::Record(items)) => {
            assert(v@ == NodeModel::Record(models(items@)));
            write_fields(out, pad, fields, items, Ghost(depth));
        },
        (Shape::Choice(cases), Node::Variant(tag, payload)) => {
            write_variant(out, pad, cases, *tag, payload, Ghost(depth));
            assert(v@ == NodeModel::Variant(
                *tag,
                match payload {
                    Some(w) => Some(Box::new(w.model())),
                    None => None,
                },
            ));
        },
        _ => {
            out.append("null");
        },
    }
}

/// Appends one case of a choice.
fn write_variant(
    out: &mut String,
    pad: &mut Vec<char>,
    cases: &Vec<Case>,
    tag: u8,
    payload: &Option<Box<Node>>,
    Ghost(depth): Ghost<nat>,
)
    requires
        old(pad)@ == indent(depth),
    ensures
        final(pad)@ == indent(depth),
        final(out)@ == old(out)@ + render_value(
            ShapeModel::Choice(case_models(cases@)),
            NodeModel::Variant(
                tag,
                match payload {
                    Some(w) => Some(Box::new(w.model())),
                    None => None,
                },
            ),
            depth,
        ),
    decreases cases, 1nat,
{
    let ghost cm = case_models(cases@);
    match case_position(cases, tag) {
        None => {
            out.append("null");
        },
        Some(i) => {
            assert(cm[i as int] == cases@[i as int]@);
            match (&cases[i].payload, payload) {
                (None, _) => {
                    write_quoted(out, cases[i].name);
                },
                (Some(p), Some(w)) => {
                    push_char(out, '{');
                    deeper(pad, Ghost(depth));
                    write_entry_start(out, pad, true, Ghost(depth + 1));
                    write_quoted(out, cases[i].name);
                    out.append(": ");
                    write_value(out, pad, p, w, Ghost(depth + 1));
                    shallower(pad, Ghost(depth));
                    let ghost inner = entry_start(true, depth + 1) + quoted(cases@[i as int].name@)
                        + ": "@ + render_value(p@, w@, depth + 1);
                    assert(out@ =~= old(out)@.push('{') + inner);
                    write_close(
                        out,
                        pad,
                        '}',
                        false,
                        Ghost(old(out)@),
                        Ghost('{'),
                        Ghost(inner),
                        Ghost(depth),
                    );
                },
                (Some(_), None) => {
                    out.append("null");
                },
            }
        },
    }
}

/// The name under which the body of metadata is shown: the letter V and the
/// version tag.
pub open spec fn version_name(m: MetadataModel) -> Seq<char> {
    Seq::empty().push('V') + decimal(m.tag() as nat)
}

/// The text of the body of metadata: under its version's layout, or `null`
/// where the version is not supported.
pub open spec fn body_text(m: MetadataModel) -> Seq<char> {
    match m {
        MetadataModel::V12(body) => render_value(v12_body(), body, 2),
        MetadataModel::V13(body) => render_value(v13_body(), body, 2),
        MetadataModel::V14(body) => render_value(v14_body(), body, 2),
        MetadataModel::Unsupported(_) => "null"@,
    }
}

/// The text of whole metadata: a list of the magic number and of an object
/// that holds the body under the version's name.
pub open spec fn render_metadata(m: MetadataModel) -> Seq<char> {
    bracketed(
        '[',
        entry_start(true, 1) + decimal(1635018093) + entry_start(false, 1) + bracketed(
            '{',
            entry_start(true, 2) + quoted(version_name(m)) + ": "@ + body_text(m),
            1,
            '}',
        ),
        0,
        ']',
    )
}

/// The text of a query's result.
pub open spec fn render_spec(result: LookupModel) -> Seq<char> {
    match result {
        LookupModel::Full(m) => render_metadata(m),
        LookupModel::Component(c) => render_value(component_layout(c.schema), c.record, 0),
    }
}

/// Appends the name under which the body of metadata is shown, quoted.
fn write_version_name(out: &mut String, tag: u8, Ghost(m): Ghost<MetadataModel>)
    requires
        m.tag() == tag,
    ensures
        final(out)@ == old(out)@ + quoted(version_name(m)),
{
    let mut name = String::new();
    push_char(&mut name, 'V');
    write_decimal(&mut name, tag as u128);
    assert(name@ =~= version_name(m));
    write_quoted(out, name.as_str());
}

/// Appends the text of whole metadata.
fn write_metadata(out: &mut String, pad: &mut Vec<char>, metadata: &VersionedMetadata)
    requires
        old(pad)@ == indent(0),
    ensures
        final(out)@ == old(out)@ + render_metadata(metadata@),
{
    let ghost m = metadata@;
    push_char(out, '[');
    deeper(pad, Ghost(0));
    write_entry_start(out, pad, true, Ghost(1));
    write_decimal(out, 1635018093);
    write_entry_start(out, pad, false, Ghost(1));
    let ghost outer = out@;
    push_char(out, '{');
    deeper(pad, Ghost(1));
    write_entry_start(out, pad, true, Ghost(2));
    match metadata {
        VersionedMetadata::V12(body) => {
            write_version_name(out, 12, Ghost(m));
            out.append(": ");
            write_value(out, pad, &v12_body_shape(), body, Ghost(2));
        },
        VersionedMetadata::V13(body) => {
            write_version_name(out, 13, Ghost(m));
            out.append(": ");
            write_value(out, pad, &v13_body_shape(), body, Ghost(2));
        },
        VersionedMetadata::V14(body) => {
            write_version_name(out, 14, Ghost(m));
            out.append(": ");
            write_value(out, pad, &v14_body_shape(), body, Ghost(2));
        },
        VersionedMetadata::Unsupported(tag) => {
            write_version_name(out, *tag, Ghost(m));
            out.append(": ");
            out.append("null");
        },
    }
    shallower(pad, Ghost(1));
    let ghost inner = entry_start(true, 2) + quoted(version_name(m)) + ": "@ + body_text(m);
    assert(out@ =~= outer.push('{') + inner);
    write_close(out, pad, '}', false, Ghost(outer), Ghost('{'), Ghost(inner), Ghost(1));
    shallower(pad, Ghost(0));
    let ghost lines = entry_start(true, 1) + decimal(1635018093) + entry_start(false, 1)
        + bracketed('{', inner, 1, '}');
    assert(out@ =~= old(out)@.push('[') + lines);
    write_close(out, pad, ']', false, Ghost(old(out)@), Ghost('['), Ghost(lines), Ghost(0));
}

/// Shows a query's result as indented text: whole metadata as a list of the
/// magic number and of the body under its version's name, a component as an
/// object of its fields in the layout's order.
pub fn render(result: LookupResult) -> (text: String)
    ensures
        text@ == render_spec(result@),
{
    let mut out = String::new();
    let mut pad: Vec<char> = Vec::new();
    assert(pad@ =~= indent(0));
    match &result {
        LookupResult::Full(metadata) => {
            write_metadata(&mut out, &mut pad, metadata);
        },
        LookupResult::Component(component) => {
            let layout = match component.schema {
                Schema::V12 => v12_module_shape(),
                Schema::V13 => v13_module_shape(),
                Schema::V14 => v14_pallet_shape(),
            };
            write_value(&mut out, &mut pad, &layout, &component.record, Ghost(0));
        },
    }
    assert(out@ =~= render_spec(result@));
    out
}

} // verus!
