//! Decoded data: a [`Node`] is a tree whose layout a [`Shape`] describes.

use crate::shape::{CaseModel, ShapeModel};
use vstd::prelude::*;
use vstd::utf8::encode_utf8;

verus! {

/// A decoded value.
#[derive(Debug, PartialEq, Eq)]
pub enum Node {
    /// A number: a byte, a 32-bit word or a compact number.
    Int(u32),
    /// A boolean.
    Bool(bool),
    /// Text.
    Text(String),
    /// An optional value.
    Opt(Option<Box<Node>>),
    /// A list of values of one shape.
    List(Vec<Node>),
    /// The values of a record's fields, in the record's order.
    Record(Vec<Node>),
    /// One case of a choice: its index byte and what it carries.
    Variant(u8, Option<Box<Node>>),
    /// A part that its producer left as encoded bytes.
    Raw(Vec<u8>),
}

/// The mathematical model of a [`Node`].
pub enum NodeModel {
    Int(u32),
    Bool(bool),
    Text(Seq<char>),
    Opt(Option<Box<NodeModel>>),
    List(Seq<NodeModel>),
    Record(Seq<NodeModel>),
    Variant(u8, Option<Box<NodeModel>>),
    Raw(Seq<u8>),
}

impl Node {
    /// The model of this value.
    pub open spec fn model(&self) -> NodeModel
        decreases self,
    {
        match self {
            Node::Int(v) => NodeModel::Int(*v),
            Node::Bool(b) => NodeModel::Bool(*b),
            Node::Text(t) => NodeModel::Text(t@),
            Node::Opt(None) => NodeModel::Opt(None),
            Node::Opt(Some(inner)) => NodeModel::Opt(Some(Box::new(inner.model()))),
            Node::List(items) => NodeModel::List(models(items@)),
            Node::Record(items) => NodeModel::Record(models(items@)),
            Node::Variant(index, None) => NodeModel::Variant(*index, None),
            Node::Variant(index, Some(inner)) => NodeModel::Variant(
                *index,
                Some(Box::new(inner.model())),
            ),
            Node::Raw(bytes) => NodeModel::Raw(bytes@),
        }
    }
}

/// The models of a sequence of values.
pub open spec fn models(items: Seq<Node>) -> Seq<NodeModel>
    decreases items,
{
    Seq::new(
        items.len(),
        |i: int|
            if 0 <= i < items.len() {
                items[i].model()
            } else {
                arbitrary()
            },
    )
}

impl View for Node {
    type V = NodeModel;

    open spec fn view(&self) -> NodeModel {
        self.model()
    }
}

/// The position of the first case that `tag` selects.
pub open spec fn find_case(cases: Seq<CaseModel>, tag: u8, from: int) -> Option<int>
    decreases cases.len() - from,
{
    if from < 0 || from >= cases.len() {
        None
    } else if cases[from].index == tag {
        Some(from)
    } else {
        find_case(cases, tag, from + 1)
    }
}

/// `value` is a fully decoded value of the layout `shape`, within the bounds
/// that the wire format can carry.
pub open spec fn conforms(value: NodeModel, shape: ShapeModel) -> bool
    decreases shape,
{
    match shape {
        ShapeModel::Byte => value matches NodeModel::Int(v) && v < 256,
        ShapeModel::Bool => value is Bool,
        ShapeModel::Word => value is Int,
        ShapeModel::Compact => value is Int,
        ShapeModel::Text => value matches NodeModel::Text(t) && encode_utf8(t).len() <= u32::MAX,
        ShapeModel::Opt(inner) => match value {
            NodeModel::Opt(None) => true,
            NodeModel::Opt(Some(v)) => conforms(*v, *inner),
            _ => false,
        },
        ShapeModel::List(inner) => match value {
            NodeModel::List(items) => items.len() <= u32::MAX && forall|i: int|
                0 <= i < items.len() ==> conforms(#[trigger] items[i], *inner),
            _ => false,
        },
        ShapeModel::Record(fields) => match value {
            NodeModel::Record(items) => items.len() == fields.len() && forall|i: int|
                0 <= i < fields.len() ==> conforms(#[trigger] items[i], fields[i].shape),
            _ => false,
        },
        ShapeModel::Choice(cases) => match value {
            NodeModel::Variant(tag, payload) => match find_case(cases, tag, 0) {
                Some(i) => 0 <= i < cases.len() && match cases[i].payload {
                    None => payload is None,
                    Some(p) => payload matches Some(v) && conforms(*v, p),
                },
                None => false,
            },
            _ => false,
        },
    }
}

} // verus!
