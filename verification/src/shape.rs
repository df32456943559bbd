//! Schemas as data: a [`Shape`] says how a value lies on the wire and under
//! which names its parts are shown.

use vstd::prelude::*;

verus! {

/// The layout of one value.
#[derive(Debug)]
pub enum Shape {
    /// One byte, read as a number.
    Byte,
    /// One byte, 0 or 1.
    Bool,
    /// A 32-bit number in four little-endian bytes.
    Word,
    /// A 32-bit number in the compact encoding.
    Compact,
    /// UTF-8 text behind its compact length in bytes.
    Text,
    /// A byte 0, or a byte 1 and a value.
    Opt(Box<Shape>),
    /// Values of one shape behind their compact count.
    List(Box<Shape>),
    /// Named fields, one after another.
    Record(Vec<Field>),
    /// One of several cases, selected by a leading index byte.
    Choice(Vec<Case>),
}

/// One field of a record.
#[derive(Debug)]
pub struct Field {
    /// The name under which the field is shown.
    pub name: &'static str,
    /// The layout of the field's value.
    pub shape: Shape,
    /// Whether the field is left out of a rendering when its value is an
    /// empty list or an absent option.
    pub elidable: bool,
}

/// One case of a choice.
#[derive(Debug)]
pub struct Case {
    /// The index byte that selects the case.
    pub index: u8,
    /// The name under which the case is shown.
    pub name: &'static str,
    /// The layout of what follows the index byte, if anything does.
    pub payload: Option<Shape>,
}

/// The mathematical model of a [`Shape`].
pub enum ShapeModel {
    Byte,
    Bool,
    Word,
    Compact,
    Text,
    Opt(Box<ShapeModel>),
    List(Box<ShapeModel>),
    Record(Seq<FieldModel>),
    Choice(Seq<CaseModel>),
}

/// The mathematical model of a [`Field`].
pub struct FieldModel {
    pub name: Seq<char>,
    pub shape: ShapeModel,
    pub elidable: bool,
}

/// The mathematical model of a [`Case`].
pub struct CaseModel {
    pub index: u8,
    pub name: Seq<char>,
    pub payload: Option<ShapeModel>,
}

impl Shape {
    /// The model of this shape.
    pub open spec fn model(&self) -> ShapeModel
        decreases self,
    {
        match self {
            Shape::Byte => ShapeModel::Byte,
            Shape::Bool => ShapeModel::Bool,
            Shape::Word => ShapeModel::Word,
            Shape::Compact => ShapeModel::Compact,
            Shape::Text => ShapeModel::Text,
            Shape::Opt(inner) => ShapeModel::Opt(Box::new(inner.model())),
            Shape::List(inner) => ShapeModel::List(Box::new(inner.model())),
            Shape::Record(fields) => ShapeModel::Record(field_models(fields@)),
            Shape::Choice(cases) => ShapeModel::Choice(case_models(cases@)),
        }
    }
}

/// The models of a record's fields.
pub open spec fn field_models(fields: Seq<Field>) -> Seq<FieldModel>
    decreases fields,
{
    Seq::new(
        fields.len(),
        |i: int|
            if 0 <= i < fields.len() {
                FieldModel {
                    name: fields[i].name@,
                    shape: fields[i].shape.model(),
                    elidable: fields[i].elidable,
                }
            } else {
                arbitrary()
            },
    )
}

/// The models of a choice's cases.
pub open spec fn case_models(cases: Seq<Case>) -> Seq<CaseModel>
    decreases cases,
{
    Seq::new(
        cases.len(),
        |i: int|
            if 0 <= i < cases.len() {
                CaseModel {
                    index: cases[i].index,
                    name: cases[i].name@,
                    payload: match cases[i].payload {
                        Some(p) => Some(p.model()),
                        None => None,
                    },
                }
            } else {
                arbitrary()
            },
    )
}

impl View for Shape {
    type V = ShapeModel;

    open spec fn view(&self) -> ShapeModel {
        self.model()
    }
}

impl View for Field {
    type V = FieldModel;

    open spec fn view(&self) -> FieldModel {
        FieldModel { name: self.name@, shape: self.shape.model(), elidable: self.elidable }
    }
}

impl View for Case {
    type V = CaseModel;

    open spec fn view(&self) -> CaseModel {
        CaseModel {
            index: self.index,
            name: self.name@,
            payload: match self.payload {
                Some(p) => Some(p.model()),
                None => None,
            },
        }
    }
}

} // verus!
