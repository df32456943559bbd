//! Finding a module or pallet by its name.

use crate::metadata::{MetadataModel, VersionedMetadata};
use crate::node::{conforms, models, Node, NodeModel};
use crate::schema::{v12_body, v12_module, v13_body, v13_module, v14_body, v14_pallet};
use crate::shape::ShapeModel;
use vstd::prelude::*;

verus! {

/// A supported metadata version.
#[derive(Clone, Copy, Debug, PartialEq, Eq, Structural)]
pub enum Schema {
    V12,
    V13,
    V14,
}

/// One module or pallet: the record that describes it, and the version
/// whose layout the record has.
#[derive(Debug, PartialEq, Eq)]
pub struct Component {
    /// The version of the metadata that the component was taken from.
    pub schema: Schema,
    /// The component's record. Its first field is the component's name.
    pub record: Node,
}

/// The mathematical model of a [`Component`].
pub struct ComponentModel {
    pub schema: Schema,
    pub record: NodeModel,
}

impl View for Component {
    type V = ComponentModel;

    open spec fn view(&self) -> ComponentModel {
        ComponentModel { schema: self.schema, record: self.record@ }
    }
}

/// What a query gives: all of the metadata, or one component of it.
#[derive(Debug, PartialEq, Eq)]
pub enum LookupResult {
    /// The whole metadata, as it was given.
    Full(VersionedMetadata),
    /// The component that was asked for.
    Component(Component),
}

/// The mathematical model of a [`LookupResult`].
pub enum LookupModel {
    Full(MetadataModel),
    Component(ComponentModel),
}

impl View for LookupResult {
    type V = LookupModel;

    open spec fn view(&self) -> LookupModel {
        match self {
            LookupResult::Full(m) => LookupModel::Full(m@),
            LookupResult::Component(c) => LookupModel::Component(c@),
        }
    }
}

/// Why a query gave no component.
#[derive(Clone, Debug, PartialEq, Eq)]
pub enum LookupError {
    /// No component has the name that was asked for: the name.
    NotFound(String),
    /// The components, or the name of one that had to be looked at, were
    /// left encoded by the producer.
    ComponentsNotDecoded,
    /// The metadata is of a version that this library does not interpret.
    UnsupportedVersion,
}

/// The mathematical model of a [`LookupError`].
pub enum LookupErrorModel {
    NotFound(Seq<char>),
    ComponentsNotDecoded,
    UnsupportedVersion,
}

impl View for LookupError {
    type V = LookupErrorModel;

    open spec fn view(&self) -> LookupErrorModel {
        match self {
            LookupError::NotFound(name) => LookupErrorModel::NotFound(name@),
            LookupError::ComponentsNotDecoded => LookupErrorModel::ComponentsNotDecoded,
            LookupError::UnsupportedVersion => LookupErrorModel::UnsupportedVersion,
        }
    }
}

/// The version of supported metadata.
pub open spec fn schema_of(m: MetadataModel) -> Option<Schema> {
    match m {
        MetadataModel::V12(_) => Some(Schema::V12),
        MetadataModel::V13(_) => Some(Schema::V13),
        MetadataModel::V14(_) => Some(Schema::V14),
        MetadataModel::Unsupported(_) => None,
    }
}

/// The layout of a component of the version `schema`.
pub open spec fn component_layout(schema: Schema) -> ShapeModel {
    match schema {
        Schema::V12 => v12_module(),
        Schema::V13 => v13_module(),
        Schema::V14 => v14_pallet(),
    }
}

impl ComponentModel {
    /// The record is a fully decoded value of the layout of a component of
    /// its version.
    pub open spec fn well_formed(self) -> bool {
        conforms(self.record, component_layout(self.schema))
    }
}

/// The position of the component list among the fields of a body: the
/// modules come first in versions 12 and 13, the pallets second in
/// version 14.
pub open spec fn components_field(schema: Schema) -> int {
    match schema {
        Schema::V12 => 0,
        Schema::V13 => 0,
        Schema::V14 => 1,
    }
}

/// The components of a body, in their stored order, where the body holds
/// them decoded.
pub open spec fn components_of(schema: Schema, body: NodeModel) -> Option<Seq<NodeModel>> {
    match body {
        NodeModel::Record(fields) => if components_field(schema) < fields.len() {
            match fields[components_field(schema)] {
                NodeModel::List(components) => Some(components),
                _ => None,
            }
        } else {
            None
        },
        _ => None,
    }
}

/// The name of a component, where the component holds it decoded.
pub open spec fn name_of(component: NodeModel) -> Option<Seq<char>> {
    match component {
        NodeModel::Record(fields) => if 0 < fields.len() {
            match fields[0] {
                NodeModel::Text(name) => Some(name),
                _ => None,
            }
        } else {
            None
        },
        _ => None,
    }
}

/// The position, from `from` on, of the first component named exactly
/// `name`. The search fails at the first component whose name is not decoded.
pub open spec fn position_of(components: Seq<NodeModel>, name: Seq<char>, from: int) -> Result<
    int,
    LookupErrorModel,
>
    decreases components.len() - from,
{
    if from < 0 || from >= components.len() {
        Err(LookupErrorModel::NotFound(name))
    } else {
        match name_of(components[from]) {
            None => Err(LookupErrorModel::ComponentsNotDecoded),
            Some(found) => if found == name {
                Ok(from)
            } else {
                position_of(components, name, from + 1)
            },
        }
    }
}

/// What a query gives.
pub open spec fn resolve_spec(m: MetadataModel, name: Option<Seq<char>>) -> Result<
    LookupModel,
    LookupErrorModel,
> {
    match name {
        None => Ok(LookupModel::Full(m)),
        Some(name) => match schema_of(m) {
            None => Err(LookupErrorModel::UnsupportedVersion),
            Some(schema) => match components_of(schema, m.body()->Some_0) {
                None => Err(LookupErrorModel::ComponentsNotDecoded),
                Some(components) => match position_of(components, name, 0) {
                    Ok(i) => Ok(
                        LookupModel::Component(ComponentModel { schema, record: components[i] }),
                    ),
                    Err(e) => Err(e),
                },
            },
        },
    }
}

/// `r` is what the query for `name` in `m` gives.
pub open spec fn resolved(
    m: MetadataModel,
    name: Option<Seq<char>>,
    r: Result<LookupResult, LookupError>,
) -> bool {
    match resolve_spec(m, name) {
        Ok(found) => r matches Ok(got) && got@ == found,
        Err(e) => r matches Err(got) && got@ == e,
    }
}

/// The name of `component`, where it holds one decoded.
fn component_name(component: &Node) -> (r: Option<&String>)
    ensures
        match name_of(component@) {
            Some(name) => r matches Some(got) && got@ == name,
            None => r is None,
        },
{
    match component {
        Node::Record(fields) => {
            if fields.len() > 0 {
                let first = &fields[0];
                assert(component@ == NodeModel::Record(models(fields@)));
                assert(models(fields@)[0] == first@);
                match first {
                    Node::Text(name) => {
                        assert(first@ == NodeModel::Text(name@));
                        Some(name)
                    },
                    _ => {
                        assert(!(first@ is Text));
                        None
                    },
                }
            } else {
                assert(component@ == NodeModel::Record(models(fields@)));
                None
            }
        },
        _ => {
            assert(!(component@ is Record));
            None
        },
    }
}

impl Component {
    /// The name of the component, where the record holds it decoded.
    pub fn name(&self) -> (r: Option<&String>)
        ensures
            match name_of(self@.record) {
                Some(name) => r matches Some(got) && got@ == name,
                None => r is None,
            },
    {
        component_name(&self.record)
    }
}

/// The search gives the first component named exactly as asked: no other
/// name matches, and every component before it has a decoded, different name.
/// It reports a name as not found only where every component has a decoded,
/// different name.
pub proof fn lemma_position_of(components: Seq<NodeModel>, name: Seq<char>, from: int)
    requires
        0 <= from,
    ensures
        match position_of(components, name, from) {
            Ok(i) => from <= i < components.len() && name_of(components[i]) == Some(name)
                && forall|j: int|
                from <= j < i ==> name_of(#[trigger] components[j]) is Some && name_of(
                    components[j],
                ) != Some(name),
            Err(LookupErrorModel::NotFound(n)) => n == name && forall|j: int|
                from <= j < components.len() ==> name_of(#[trigger] components[j]) is Some
                    && name_of(components[j]) != Some(name),
            Err(LookupErrorModel::ComponentsNotDecoded) => exists|i: int|
                from <= i < components.len() && name_of(#[trigger] components[i]) is None,
            Err(LookupErrorModel::UnsupportedVersion) => false,
        },
    decreases components.len() - from,
{
    if from < components.len() {
        if name_of(components[from]) matches Some(found) && found != name {
            lemma_position_of(components, name, from + 1);
            match position_of(components, name, from + 1) {
                Ok(i) => {
                    assert forall|j: int| from <= j < i implies name_of(
                        #[trigger] components[j],
                    ) is Some && name_of(components[j]) != Some(name) by {
                        if j > from {
                        }
                    }
                },
                Err(LookupErrorModel::NotFound(n)) => {
                    assert forall|j: int| from <= j < components.len() implies name_of(
                        #[trigger] components[j],
                    ) is Some && name_of(components[j]) != Some(name) by {
                        if j > from {
                        }
                    }
                },
                _ => {},
            }
        }
    }
}

/// Takes the component named exactly `name` out of `components`.
fn take_component(components: Vec<Node>, name: String) -> (r: Result<Node, LookupError>)
    ensures
        match position_of(models(components@), name@, 0) {
            Ok(i) => r matches Ok(got) && 0 <= i < components@.len() && got@ == models(
                components@,
            )[i],
            Err(e) => r matches Err(got) && got@ == e,
        },
{
    let ghost all = models(components@);
    let mut left = components;
    let mut i: usize = 0;
    proof {
        lemma_position_of(all, name@, 0);
    }
    while i < left.len()
        invariant
            i <= left@.len(),
            left@ == components@,
            all == models(components@),
            position_of(all, name@, 0) == position_of(all, name@, i as int),
        decreases left@.len() - i,
    {
        assert(all[i as int] == left@[i as int]@);
        match component_name(&left[i]) {
            None => {
                return Err(LookupError::ComponentsNotDecoded);
            },
            Some(found) => {
                if *found == name {
                    let component = left.remove(i);
                    return Ok(component);
                }
            },
        }
        i += 1;
    }
    Err(LookupError::NotFound(name))
}

/// Takes the component named exactly `name` out of a body of the version
/// `schema`.
fn take_from_body(schema: Schema, body: Node, name: String) -> (r: Result<Component, LookupError>)
    ensures
        match components_of(schema, body@) {
            None => r matches Err(got) && got@ == LookupErrorModel::ComponentsNotDecoded,
            Some(components) => match position_of(components, name@, 0) {
                Ok(i) => r matches Ok(got) && 0 <= i < components.len() && got@ == (
                ComponentModel { schema, record: components[i] }),
                Err(e) => r matches Err(got) && got@ == e,
            },
        },
{
    let at: usize = match schema {
        Schema::V12 => 0,
        Schema::V13 => 0,
        Schema::V14 => 1,
    };
    match body {
        Node::Record(fields) => {
            assert(body@ == NodeModel::Record(models(fields@)));
            let mut left = fields;
            if at < left.len() {
                assert(models(left@)[at as int] == left@[at as int]@);
                let list = left.remove(at);
                match list {
                    Node::List(components) => {
                        assert(list@ == NodeModel::List(models(components@)));
                        match take_component(components, name) {
                            Ok(record) => Ok(Component { schema, record }),
                            Err(e) => Err(e),
                        }
                    },
                    _ => {
                        assert(!(list@ is List));
                        Err(LookupError::ComponentsNotDecoded)
                    },
                }
            } else {
                Err(LookupError::ComponentsNotDecoded)
            }
        },
        _ => {
            assert(!(body@ is Record));
            Err(LookupError::ComponentsNotDecoded)
        },
    }
}

/// Answers a query: without a name, the whole metadata; with a name, the
/// first component, in stored order, whose name is exactly that name.
///
/// Fails with `UnsupportedVersion` where the metadata is of no supported
/// version, with `ComponentsNotDecoded` where the component list, or the name
/// of a component before any match, is not decoded, and with `NotFound` and
/// the name where every component is named otherwise.
pub fn resolve(metadata: VersionedMetadata, name: Option<String>) -> (r: Result<
    LookupResult,
    LookupError,
>)
    ensures
        resolved(
            metadata@,
            match name {
                Some(n) => Some(n@),
                None => None,
            },
            r,
        ),
{
    match name {
        None => Ok(LookupResult::Full(metadata)),
        Some(name) => {
            let found = match metadata {
                VersionedMetadata::V12(body) => take_from_body(Schema::V12, body, name),
                VersionedMetadata::V13(body) => take_from_body(Schema::V13, body, name),
                VersionedMetadata::V14(body) => take_from_body(Schema::V14, body, name),
                VersionedMetadata::Unsupported(_) => Err(LookupError::UnsupportedVersion),
            };
            match found {
                Ok(component) => Ok(LookupResult::Component(component)),
                Err(e) => Err(e),
            }
        },
    }
}

/// A query has one answer: any two results of the same query are the same.
pub proof fn lemma_resolve_deterministic(
    m: MetadataModel,
    name: Option<Seq<char>>,
    r1: Result<LookupResult, LookupError>,
    r2: Result<LookupResult, LookupError>,
)
    requires
        resolved(m, name, r1),
        resolved(m, name, r2),
    ensures
        r1 is Ok <==> r2 is Ok,
        r1 is Ok ==> r1->Ok_0@ == r2->Ok_0@,
        r1 is Err ==> r1->Err_0@ == r2->Err_0@,
{
}

/// A query by name matches exactly: the component that it gives is named
/// `name`, character for character, and is the first such in stored order;
/// and where it reports that the name was not found, no component has it.
pub proof fn lemma_resolve_exact(m: MetadataModel, name: Seq<char>)
    ensures
        match resolve_spec(m, Some(name)) {
            Ok(LookupModel::Component(c)) => {
                let components = components_of(c.schema, m.body()->Some_0)->Some_0;
                &&& schema_of(m) == Some(c.schema)
                &&& name_of(c.record) == Some(name)
                &&& exists|i: int|
                    0 <= i < components.len() && #[trigger] components[i] == c.record
                        && forall|j: int|
                        0 <= j < i ==> name_of(#[trigger] components[j]) != Some(name)
            },
            Ok(LookupModel::Full(_)) => false,
            Err(LookupErrorModel::NotFound(n)) => {
                let components = components_of(schema_of(m)->Some_0, m.body()->Some_0)->Some_0;
                n == name && forall|j: int|
                    0 <= j < components.len() ==> name_of(#[trigger] components[j]) != Some(name)
            },
            Err(_) => true,
        },
{
    if schema_of(m) is Some {
        let listed = components_of(schema_of(m)->Some_0, m.body()->Some_0);
        if listed is Some {
            lemma_position_of(listed->Some_0, name, 0);
        }
    }
}

/// Well-formed metadata holds its components decoded: each is a well-formed
/// component with a name.
pub proof fn lemma_components_decoded(m: MetadataModel)
    requires
        m.well_formed(),
        !(m is Unsupported),
    ensures
        components_of(schema_of(m)->Some_0, m.body()->Some_0) is Some,
        forall|i: int|
            0 <= i < components_of(schema_of(m)->Some_0, m.body()->Some_0)->Some_0.len() ==> {
                let c = #[trigger] components_of(schema_of(m)->Some_0, m.body()->Some_0)->Some_0[i];
                conforms(c, component_layout(schema_of(m)->Some_0)) && name_of(c) is Some
            },
{
    let schema = schema_of(m)->Some_0;
    let body = m.body()->Some_0;
    let at = components_field(schema);
    let fields = body->Record_0;
    match schema {
        Schema::V12 => {
            assert(v12_body()->Record_0[0].shape == crate::schema::list(v12_module()));
            assert(conforms(fields[0], v12_body()->Record_0[0].shape));
        },
        Schema::V13 => {
            assert(v13_body()->Record_0[0].shape == crate::schema::list(v13_module()));
            assert(conforms(fields[0], v13_body()->Record_0[0].shape));
        },
        Schema::V14 => {
            assert(v14_body()->Record_0[1].shape == crate::schema::list(v14_pallet()));
            assert(conforms(fields[1], v14_body()->Record_0[1].shape));
        },
    }
    let components = fields[at]->List_0;
    assert forall|i: int| 0 <= i < components.len() implies {
        let c = #[trigger] components[i];
        conforms(c, component_layout(schema)) && name_of(c) is Some
    } by {
        let c = components[i];
        let layout = component_layout(schema);
        assert(conforms(c, layout));
        assert(layout->Record_0[0].shape == ShapeModel::Text);
        assert(conforms(c->Record_0[0], layout->Record_0[0].shape));
    }
}

/// A query by name in well-formed metadata of a supported version gives a
/// well-formed component or reports that the name was not found: nothing is
/// left encoded there.
pub proof fn lemma_resolve_decoded(m: MetadataModel, name: Seq<char>)
    requires
        m.well_formed(),
        !(m is Unsupported),
    ensures
        match resolve_spec(m, Some(name)) {
            Ok(LookupModel::Component(c)) => c.well_formed(),
            Ok(LookupModel::Full(_)) => false,
            Err(e) => e == LookupErrorModel::NotFound(name),
        },
{
    let components = components_of(schema_of(m)->Some_0, m.body()->Some_0)->Some_0;
    lemma_components_decoded(m);
    lemma_position_of(components, name, 0);
}

} // verus!
