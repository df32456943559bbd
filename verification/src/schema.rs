//! The layouts of the supported metadata versions.
//!
//! Each layout is given twice: as a spec function, which is what contracts
//! speak of, and as an executable function that builds the same layout for
//! the reader.

use crate::shape::{
    case_models, field_models, Case, CaseModel, Field, FieldModel, Shape, ShapeModel,
};
use vstd::prelude::*;

verus! {

/// A field that is always shown.
pub open spec fn field(name: Seq<char>, shape: ShapeModel) -> FieldModel {
    FieldModel { name, shape, elidable: false }
}

/// A field that is left out of a rendering when it is empty.
pub open spec fn elidable(name: Seq<char>, shape: ShapeModel) -> FieldModel {
    FieldModel { name, shape, elidable: true }
}

/// A case that carries nothing.
pub open spec fn unit(index: u8, name: Seq<char>) -> CaseModel {
    CaseModel { index, name, payload: None }
}

/// A case that carries a value.
pub open spec fn case(index: u8, name: Seq<char>, payload: ShapeModel) -> CaseModel {
    CaseModel { index, name, payload: Some(payload) }
}

/// A list of values of the layout `elem`.
pub open spec fn list(elem: ShapeModel) -> ShapeModel {
    ShapeModel::List(Box::new(elem))
}

/// An optional value of the layout `inner`.
pub open spec fn opt(inner: ShapeModel) -> ShapeModel {
    ShapeModel::Opt(Box::new(inner))
}

/// No fields yet.
fn no_fields() -> (r: Vec<Field>)
    ensures
        field_models(r@) == Seq::<FieldModel>::empty(),
{
    let r: Vec<Field> = Vec::new();
    assert(field_models(r@) =~= Seq::<FieldModel>::empty());
    r
}

/// Adds a field that is always shown.
fn add_field(fields: &mut Vec<Field>, name: &'static str, shape: Shape)
    ensures
        field_models(final(fields)@) == field_models(old(fields)@).push(field(name@, shape@)),
{
    let ghost before = fields@;
    let ghost added = field(name@, shape@);
    fields.push(Field { name, shape, elidable: false });
    assert(field_models(fields@) =~= field_models(before).push(added));
}

/// Adds a field that is left out of a rendering when it is empty.
fn add_elidable(fields: &mut Vec<Field>, name: &'static str, shape: Shape)
    ensures
        field_models(final(fields)@) == field_models(old(fields)@).push(elidable(name@, shape@)),
{
    let ghost before = fields@;
    let ghost added = elidable(name@, shape@);
    fields.push(Field { name, shape, elidable: true });
    assert(field_models(fields@) =~= field_models(before).push(added));
}

/// No cases yet.
fn no_cases() -> (r: Vec<Case>)
    ensures
        case_models(r@) == Seq::<CaseModel>::empty(),
{
    let r: Vec<Case> = Vec::new();
    assert(case_models(r@) =~= Seq::<CaseModel>::empty());
    r
}

/// Adds a case that carries nothing.
fn add_unit(cases: &mut Vec<Case>, index: u8, name: &'static str)
    ensures
        case_models(final(cases)@) == case_models(old(cases)@).push(unit(index, name@)),
{
    let ghost before = cases@;
    cases.push(Case { index, name, payload: None });
    assert(case_models(cases@) =~= case_models(before).push(unit(index, name@)));
}

/// Adds a case that carries a value.
fn add_case(cases: &mut Vec<Case>, index: u8, name: &'static str, payload: Shape)
    ensures
        case_models(final(cases)@) == case_models(old(cases)@).push(case(index, name@, payload@)),
{
    let ghost before = cases@;
    let ghost added = case(index, name@, payload@);
    cases.push(Case { index, name, payload: Some(payload) });
    assert(case_models(cases@) =~= case_models(before).push(added));
}

/// A list of values of the layout `elem`.
fn list_of(elem: Shape) -> (r: Shape)
    ensures
        r@ == list(elem@),
{
    Shape::List(Box::new(elem))
}

/// An optional value of the layout `inner`.
fn opt_of(inner: Shape) -> (r: Shape)
    ensures
        r@ == opt(inner@),
{
    Shape::Opt(Box::new(inner))
}

/// The hash function of a storage map.
pub open spec fn hasher() -> ShapeModel {
    ShapeModel::Choice(
        Seq::empty().push(unit(0, "Blake2_128"@)).push(unit(1, "Blake2_256"@)).push(
            unit(2, "Blake2_128Concat"@),
        ).push(unit(3, "Twox128"@)).push(unit(4, "Twox256"@)).push(unit(5, "Twox64Concat"@)).push(
            unit(6, "Identity"@),
        ),
    )
}

/// Builds [`hasher`].
pub fn hasher_shape() -> (r: Shape)
    ensures
        r@ == hasher(),
{
    let mut c = no_cases();
    add_unit(&mut c, 0, "Blake2_128");
    add_unit(&mut c, 1, "Blake2_256");
    add_unit(&mut c, 2, "Blake2_128Concat");
    add_unit(&mut c, 3, "Twox128");
    add_unit(&mut c, 4, "Twox256");
    add_unit(&mut c, 5, "Twox64Concat");
    add_unit(&mut c, 6, "Identity");
    Shape::Choice(c)
}

/// Whether a storage entry that is absent reads as nothing or as its default.
pub open spec fn modifier() -> ShapeModel {
    ShapeModel::Choice(
        Seq::empty()
            .push(unit(0, "Optional"@))
            .push(unit(1, "Default"@)),
    )
}

/// Builds [`modifier`].
pub fn modifier_shape() -> (r: Shape)
    ensures
        r@ == modifier(),
{
    let mut c = no_cases();
    add_unit(&mut c, 0, "Optional");
    add_unit(&mut c, 1, "Default");
    Shape::Choice(c)
}

/// One argument of a call: its name and the name of its type.
pub open spec fn legacy_argument() -> ShapeModel {
    ShapeModel::Record(
        Seq::empty()
            .push(field("name"@, ShapeModel::Text))
            .push(field("ty"@, ShapeModel::Text)),
    )
}

/// Builds [`legacy_argument`].
pub fn legacy_argument_shape() -> (r: Shape)
    ensures
        r@ == legacy_argument(),
{
    let mut f = no_fields();
    add_field(&mut f, "name", Shape::Text);
    add_field(&mut f, "ty", Shape::Text);
    Shape::Record(f)
}

/// One call of a module.
pub open spec fn legacy_call() -> ShapeModel {
    ShapeModel::Record(
        Seq::empty()
            .push(field("name"@, ShapeModel::Text))
            .push(field("arguments"@, list(legacy_argument())))
            .push(field("documentation"@, list(ShapeModel::Text))),
    )
}

/// Builds [`legacy_call`].
pub fn legacy_call_shape() -> (r: Shape)
    ensures
        r@ == legacy_call(),
{
    let mut f = no_fields();
    add_field(&mut f, "name", Shape::Text);
    add_field(&mut f, "arguments", list_of(legacy_argument_shape()));
    add_field(&mut f, "documentation", list_of(Shape::Text));
    Shape::Record(f)
}

/// One event of a module.
pub open spec fn legacy_event() -> ShapeModel {
    ShapeModel::Record(
        Seq::empty()
            .push(field("name"@, ShapeModel::Text))
            .push(field("arguments"@, list(ShapeModel::Text)))
            .push(field("documentation"@, list(ShapeModel::Text))),
    )
}

/// Builds [`legacy_event`].
pub fn legacy_event_shape() -> (r: Shape)
    ensures
        r@ == legacy_event(),
{
    let mut f = no_fields();
    add_field(&mut f, "name", Shape::Text);
    add_field(&mut f, "arguments", list_of(Shape::Text));
    add_field(&mut f, "documentation", list_of(Shape::Text));
    Shape::Record(f)
}

/// A storage map with one key.
pub open spec fn legacy_map() -> ShapeModel {
    ShapeModel::Record(
        Seq::empty()
            .push(field("hasher"@, hasher()))
            .push(field("key"@, ShapeModel::Text))
            .push(field("value"@, ShapeModel::Text))
            .push(field("unused"@, ShapeModel::Bool)),
    )
}

/// Builds [`legacy_map`].
pub fn legacy_map_shape() -> (r: Shape)
    ensures
        r@ == legacy_map(),
{
    let mut f = no_fields();
    add_field(&mut f, "hasher", hasher_shape());
    add_field(&mut f, "key", Shape::Text);
    add_field(&mut f, "value", Shape::Text);
    add_field(&mut f, "unused", Shape::Bool);
    Shape::Record(f)
}

/// A storage map with two keys.
pub open spec fn legacy_double_map() -> ShapeModel {
    ShapeModel::Record(
        Seq::empty()
            .push(field("hasher"@, hasher()))
            .push(field("key1"@, ShapeModel::Text))
            .push(field("key2"@, ShapeModel::Text))
            .push(field("value"@, ShapeModel::Text))
            .push(field("key2_hasher"@, hasher())),
    )
}

/// Builds [`legacy_double_map`].
pub fn legacy_double_map_shape() -> (r: Shape)
    ensures
        r@ == legacy_double_map(),
{
    let mut f = no_fields();
    add_field(&mut f, "hasher", hasher_shape());
    add_field(&mut f, "key1", Shape::Text);
    add_field(&mut f, "key2", Shape::Text);
    add_field(&mut f, "value", Shape::Text);
    add_field(&mut f, "key2_hasher", hasher_shape());
    Shape::Record(f)
}

/// A storage map with any number of keys.
pub open spec fn legacy_n_map() -> ShapeModel {
    ShapeModel::Record(
        Seq::empty()
            .push(field("keys"@, list(ShapeModel::Text)))
            .push(field("hashers"@, list(hasher())))
            .push(field("value"@, ShapeModel::Text)),
    )
}

/// Builds [`legacy_n_map`].
pub fn legacy_n_map_shape() -> (r: Shape)
    ensures
        r@ == legacy_n_map(),
{
    let mut f = no_fields();
    add_field(&mut f, "keys", list_of(Shape::Text));
    add_field(&mut f, "hashers", list_of(hasher_shape()));
    add_field(&mut f, "value", Shape::Text);
    Shape::Record(f)
}

/// The kind of a storage entry in version 12.
pub open spec fn v12_entry_type() -> ShapeModel {
    ShapeModel::Choice(
        Seq::empty()
            .push(case(0, "Plain"@, ShapeModel::Text))
            .push(case(1, "Map"@, legacy_map()))
            .push(case(2, "DoubleMap"@, legacy_double_map())),
    )
}

/// Builds [`v12_entry_type`].
pub fn v12_entry_type_shape() -> (r: Shape)
    ensures
        r@ == v12_entry_type(),
{
    let mut c = no_cases();
    add_case(&mut c, 0, "Plain", Shape::Text);
    add_case(&mut c, 1, "Map", legacy_map_shape());
    add_case(&mut c, 2, "DoubleMap", legacy_double_map_shape());
    Shape::Choice(c)
}

/// The kind of a storage entry in version 13, which adds maps with any number of keys.
pub open spec fn v13_entry_type() -> ShapeModel {
    ShapeModel::Choice(
        Seq::empty()
            .push(case(0, "Plain"@, ShapeModel::Text))
            .push(case(1, "Map"@, legacy_map()))
            .push(case(2, "DoubleMap"@, legacy_double_map()))
            .push(case(3, "NMap"@, legacy_n_map())),
    )
}

/// Builds [`v13_entry_type`].
pub fn v13_entry_type_shape() -> (r: Shape)
    ensures
        r@ == v13_entry_type(),
{
    let mut c = no_cases();
    add_case(&mut c, 0, "Plain", Shape::Text);
    add_case(&mut c, 1, "Map", legacy_map_shape());
    add_case(&mut c, 2, "DoubleMap", legacy_double_map_shape());
    add_case(&mut c, 3, "NMap", legacy_n_map_shape());
    Shape::Choice(c)
}

/// One storage entry of a module in version 12.
pub open spec fn v12_entry() -> ShapeModel {
    ShapeModel::Record(
        Seq::empty()
            .push(field("name"@, ShapeModel::Text))
            .push(field("modifier"@, modifier()))
            .push(field("ty"@, v12_entry_type()))
            .push(field("default"@, list(ShapeModel::Byte)))
            .push(field("documentation"@, list(ShapeModel::Text))),
    )
}

/// Builds [`v12_entry`].
pub fn v12_entry_shape() -> (r: Shape)
    ensures
        r@ == v12_entry(),
{
    let mut f = no_fields();
    add_field(&mut f, "name", Shape::Text);
    add_field(&mut f, "modifier", modifier_shape());
    add_field(&mut f, "ty", v12_entry_type_shape());
    add_field(&mut f, "default", list_of(Shape::Byte));
    add_field(&mut f, "documentation", list_of(Shape::Text));
    Shape::Record(f)
}

/// The storage of a module in version 12.
pub open spec fn v12_storage() -> ShapeModel {
    ShapeModel::Record(
        Seq::empty()
            .push(field("prefix"@, ShapeModel::Text))
            .push(field("entries"@, list(v12_entry()))),
    )
}

/// Builds [`v12_storage`].
pub fn v12_storage_shape() -> (r: Shape)
    ensures
        r@ == v12_storage(),
{
    let mut f = no_fields();
    add_field(&mut f, "prefix", Shape::Text);
    add_field(&mut f, "entries", list_of(v12_entry_shape()));
    Shape::Record(f)
}

/// One storage entry of a module in version 13.
pub open spec fn v13_entry() -> ShapeModel {
    ShapeModel::Record(
        Seq::empty()
            .push(field("name"@, ShapeModel::Text))
            .push(field("modifier"@, modifier()))
            .push(field("ty"@, v13_entry_type()))
            .push(field("default"@, list(ShapeModel::Byte)))
            .push(field("documentation"@, list(ShapeModel::Text))),
    )
}

/// Builds [`v13_entry`].
pub fn v13_entry_shape() -> (r: Shape)
    ensures
        r@ == v13_entry(),
{
    let mut f = no_fields();
    add_field(&mut f, "name", Shape::Text);
    add_field(&mut f, "modifier", modifier_shape());
    add_field(&mut f, "ty", v13_entry_type_shape());
    add_field(&mut f, "default", list_of(Shape::Byte));
    add_field(&mut f, "documentation", list_of(Shape::Text));
    Shape::Record(f)
}

/// The storage of a module in version 13.
pub open spec fn v13_storage() -> ShapeModel {
    ShapeModel::Record(
        Seq::empty()
            .push(field("prefix"@, ShapeModel::Text))
            .push(field("entries"@, list(v13_entry()))),
    )
}

/// Builds [`v13_storage`].
pub fn v13_storage_shape() -> (r: Shape)
    ensures
        r@ == v13_storage(),
{
    let mut f = no_fields();
    add_field(&mut f, "prefix", Shape::Text);
    add_field(&mut f, "entries", list_of(v13_entry_shape()));
    Shape::Record(f)
}

/// One constant of a module.
pub open spec fn legacy_constant() -> ShapeModel {
    ShapeModel::Record(
        Seq::empty()
            .push(field("name"@, ShapeModel::Text))
            .push(field("ty"@, ShapeModel::Text))
            .push(field("value"@, list(ShapeModel::Byte)))
            .push(field("documentation"@, list(ShapeModel::Text))),
    )
}

/// Builds [`legacy_constant`].
pub fn legacy_constant_shape() -> (r: Shape)
    ensures
        r@ == legacy_constant(),
{
    let mut f = no_fields();
    add_field(&mut f, "name", Shape::Text);
    add_field(&mut f, "ty", Shape::Text);
    add_field(&mut f, "value", list_of(Shape::Byte));
    add_field(&mut f, "documentation", list_of(Shape::Text));
    Shape::Record(f)
}

/// One error of a module.
pub open spec fn legacy_error() -> ShapeModel {
    ShapeModel::Record(
        Seq::empty()
            .push(field("name"@, ShapeModel::Text))
            .push(field("documentation"@, list(ShapeModel::Text))),
    )
}

/// Builds [`legacy_error`].
pub fn legacy_error_shape() -> (r: Shape)
    ensures
        r@ == legacy_error(),
{
    let mut f = no_fields();
    add_field(&mut f, "name", Shape::Text);
    add_field(&mut f, "documentation", list_of(Shape::Text));
    Shape::Record(f)
}

/// A module in version 12. Its name is its first field.
pub open spec fn v12_module() -> ShapeModel {
    ShapeModel::Record(
        Seq::empty()
            .push(field("name"@, ShapeModel::Text))
            .push(field("storage"@, opt(v12_storage())))
            .push(field("calls"@, opt(list(legacy_call()))))
            .push(field("event"@, opt(list(legacy_event()))))
            .push(field("constants"@, list(legacy_constant())))
            .push(field("errors"@, list(legacy_error())))
            .push(field("index"@, ShapeModel::Byte)),
    )
}

/// Builds [`v12_module`].
pub fn v12_module_shape() -> (r: Shape)
    ensures
        r@ == v12_module(),
{
    let mut f = no_fields();
    add_field(&mut f, "name", Shape::Text);
    add_field(&mut f, "storage", opt_of(v12_storage_shape()));
    add_field(&mut f, "calls", opt_of(list_of(legacy_call_shape())));
    add_field(&mut f, "event", opt_of(list_of(legacy_event_shape())));
    add_field(&mut f, "constants", list_of(legacy_constant_shape()));
    add_field(&mut f, "errors", list_of(legacy_error_shape()));
    add_field(&mut f, "index", Shape::Byte);
    Shape::Record(f)
}

/// A module in version 13. Its name is its first field.
pub open spec fn v13_module() -> ShapeModel {
    ShapeModel::Record(
        Seq::empty()
            .push(field("name"@, ShapeModel::Text))
            .push(field("storage"@, opt(v13_storage())))
            .push(field("calls"@, opt(list(legacy_call()))))
            .push(field("event"@, opt(list(legacy_event()))))
            .push(field("constants"@, list(legacy_constant())))
            .push(field("errors"@, list(legacy_error())))
            .push(field("index"@, ShapeModel::Byte)),
    )
}

/// Builds [`v13_module`].
pub fn v13_module_shape() -> (r: Shape)
    ensures
        r@ == v13_module(),
{
    let mut f = no_fields();
    add_field(&mut f, "name", Shape::Text);
    add_field(&mut f, "storage", opt_of(v13_storage_shape()));
    add_field(&mut f, "calls", opt_of(list_of(legacy_call_shape())));
    add_field(&mut f, "event", opt_of(list_of(legacy_event_shape())));
    add_field(&mut f, "constants", list_of(legacy_constant_shape()));
    add_field(&mut f, "errors", list_of(legacy_error_shape()));
    add_field(&mut f, "index", Shape::Byte);
    Shape::Record(f)
}

/// The extrinsic format of a runtime of version 12 or 13.
pub open spec fn legacy_extrinsic() -> ShapeModel {
    ShapeModel::Record(
        Seq::empty()
            .push(field("version"@, ShapeModel::Byte))
            .push(field("signed_extensions"@, list(ShapeModel::Text))),
    )
}

/// Builds [`legacy_extrinsic`].
pub fn legacy_extrinsic_shape() -> (r: Shape)
    ensures
        r@ == legacy_extrinsic(),
{
    let mut f = no_fields();
    add_field(&mut f, "version", Shape::Byte);
    add_field(&mut f, "signed_extensions", list_of(Shape::Text));
    Shape::Record(f)
}

/// What follows the version tag in version 12. The modules are its first field.
pub open spec fn v12_body() -> ShapeModel {
    ShapeModel::Record(
        Seq::empty()
            .push(field("modules"@, list(v12_module())))
            .push(field("extrinsic"@, legacy_extrinsic())),
    )
}

/// Builds [`v12_body`].
pub fn v12_body_shape() -> (r: Shape)
    ensures
        r@ == v12_body(),
{
    let mut f = no_fields();
    add_field(&mut f, "modules", list_of(v12_module_shape()));
    add_field(&mut f, "extrinsic", legacy_extrinsic_shape());
    Shape::Record(f)
}

/// What follows the version tag in version 13. The modules are its first field.
pub open spec fn v13_body() -> ShapeModel {
    ShapeModel::Record(
        Seq::empty()
            .push(field("modules"@, list(v13_module())))
            .push(field("extrinsic"@, legacy_extrinsic())),
    )
}

/// Builds [`v13_body`].
pub fn v13_body_shape() -> (r: Shape)
    ensures
        r@ == v13_body(),
{
    let mut f = no_fields();
    add_field(&mut f, "modules", list_of(v13_module_shape()));
    add_field(&mut f, "extrinsic", legacy_extrinsic_shape());
    Shape::Record(f)
}

/// A primitive type of the type registry.
pub open spec fn primitive() -> ShapeModel {
    ShapeModel::Choice(
        Seq::empty()
            .push(unit(0, "bool"@))
            .push(unit(1, "char"@))
            .push(unit(2, "str"@))
            .push(unit(3, "u8"@))
            .push(unit(4, "u16"@))
            .push(unit(5, "u32"@))
            .push(unit(6, "u64"@))
            .push(unit(7, "u128"@))
            .push(unit(8, "u256"@))
            .push(unit(9, "i8"@))
            .push(unit(10, "i16"@))
            .push(unit(11, "i32"@))
            .push(unit(12, "i64"@))
            .push(unit(13, "i128"@))
            .push(unit(14, "i256"@)),
    )
}

/// Builds [`primitive`].
pub fn primitive_shape() -> (r: Shape)
    ensures
        r@ == primitive(),
{
    let mut c = no_cases();
    add_unit(&mut c, 0, "bool");
    add_unit(&mut c, 1, "char");
    add_unit(&mut c, 2, "str");
    add_unit(&mut c, 3, "u8");
    add_unit(&mut c, 4, "u16");
    add_unit(&mut c, 5, "u32");
    add_unit(&mut c, 6, "u64");
    add_unit(&mut c, 7, "u128");
    add_unit(&mut c, 8, "u256");
    add_unit(&mut c, 9, "i8");
    add_unit(&mut c, 10, "i16");
    add_unit(&mut c, 11, "i32");
    add_unit(&mut c, 12, "i64");
    add_unit(&mut c, 13, "i128");
    add_unit(&mut c, 14, "i256");
    Shape::Choice(c)
}

/// One field of a composite type or of a variant.
pub open spec fn type_field() -> ShapeModel {
    ShapeModel::Record(
        Seq::empty()
            .push(elidable("name"@, opt(ShapeModel::Text)))
            .push(field("type"@, ShapeModel::Compact))
            .push(elidable("typeName"@, opt(ShapeModel::Text)))
            .push(elidable("docs"@, list(ShapeModel::Text))),
    )
}

/// Builds [`type_field`].
pub fn type_field_shape() -> (r: Shape)
    ensures
        r@ == type_field(),
{
    let mut f = no_fields();
    add_elidable(&mut f, "name", opt_of(Shape::Text));
    add_field(&mut f, "type", Shape::Compact);
    add_elidable(&mut f, "typeName", opt_of(Shape::Text));
    add_elidable(&mut f, "docs", list_of(Shape::Text));
    Shape::Record(f)
}

/// One variant of a variant type.
pub open spec fn type_variant() -> ShapeModel {
    ShapeModel::Record(
        Seq::empty()
            .push(field("name"@, ShapeModel::Text))
            .push(elidable("fields"@, list(type_field())))
            .push(field("index"@, ShapeModel::Byte))
            .push(elidable("docs"@, list(ShapeModel::Text))),
    )
}

/// Builds [`type_variant`].
pub fn type_variant_shape() -> (r: Shape)
    ensures
        r@ == type_variant(),
{
    let mut f = no_fields();
    add_field(&mut f, "name", Shape::Text);
    add_elidable(&mut f, "fields", list_of(type_field_shape()));
    add_field(&mut f, "index", Shape::Byte);
    add_elidable(&mut f, "docs", list_of(Shape::Text));
    Shape::Record(f)
}

/// A type made of fields.
pub open spec fn composite() -> ShapeModel {
    ShapeModel::Record(
        Seq::empty()
            .push(elidable("fields"@, list(type_field()))),
    )
}

/// Builds [`composite`].
pub fn composite_shape() -> (r: Shape)
    ensures
        r@ == composite(),
{
    let mut f = no_fields();
    add_elidable(&mut f, "fields", list_of(type_field_shape()));
    Shape::Record(f)
}

/// A type made of variants.
pub open spec fn variants() -> ShapeModel {
    ShapeModel::Record(
        Seq::empty()
            .push(elidable("variants"@, list(type_variant()))),
    )
}

/// Builds [`variants`].
pub fn variants_shape() -> (r: Shape)
    ensures
        r@ == variants(),
{
    let mut f = no_fields();
    add_elidable(&mut f, "variants", list_of(type_variant_shape()));
    Shape::Record(f)
}

/// A sequence type: the type of its elements.
pub open spec fn sequence() -> ShapeModel {
    ShapeModel::Record(
        Seq::empty()
            .push(field("type"@, ShapeModel::Compact)),
    )
}

/// Builds [`sequence`].
pub fn sequence_shape() -> (r: Shape)
    ensures
        r@ == sequence(),
{
    let mut f = no_fields();
    add_field(&mut f, "type", Shape::Compact);
    Shape::Record(f)
}

/// An array type: its length and the type of its elements.
pub open spec fn array() -> ShapeModel {
    ShapeModel::Record(
        Seq::empty()
            .push(field("len"@, ShapeModel::Word))
            .push(field("type"@, ShapeModel::Compact)),
    )
}

/// Builds [`array`].
pub fn array_shape() -> (r: Shape)
    ensures
        r@ == array(),
{
    let mut f = no_fields();
    add_field(&mut f, "len", Shape::Word);
    add_field(&mut f, "type", Shape::Compact);
    Shape::Record(f)
}

/// A compact type: the type that it encodes.
pub open spec fn compact_type() -> ShapeModel {
    ShapeModel::Record(
        Seq::empty()
            .push(field("type"@, ShapeModel::Compact)),
    )
}

/// Builds [`compact_type`].
pub fn compact_type_shape() -> (r: Shape)
    ensures
        r@ == compact_type(),
{
    let mut f = no_fields();
    add_field(&mut f, "type", Shape::Compact);
    Shape::Record(f)
}

/// A bit sequence type: the types of its store and of its order.
pub open spec fn bit_sequence() -> ShapeModel {
    ShapeModel::Record(
        Seq::empty()
            .push(field("bit_store_type"@, ShapeModel::Compact))
            .push(field("bit_order_type"@, ShapeModel::Compact)),
    )
}

/// Builds [`bit_sequence`].
pub fn bit_sequence_shape() -> (r: Shape)
    ensures
        r@ == bit_sequence(),
{
    let mut f = no_fields();
    add_field(&mut f, "bit_store_type", Shape::Compact);
    add_field(&mut f, "bit_order_type", Shape::Compact);
    Shape::Record(f)
}

/// The definition of a type of the registry.
pub open spec fn type_def() -> ShapeModel {
    ShapeModel::Choice(
        Seq::empty()
            .push(case(0, "composite"@, composite()))
            .push(case(1, "variant"@, variants()))
            .push(case(2, "sequence"@, sequence()))
            .push(case(3, "array"@, array()))
            .push(case(4, "tuple"@, list(ShapeModel::Compact)))
            .push(case(5, "primitive"@, primitive()))
            .push(case(6, "compact"@, compact_type()))
            .push(case(7, "bitsequence"@, bit_sequence())),
    )
}

/// Builds [`type_def`].
pub fn type_def_shape() -> (r: Shape)
    ensures
        r@ == type_def(),
{
    let mut c = no_cases();
    add_case(&mut c, 0, "composite", composite_shape());
    add_case(&mut c, 1, "variant", variants_shape());
    add_case(&mut c, 2, "sequence", sequence_shape());
    add_case(&mut c, 3, "array", array_shape());
    add_case(&mut c, 4, "tuple", list_of(Shape::Compact));
    add_case(&mut c, 5, "primitive", primitive_shape());
    add_case(&mut c, 6, "compact", compact_type_shape());
    add_case(&mut c, 7, "bitsequence", bit_sequence_shape());
    Shape::Choice(c)
}

/// One generic parameter of a type.
pub open spec fn type_parameter() -> ShapeModel {
    ShapeModel::Record(
        Seq::empty()
            .push(field("name"@, ShapeModel::Text))
            .push(field("type"@, opt(ShapeModel::Compact))),
    )
}

/// Builds [`type_parameter`].
pub fn type_parameter_shape() -> (r: Shape)
    ensures
        r@ == type_parameter(),
{
    let mut f = no_fields();
    add_field(&mut f, "name", Shape::Text);
    add_field(&mut f, "type", opt_of(Shape::Compact));
    Shape::Record(f)
}

/// A type of the registry.
pub open spec fn type_info() -> ShapeModel {
    ShapeModel::Record(
        Seq::empty()
            .push(elidable("path"@, list(ShapeModel::Text)))
            .push(elidable("params"@, list(type_parameter())))
            .push(field("def"@, type_def()))
            .push(elidable("docs"@, list(ShapeModel::Text))),
    )
}

/// Builds [`type_info`].
pub fn type_info_shape() -> (r: Shape)
    ensures
        r@ == type_info(),
{
    let mut f = no_fields();
    add_elidable(&mut f, "path", list_of(Shape::Text));
    add_elidable(&mut f, "params", list_of(type_parameter_shape()));
    add_field(&mut f, "def", type_def_shape());
    add_elidable(&mut f, "docs", list_of(Shape::Text));
    Shape::Record(f)
}

/// A type of the registry under its number.
pub open spec fn registered_type() -> ShapeModel {
    ShapeModel::Record(
        Seq::empty()
            .push(field("id"@, ShapeModel::Compact))
            .push(field("type"@, type_info())),
    )
}

/// Builds [`registered_type`].
pub fn registered_type_shape() -> (r: Shape)
    ensures
        r@ == registered_type(),
{
    let mut f = no_fields();
    add_field(&mut f, "id", Shape::Compact);
    add_field(&mut f, "type", type_info_shape());
    Shape::Record(f)
}

/// The type registry.
pub open spec fn registry() -> ShapeModel {
    ShapeModel::Record(
        Seq::empty()
            .push(field("types"@, list(registered_type()))),
    )
}

/// Builds [`registry`].
pub fn registry_shape() -> (r: Shape)
    ensures
        r@ == registry(),
{
    let mut f = no_fields();
    add_field(&mut f, "types", list_of(registered_type_shape()));
    Shape::Record(f)
}

/// A storage map in version 14.
pub open spec fn v14_map() -> ShapeModel {
    ShapeModel::Record(
        Seq::empty()
            .push(field("hashers"@, list(hasher())))
            .push(field("key"@, ShapeModel::Compact))
            .push(field("value"@, ShapeModel::Compact)),
    )
}

/// Builds [`v14_map`].
pub fn v14_map_shape() -> (r: Shape)
    ensures
        r@ == v14_map(),
{
    let mut f = no_fields();
    add_field(&mut f, "hashers", list_of(hasher_shape()));
    add_field(&mut f, "key", Shape::Compact);
    add_field(&mut f, "value", Shape::Compact);
    Shape::Record(f)
}

/// The kind of a storage entry in version 14.
pub open spec fn v14_entry_type() -> ShapeModel {
    ShapeModel::Choice(
        Seq::empty()
            .push(case(0, "Plain"@, ShapeModel::Compact))
            .push(case(1, "Map"@, v14_map())),
    )
}

/// Builds [`v14_entry_type`].
pub fn v14_entry_type_shape() -> (r: Shape)
    ensures
        r@ == v14_entry_type(),
{
    let mut c = no_cases();
    add_case(&mut c, 0, "Plain", Shape::Compact);
    add_case(&mut c, 1, "Map", v14_map_shape());
    Shape::Choice(c)
}

/// One storage entry of a pallet.
pub open spec fn v14_entry() -> ShapeModel {
    ShapeModel::Record(
        Seq::empty()
            .push(field("name"@, ShapeModel::Text))
            .push(field("modifier"@, modifier()))
            .push(field("ty"@, v14_entry_type()))
            .push(field("default"@, list(ShapeModel::Byte)))
            .push(field("docs"@, list(ShapeModel::Text))),
    )
}

/// Builds [`v14_entry`].
pub fn v14_entry_shape() -> (r: Shape)
    ensures
        r@ == v14_entry(),
{
    let mut f = no_fields();
    add_field(&mut f, "name", Shape::Text);
    add_field(&mut f, "modifier", modifier_shape());
    add_field(&mut f, "ty", v14_entry_type_shape());
    add_field(&mut f, "default", list_of(Shape::Byte));
    add_field(&mut f, "docs", list_of(Shape::Text));
    Shape::Record(f)
}

/// The storage of a pallet.
pub open spec fn v14_storage() -> ShapeModel {
    ShapeModel::Record(
        Seq::empty()
            .push(field("prefix"@, ShapeModel::Text))
            .push(field("entries"@, list(v14_entry()))),
    )
}

/// Builds [`v14_storage`].
pub fn v14_storage_shape() -> (r: Shape)
    ensures
        r@ == v14_storage(),
{
    let mut f = no_fields();
    add_field(&mut f, "prefix", Shape::Text);
    add_field(&mut f, "entries", list_of(v14_entry_shape()));
    Shape::Record(f)
}

/// A reference to a type of the registry.
pub open spec fn type_ref() -> ShapeModel {
    ShapeModel::Record(
        Seq::empty()
            .push(field("ty"@, ShapeModel::Compact)),
    )
}

/// Builds [`type_ref`].
pub fn type_ref_shape() -> (r: Shape)
    ensures
        r@ == type_ref(),
{
    let mut f = no_fields();
    add_field(&mut f, "ty", Shape::Compact);
    Shape::Record(f)
}

/// One constant of a pallet.
pub open spec fn v14_constant() -> ShapeModel {
    ShapeModel::Record(
        Seq::empty()
            .push(field("name"@, ShapeModel::Text))
            .push(field("ty"@, ShapeModel::Compact))
            .push(field("value"@, list(ShapeModel::Byte)))
            .push(field("docs"@, list(ShapeModel::Text))),
    )
}

/// Builds [`v14_constant`].
pub fn v14_constant_shape() -> (r: Shape)
    ensures
        r@ == v14_constant(),
{
    let mut f = no_fields();
    add_field(&mut f, "name", Shape::Text);
    add_field(&mut f, "ty", Shape::Compact);
    add_field(&mut f, "value", list_of(Shape::Byte));
    add_field(&mut f, "docs", list_of(Shape::Text));
    Shape::Record(f)
}

/// A pallet. Its name is its first field.
pub open spec fn v14_pallet() -> ShapeModel {
    ShapeModel::Record(
        Seq::empty()
            .push(field("name"@, ShapeModel::Text))
            .push(field("storage"@, opt(v14_storage())))
            .push(field("calls"@, opt(type_ref())))
            .push(field("event"@, opt(type_ref())))
            .push(field("constants"@, list(v14_constant())))
            .push(field("error"@, opt(type_ref())))
            .push(field("index"@, ShapeModel::Byte)),
    )
}

/// Builds [`v14_pallet`].
pub fn v14_pallet_shape() -> (r: Shape)
    ensures
        r@ == v14_pallet(),
{
    let mut f = no_fields();
    add_field(&mut f, "name", Shape::Text);
    add_field(&mut f, "storage", opt_of(v14_storage_shape()));
    add_field(&mut f, "calls", opt_of(type_ref_shape()));
    add_field(&mut f, "event", opt_of(type_ref_shape()));
    add_field(&mut f, "constants", list_of(v14_constant_shape()));
    add_field(&mut f, "error", opt_of(type_ref_shape()));
    add_field(&mut f, "index", Shape::Byte);
    Shape::Record(f)
}

/// One signed extension of the extrinsic format.
pub open spec fn signed_extension() -> ShapeModel {
    ShapeModel::Record(
        Seq::empty()
            .push(field("identifier"@, ShapeModel::Text))
            .push(field("ty"@, ShapeModel::Compact))
            .push(field("additional_signed"@, ShapeModel::Compact)),
    )
}

/// Builds [`signed_extension`].
pub fn signed_extension_shape() -> (r: Shape)
    ensures
        r@ == signed_extension(),
{
    let mut f = no_fields();
    add_field(&mut f, "identifier", Shape::Text);
    add_field(&mut f, "ty", Shape::Compact);
    add_field(&mut f, "additional_signed", Shape::Compact);
    Shape::Record(f)
}

/// The extrinsic format of a runtime of version 14.
pub open spec fn v14_extrinsic() -> ShapeModel {
    ShapeModel::Record(
        Seq::empty()
            .push(field("ty"@, ShapeModel::Compact))
            .push(field("version"@, ShapeModel::Byte))
            .push(field("signed_extensions"@, list(signed_extension()))),
    )
}

/// Builds [`v14_extrinsic`].
pub fn v14_extrinsic_shape() -> (r: Shape)
    ensures
        r@ == v14_extrinsic(),
{
    let mut f = no_fields();
    add_field(&mut f, "ty", Shape::Compact);
    add_field(&mut f, "version", Shape::Byte);
    add_field(&mut f, "signed_extensions", list_of(signed_extension_shape()));
    Shape::Record(f)
}

/// What follows the version tag in version 14. The pallets are its second field.
pub open spec fn v14_body() -> ShapeModel {
    ShapeModel::Record(
        Seq::empty()
            .push(field("types"@, registry()))
            .push(field("pallets"@, list(v14_pallet())))
            .push(field("extrinsic"@, v14_extrinsic()))
            .push(field("ty"@, ShapeModel::Compact)),
    )
}

/// Builds [`v14_body`].
pub fn v14_body_shape() -> (r: Shape)
    ensures
        r@ == v14_body(),
{
    let mut f = no_fields();
    add_field(&mut f, "types", registry_shape());
    add_field(&mut f, "pallets", list_of(v14_pallet_shape()));
    add_field(&mut f, "extrinsic", v14_extrinsic_shape());
    add_field(&mut f, "ty", Shape::Compact);
    Shape::Record(f)
}

} // verus!
