//! The value-shape model: a closed taxonomy of the shapes a runtime value can
//! report, as a tagged union, together with the mathematical model that the
//! merge contracts are stated over.
//!
//! A `Value` stands for one introspected value: a scalar leaf, or one of the
//! composite shapes (struct, tuple struct, tuple, enum, list, array, map,
//! set).  Every composite holds its children as further `Value`s, so a whole
//! value tree is one `Value`.
use vstd::prelude::*;

verus! {

/// A scalar payload carried by a leaf value.  The merge engine never looks
/// inside a scalar; it only copies whole scalars.
#[derive(Debug, PartialEq)]
pub enum Scalar {
    Bool(bool),
    Char(char),
    Int(i64),
    Unsigned(u64),
    Text(String),
}

/// One named field of a struct-shaped value or of a struct-kind enum variant.
#[derive(Debug, PartialEq)]
pub struct FieldEntry {
    pub name: String,
    pub value: Value,
}

/// One key/value entry of a map-shaped value.
#[derive(Debug, PartialEq)]
pub struct MapEntry {
    pub key: Value,
    pub value: Value,
}

/// The payload of an enum value's active variant: no fields, positional
/// fields, or named fields.  The payload also tells the variant-kind.
#[derive(Debug, PartialEq)]
pub enum VariantPayload {
    Unit,
    Tuple(Vec<Value>),
    Struct(Vec<FieldEntry>),
}

/// An enum-shaped value: the identity of its active variant, that variant's
/// payload, and whether the declared enum type is the optional type (the one
/// whose absent variant means "this layer did not set the value").
#[derive(Debug, PartialEq)]
pub struct EnumValue {
    pub optional: bool,
    pub variant: String,
    pub payload: VariantPayload,
}

/// A runtime value, exposed through its shape.
#[derive(Debug, PartialEq)]
pub enum Value {
    Leaf(Scalar),
    Struct(Vec<FieldEntry>),
    TupleStruct(Vec<Value>),
    Tuple(Vec<Value>),
    Enum(EnumValue),
    List(Vec<Value>),
    Array(Vec<Value>),
    MapOf(Vec<MapEntry>),
    SetOf(Vec<Value>),
}

/// Why a merge is refused: the two sides (or an enum variant's two payloads)
/// report incompatible shapes, or one side lacks a field that the other
/// reports.
#[derive(Debug, Clone, Copy, PartialEq, Eq, Structural)]
pub enum MergeError {
    ShapeMismatch,
    MissingField,
}

/// Mathematical model of a scalar.
#[verifier::ext_equal]
pub enum ScalarModel {
    Bool(bool),
    Char(char),
    Int(int),
    Unsigned(int),
    Text(Seq<char>),
}

/// Mathematical model of a named field.
#[verifier::ext_equal]
pub struct FieldModel {
    pub name: Seq<char>,
    pub value: ValueModel,
}

/// Mathematical model of a map entry.
#[verifier::ext_equal]
pub struct MapEntryModel {
    pub key: ValueModel,
    pub value: ValueModel,
}

/// Mathematical model of a variant payload.
#[verifier::ext_equal]
pub enum PayloadModel {
    Unit,
    Tuple(Seq<ValueModel>),
    Struct(Seq<FieldModel>),
}

/// Mathematical model of an enum value.
#[verifier::ext_equal]
pub struct EnumModel {
    pub optional: bool,
    pub variant: Seq<char>,
    pub payload: PayloadModel,
}

/// Mathematical model of a value tree.
#[verifier::ext_equal]
pub enum ValueModel {
    Leaf(ScalarModel),
    Struct(Seq<FieldModel>),
    TupleStruct(Seq<ValueModel>),
    Tuple(Seq<ValueModel>),
    Enum(EnumModel),
    List(Seq<ValueModel>),
    Array(Seq<ValueModel>),
    MapOf(Seq<MapEntryModel>),
    SetOf(Seq<ValueModel>),
}

pub open spec fn scalar_model(s: Scalar) -> ScalarModel {
    match s {
        Scalar::Bool(b) => ScalarModel::Bool(b),
        Scalar::Char(c) => ScalarModel::Char(c),
        Scalar::Int(i) => ScalarModel::Int(i as int),
        Scalar::Unsigned(u) => ScalarModel::Unsigned(u as int),
        Scalar::Text(t) => ScalarModel::Text(t@),
    }
}

pub open spec fn value_model(v: Value) -> ValueModel
    decreases v, 0int,
{
    match v {
        Value::Leaf(s) => ValueModel::Leaf(scalar_model(s)),
        Value::Struct(fs) => ValueModel::Struct(fields_model(fs@)),
        Value::TupleStruct(xs) => ValueModel::TupleStruct(values_model(xs@)),
        Value::Tuple(xs) => ValueModel::Tuple(values_model(xs@)),
        Value::Enum(e) => ValueModel::Enum(enum_model(e)),
        Value::List(xs) => ValueModel::List(values_model(xs@)),
        Value::Array(xs) => ValueModel::Array(values_model(xs@)),
        Value::MapOf(es) => ValueModel::MapOf(entries_model(es@)),
        Value::SetOf(xs) => ValueModel::SetOf(values_model(xs@)),
    }
}

pub open spec fn field_model(f: FieldEntry) -> FieldModel
    decreases f, 0int,
{
    FieldModel { name: f.name@, value: value_model(f.value) }
}

pub open spec fn entry_model(e: MapEntry) -> MapEntryModel
    decreases e, 0int,
{
    MapEntryModel { key: value_model(e.key), value: value_model(e.value) }
}

pub open spec fn payload_model(p: VariantPayload) -> PayloadModel
    decreases p, 0int,
{
    match p {
        VariantPayload::Unit => PayloadModel::Unit,
        VariantPayload::Tuple(xs) => PayloadModel::Tuple(values_model(xs@)),
        VariantPayload::Struct(fs) => PayloadModel::Struct(fields_model(fs@)),
    }
}

pub open spec fn enum_model(e: EnumValue) -> EnumModel
    decreases e, 0int,
{
    EnumModel { optional: e.optional, variant: e.variant@, payload: payload_model(e.payload) }
}

pub open spec fn values_model(xs: Seq<Value>) -> Seq<ValueModel>
    decreases xs, 1int,
{
    if xs.len() == 0 {
        Seq::empty()
    } else {
        seq![value_model(xs[0])] + values_model(xs.subrange(1, xs.len() as int))
    }
}

pub open spec fn fields_model(fs: Seq<FieldEntry>) -> Seq<FieldModel>
    decreases fs, 1int,
{
    if fs.len() == 0 {
        Seq::empty()
    } else {
        seq![field_model(fs[0])] + fields_model(fs.subrange(1, fs.len() as int))
    }
}

pub open spec fn entries_model(es: Seq<MapEntry>) -> Seq<MapEntryModel>
    decreases es, 1int,
{
    if es.len() == 0 {
        Seq::empty()
    } else {
        seq![entry_model(es[0])] + entries_model(es.subrange(1, es.len() as int))
    }
}

impl View for Value {
    type V = ValueModel;

    open spec fn view(&self) -> ValueModel {
        value_model(*self)
    }
}

impl View for FieldEntry {
    type V = FieldModel;

    open spec fn view(&self) -> FieldModel {
        field_model(*self)
    }
}

impl View for MapEntry {
    type V = MapEntryModel;

    open spec fn view(&self) -> MapEntryModel {
        entry_model(*self)
    }
}

impl View for EnumValue {
    type V = EnumModel;

    open spec fn view(&self) -> EnumModel {
        enum_model(*self)
    }
}

/// The model of a sequence of values is the pointwise model of its elements.
pub proof fn lemma_values_model(xs: Seq<Value>)
    ensures
        values_model(xs).len() == xs.len(),
        forall|i: int| 0 <= i < xs.len() ==> values_model(xs)[i] == value_model(xs[i]),
    decreases xs.len(),
{
    if xs.len() > 0 {
        let rest = xs.subrange(1, xs.len() as int);
        lemma_values_model(rest);
        assert forall|i: int| 0 <= i < xs.len() implies values_model(xs)[i] == value_model(
            xs[i],
        ) by {
            if i > 0 {
                assert(values_model(xs)[i] == values_model(rest)[i - 1]);
                assert(rest[i - 1] == xs[i]);
            }
        }
    }
}

/// The model of a sequence of named fields is the pointwise model of its
/// elements.
pub proof fn lemma_fields_model(fs: Seq<FieldEntry>)
    ensures
        fields_model(fs).len() == fs.len(),
        forall|i: int| 0 <= i < fs.len() ==> fields_model(fs)[i] == field_model(fs[i]),
    decreases fs.len(),
{
    if fs.len() > 0 {
        let rest = fs.subrange(1, fs.len() as int);
        lemma_fields_model(rest);
        assert forall|i: int| 0 <= i < fs.len() implies fields_model(fs)[i] == field_model(
            fs[i],
        ) by {
            if i > 0 {
                assert(fields_model(fs)[i] == fields_model(rest)[i - 1]);
                assert(rest[i - 1] == fs[i]);
            }
        }
    }
}

/// The model of a sequence of map entries is the pointwise model of its
/// elements.
pub proof fn lemma_entries_model(es: Seq<MapEntry>)
    ensures
        entries_model(es).len() == es.len(),
        forall|i: int| 0 <= i < es.len() ==> entries_model(es)[i] == entry_model(es[i]),
    decreases es.len(),
{
    if es.len() > 0 {
        let rest = es.subrange(1, es.len() as int);
        lemma_entries_model(rest);
        assert forall|i: int| 0 <= i < es.len() implies entries_model(es)[i] == entry_model(
            es[i],
        ) by {
            if i > 0 {
                assert(entries_model(es)[i] == entries_model(rest)[i - 1]);
                assert(rest[i - 1] == es[i]);
            }
        }
    }
}

} // verus!
