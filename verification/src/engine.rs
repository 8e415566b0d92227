//! The merge engine: a recursive dispatcher and per-shape merge rules over
//! the runtime value model.
//!
//! The behaviour is fixed by the spec functions `merge_model`,
//! `merge_opt_model` and their helpers; every executable function returns
//! exactly what the corresponding spec function says.  The rules are:
//!
//! - two leaves: the override scalar wins;
//! - one side absent, the other a leaf: the present side wins;
//! - both sides absent: the result is absent;
//! - struct, tuple struct and tuple: merge field by field (structs pair
//!   fields by name, the others by position);
//! - enum: the override value wins whole on a variant mismatch; on a match
//!   the payload fields are merged; an absent optional on the override side
//!   keeps the base value whole;
//! - list, array, map, set: replaced whole — an empty override keeps the
//!   base collection, a non-empty override replaces it;
//! - any other pairing of shapes is refused as a structural mismatch.
use vstd::prelude::*;

use crate::value::{
    field_model, fields_model, lemma_entries_model, lemma_fields_model, lemma_values_model,
    value_model, values_model, EnumModel, EnumValue, FieldEntry, FieldModel, MergeError,
    PayloadModel, Value, ValueModel, VariantPayload,
};

verus! {

/// Index of the first field called `name`, if any.
pub open spec fn find_field_model(fs: Seq<FieldModel>, name: Seq<char>) -> Option<int>
    decreases fs.len(),
{
    if fs.len() == 0 {
        None
    } else if fs[0].name == name {
        Some(0int)
    } else {
        match find_field_model(fs.subrange(1, fs.len() as int), name) {
            Some(i) => Some(i + 1),
            None => None,
        }
    }
}

/// Whole-collection replacement: an empty override keeps the base
/// collection, a non-empty override replaces it.
pub open spec fn replace_model<T>(base: Seq<T>, ovr: Seq<T>) -> Seq<T> {
    if ovr.len() == 0 {
        base
    } else {
        ovr
    }
}

/// What merging two values of the same reported shape yields.
pub open spec fn merge_model(base: ValueModel, ovr: ValueModel) -> Result<ValueModel, MergeError>
    decreases base, 0int,
{
    match (base, ovr) {
        (ValueModel::Leaf(_), ValueModel::Leaf(sb)) => Ok(ValueModel::Leaf(sb)),
        (ValueModel::Struct(fa), ValueModel::Struct(fb)) => match merge_named_model(fa, fb) {
            Ok(fs) => Ok(ValueModel::Struct(fs)),
            Err(e) => Err(e),
        },
        (ValueModel::TupleStruct(xa), ValueModel::TupleStruct(xb)) => match merge_positional_model(
            xa,
            xb,
        ) {
            Ok(xs) => Ok(ValueModel::TupleStruct(xs)),
            Err(e) => Err(e),
        },
        (ValueModel::Tuple(xa), ValueModel::Tuple(xb)) => match merge_positional_model(xa, xb) {
            Ok(xs) => Ok(ValueModel::Tuple(xs)),
            Err(e) => Err(e),
        },
        (ValueModel::Enum(ea), ValueModel::Enum(eb)) => match merge_enum_model(ea, eb) {
            Ok(e) => Ok(ValueModel::Enum(e)),
            Err(e) => Err(e),
        },
        (ValueModel::List(xa), ValueModel::List(xb)) => Ok(
            ValueModel::List(replace_model(xa, xb)),
        ),
        (ValueModel::Array(xa), ValueModel::Array(xb)) => Ok(
            ValueModel::Array(replace_model(xa, xb)),
        ),
        (ValueModel::MapOf(xa), ValueModel::MapOf(xb)) => Ok(
            ValueModel::MapOf(replace_model(xa, xb)),
        ),
        (ValueModel::SetOf(xa), ValueModel::SetOf(xb)) => Ok(
            ValueModel::SetOf(replace_model(xa, xb)),
        ),
        _ => Err(MergeError::ShapeMismatch),
    }
}

/// Field-wise merge of named fields: each base field is paired with the
/// override field of the same name; an override field with no partner of its
/// name in the base is ignored; a base field with no partner in the override
/// is a missing-field error.
pub open spec fn merge_named_model(fa: Seq<FieldModel>, fb: Seq<FieldModel>) -> Result<
    Seq<FieldModel>,
    MergeError,
>
    decreases fa, 1int,
{
    if fa.len() == 0 {
        Ok(Seq::empty())
    } else {
        match find_field_model(fb, fa[0].name) {
            None => Err(MergeError::MissingField),
            Some(j) => match merge_model(fa[0].value, fb[j].value) {
                Err(e) => Err(e),
                Ok(m) => match merge_named_model(
                    fa.subrange(1, fa.len() as int),
                    fb.remove(j),
                ) {
                    Err(e) => Err(e),
                    Ok(rest) => Ok(seq![FieldModel { name: fa[0].name, value: m }] + rest),
                },
            },
        }
    }
}

/// Field-wise merge of positional fields: fields are paired by index; extra
/// override fields beyond the base arity are ignored; a base field beyond
/// the override arity is a missing-field error.
pub open spec fn merge_positional_model(xa: Seq<ValueModel>, xb: Seq<ValueModel>) -> Result<
    Seq<ValueModel>,
    MergeError,
>
    decreases xa, 1int,
{
    if xa.len() == 0 {
        Ok(Seq::empty())
    } else if xb.len() == 0 {
        Err(MergeError::MissingField)
    } else {
        match merge_model(xa[0], xb[0]) {
            Err(e) => Err(e),
            Ok(m) => match merge_positional_model(
                xa.subrange(1, xa.len() as int),
                xb.subrange(1, xb.len() as int),
            ) {
                Err(e) => Err(e),
                Ok(rest) => Ok(seq![m] + rest),
            },
        }
    }
}

/// The enum rule, keyed by the base side's variant-kind.  The override value
/// wins whole when the variant identities differ; when they agree the
/// payload fields are merged.  The one exception: when the base is the
/// present variant of an optional and the override is its absent variant,
/// the base value is kept whole.  Two payloads of different kinds under one
/// variant identity are a structural mismatch.
pub open spec fn merge_enum_model(ea: EnumModel, eb: EnumModel) -> Result<EnumModel, MergeError>
    decreases ea, 0int,
{
    match ea.payload {
        PayloadModel::Struct(fa) => if ea.variant != eb.variant {
            Ok(eb)
        } else {
            match eb.payload {
                PayloadModel::Struct(fb) => match merge_named_model(fa, fb) {
                    Ok(fs) => Ok(
                        EnumModel {
                            optional: eb.optional,
                            variant: eb.variant,
                            payload: PayloadModel::Struct(fs),
                        },
                    ),
                    Err(e) => Err(e),
                },
                _ => Err(MergeError::ShapeMismatch),
            }
        },
        PayloadModel::Tuple(xa) => if ea.optional && eb.payload is Unit {
            Ok(ea)
        } else if ea.variant != eb.variant {
            Ok(eb)
        } else {
            match eb.payload {
                PayloadModel::Tuple(xb) => match merge_positional_model(xa, xb) {
                    Ok(xs) => Ok(
                        EnumModel {
                            optional: eb.optional,
                            variant: eb.variant,
                            payload: PayloadModel::Tuple(xs),
                        },
                    ),
                    Err(e) => Err(e),
                },
                _ => Err(MergeError::ShapeMismatch),
            }
        },
        PayloadModel::Unit => Ok(eb),
    }
}

/// The dispatcher's view of an optional input side.
pub open spec fn opt_model(o: Option<Value>) -> Option<ValueModel> {
    match o {
        Some(v) => Some(value_model(v)),
        None => None,
    }
}

/// The top-level dispatch: a side that is absent altogether yields the other
/// side when that side is a leaf, nothing when both are absent, and a
/// structural mismatch when the present side is a composite.
pub open spec fn merge_opt_model(base: Option<ValueModel>, ovr: Option<ValueModel>) -> Result<
    Option<ValueModel>,
    MergeError,
> {
    match (base, ovr) {
        (None, None) => Ok(None),
        (Some(a), None) => if a is Leaf {
            Ok(Some(a))
        } else {
            Err(MergeError::ShapeMismatch)
        },
        (None, Some(b)) => if b is Leaf {
            Ok(Some(b))
        } else {
            Err(MergeError::ShapeMismatch)
        },
        (Some(a), Some(b)) => match merge_model(a, b) {
            Ok(m) => Ok(Some(m)),
            Err(e) => Err(e),
        },
    }
}


/// First match of `find_field_model`, characterized: the index it returns is
/// the first whose field carries the name, and `None` means no field does.
proof fn lemma_find_field_model(fs: Seq<FieldModel>, name: Seq<char>)
    ensures
        match find_field_model(fs, name) {
            Some(j) => 0 <= j < fs.len() && fs[j].name == name && (forall|k: int|
                0 <= k < j ==> fs[k].name != name),
            None => forall|k: int| 0 <= k < fs.len() ==> fs[k].name != name,
        },
    decreases fs.len(),
{
    if fs.len() > 0 && fs[0].name != name {
        let rest = fs.subrange(1, fs.len() as int);
        lemma_find_field_model(rest, name);
        match find_field_model(rest, name) {
            Some(j) => {
                assert(fs[j + 1] == rest[j]);
                assert(forall|k: int| 0 <= k < j + 1 ==> fs[k].name != name) by {
                    assert(forall|k: int| 1 <= k < j + 1 ==> fs[k] == rest[k - 1]);
                }
            },
            None => {
                assert(forall|k: int| 1 <= k < fs.len() ==> fs[k] == rest[k - 1]);
            },
        }
    }
}

/// Position of the first field called `name` in `fields`, if any.
fn find_field(fields: &Vec<FieldEntry>, name: &String) -> (r: Option<usize>)
    ensures
        match r {
            Some(j) => j < fields@.len() && find_field_model(fields_model(fields@), name@)
                == Some(j as int),
            None => find_field_model(fields_model(fields@), name@) is None,
        },
{
    proof {
        lemma_fields_model(fields@);
        lemma_find_field_model(fields_model(fields@), name@);
    }
    let n = fields.len();
    let mut j: usize = 0;
    while j < n
        invariant
            j <= n,
            n == fields@.len(),
            forall|k: int| 0 <= k < j ==> fields_model(fields@)[k].name != name@,
        decreases n - j,
    {
        proof {
            lemma_fields_model(fields@);
        }
        if fields[j].name == *name {
            proof {
                let fsm = fields_model(fields@);
                lemma_find_field_model(fsm, name@);
                assert(fsm[j as int].name == name@);
                match find_field_model(fsm, name@) {
                    Some(jj) => {
                        assert(!(jj < j)) by {
                            if jj < j {
                                assert(fsm[jj].name != name@);
                            }
                        }
                        assert(!(j < jj)) by {
                            if j < jj {
                                assert(fsm[j as int].name != name@);
                            }
                        }
                    },
                    None => {
                        assert(fsm[j as int].name != name@);
                    },
                }
            }
            return Some(j);
        }
        j = j + 1;
    }
    proof {
        let fsm = fields_model(fields@);
        lemma_fields_model(fields@);
        lemma_find_field_model(fsm, name@);
        match find_field_model(fsm, name@) {
            Some(jj) => {
                assert(fsm[jj].name != name@);
            },
            None => {},
        }
    }
    None
}

/// Whole-collection replacement, the rule shared by list, array, map and
/// set: an empty override keeps the base collection, a non-empty override
/// replaces it.
pub fn merge_replace<T>(base: Vec<T>, ovr: Vec<T>) -> (r: Vec<T>)
    ensures
        r@ == replace_model(base@, ovr@),
{
    if ovr.len() == 0 {
        base
    } else {
        ovr
    }
}


/// Removing an entry commutes with taking the model of a field sequence.
proof fn lemma_fields_model_remove(s: Seq<FieldEntry>, j: int)
    requires
        0 <= j < s.len(),
    ensures
        fields_model(s.remove(j)) == fields_model(s).remove(j),
{
    lemma_fields_model(s);
    lemma_fields_model(s.remove(j));
    assert(fields_model(s.remove(j)) =~= fields_model(s).remove(j));
}

/// Prepending an entry commutes with taking the model of a field sequence.
proof fn lemma_fields_model_cons(s: Seq<FieldEntry>, f: FieldEntry)
    ensures
        fields_model(s.insert(0, f)) == seq![field_model(f)] + fields_model(s),
{
    lemma_fields_model(s);
    lemma_fields_model(s.insert(0, f));
    assert(fields_model(s.insert(0, f)) =~= seq![field_model(f)] + fields_model(s));
}

/// Taking a subrange commutes with taking the model of a value sequence.
proof fn lemma_values_model_subrange(s: Seq<Value>, i: int, j: int)
    requires
        0 <= i <= j <= s.len(),
    ensures
        values_model(s.subrange(i, j)) == values_model(s).subrange(i, j),
{
    lemma_values_model(s);
    lemma_values_model(s.subrange(i, j));
    assert(values_model(s.subrange(i, j)) =~= values_model(s).subrange(i, j));
}

/// Prepending a value commutes with taking the model of a value sequence.
proof fn lemma_values_model_cons(s: Seq<Value>, v: Value)
    ensures
        values_model(s.insert(0, v)) == seq![value_model(v)] + values_model(s),
{
    lemma_values_model(s);
    lemma_values_model(s.insert(0, v));
    assert(values_model(s.insert(0, v)) =~= seq![value_model(v)] + values_model(s));
}

/// Merge two same-shaped values; the override side's leaves win.
///
/// Returns exactly what `merge_model` says of the two values' models:
/// the merged value on success, and the first structural fault otherwise.
pub fn deep_merge(base: Value, ovr: Value) -> (r: Result<Value, MergeError>)
    ensures
        (match r {
            Ok(v) => merge_model(base@, ovr@) == Ok::<ValueModel, MergeError>(v@),
            Err(e) => merge_model(base@, ovr@) == Err::<ValueModel, MergeError>(e),
        }),
    decreases base, 0int,
{
    match (base, ovr) {
        (Value::Leaf(_), Value::Leaf(sb)) => Ok(Value::Leaf(sb)),
        (Value::Struct(fa), Value::Struct(fb)) => match merge_named(fa, fb) {
            Ok(fs) => Ok(Value::Struct(fs)),
            Err(e) => Err(e),
        },
        (Value::TupleStruct(xa), Value::TupleStruct(xb)) => match merge_positional(xa, xb) {
            Ok(xs) => Ok(Value::TupleStruct(xs)),
            Err(e) => Err(e),
        },
        (Value::Tuple(xa), Value::Tuple(xb)) => match merge_positional(xa, xb) {
            Ok(xs) => Ok(Value::Tuple(xs)),
            Err(e) => Err(e),
        },
        (Value::Enum(ea), Value::Enum(eb)) => match merge_enum(ea, eb) {
            Ok(e) => Ok(Value::Enum(e)),
            Err(e) => Err(e),
        },
        (Value::List(xa), Value::List(xb)) => {
            proof {
                lemma_values_model(xa@);
                lemma_values_model(xb@);
            }
            Ok(Value::List(merge_replace(xa, xb)))
        },
        (Value::Array(xa), Value::Array(xb)) => {
            proof {
                lemma_values_model(xa@);
                lemma_values_model(xb@);
            }
            Ok(Value::Array(merge_replace(xa, xb)))
        },
        (Value::MapOf(xa), Value::MapOf(xb)) => {
            proof {
                lemma_entries_model(xa@);
                lemma_entries_model(xb@);
            }
            Ok(Value::MapOf(merge_replace(xa, xb)))
        },
        (Value::SetOf(xa), Value::SetOf(xb)) => {
            proof {
                lemma_values_model(xa@);
                lemma_values_model(xb@);
            }
            Ok(Value::SetOf(merge_replace(xa, xb)))
        },
        _ => Err(MergeError::ShapeMismatch),
    }
}

/// Merge the named fields of two struct-shaped values, pairing by name.
fn merge_named(fa: Vec<FieldEntry>, fb: Vec<FieldEntry>) -> (r: Result<
    Vec<FieldEntry>,
    MergeError,
>)
    ensures
        (match r {
            Ok(fs) => merge_named_model(fields_model(fa@), fields_model(fb@)) == Ok::<
                Seq<FieldModel>,
                MergeError,
            >(fields_model(fs@)),
            Err(e) => merge_named_model(fields_model(fa@), fields_model(fb@)) == Err::<
                Seq<FieldModel>,
                MergeError,
            >(e),
        }),
    decreases fa@, 1int,
{
    let ghost fa0 = fa@;
    let ghost fb0 = fb@;
    let mut fa = fa;
    let mut fb = fb;
    if fa.len() == 0 {
        return Ok(Vec::new());
    }
    proof {
        lemma_fields_model(fa0);
        lemma_fields_model(fb0);
    }
    let FieldEntry { name: hname, value: hvalue } = fa.remove(0);
    let found = find_field(&fb, &hname);
    match found {
        None => Err(MergeError::MissingField),
        Some(j) => {
            let ghost jj = j as int;
            let be = fb.remove(j);
            proof {
                assert(fields_model(fb0)[jj] == field_model(fb0[jj]));
                assert(decreases_to!(fa0 => fa0[0]));
            }
            match deep_merge(hvalue, be.value) {
                Err(e) => Err(e),
                Ok(m) => {
                    proof {
                        lemma_fields_model_remove(fb0, jj);
                        lemma_fields_model_remove(fa0, 0);
                        assert(fields_model(fa0).remove(0) =~= fields_model(fa0).subrange(
                            1,
                            fields_model(fa0).len() as int,
                        ));
                        assert(fa0.remove(0) =~= fa0.subrange(1, fa0.len() as int));
                    }
                    match merge_named(fa, fb) {
                        Err(e) => Err(e),
                        Ok(rest) => {
                            let ghost rest0 = rest@;
                            let mut out = rest;
                            out.insert(0, FieldEntry { name: hname, value: m });
                            proof {
                                lemma_fields_model_cons(
                                    rest0,
                                    FieldEntry { name: hname, value: m },
                                );
                            }
                            Ok(out)
                        },
                    }
                },
            }
        },
    }
}

/// Merge positional fields pairwise, index by index.
fn merge_positional(xa: Vec<Value>, xb: Vec<Value>) -> (r: Result<Vec<Value>, MergeError>)
    ensures
        (match r {
            Ok(xs) => merge_positional_model(values_model(xa@), values_model(xb@)) == Ok::<
                Seq<ValueModel>,
                MergeError,
            >(values_model(xs@)),
            Err(e) => merge_positional_model(values_model(xa@), values_model(xb@)) == Err::<
                Seq<ValueModel>,
                MergeError,
            >(e),
        }),
    decreases xa@, 1int,
{
    let ghost xa0 = xa@;
    let ghost xb0 = xb@;
    let mut xa = xa;
    let mut xb = xb;
    if xa.len() == 0 {
        return Ok(Vec::new());
    }
    proof {
        lemma_values_model(xa0);
        lemma_values_model(xb0);
    }
    if xb.len() == 0 {
        return Err(MergeError::MissingField);
    }
    let ha = xa.remove(0);
    let hb = xb.remove(0);
    proof {
        assert(decreases_to!(xa0 => xa0[0]));
    }
    match deep_merge(ha, hb) {
        Err(e) => Err(e),
        Ok(m) => {
            proof {
                lemma_values_model_subrange(xa0, 1, xa0.len() as int);
                lemma_values_model_subrange(xb0, 1, xb0.len() as int);
                assert(xa0.remove(0) =~= xa0.subrange(1, xa0.len() as int));
                assert(xb0.remove(0) =~= xb0.subrange(1, xb0.len() as int));
            }
            match merge_positional(xa, xb) {
                Err(e) => Err(e),
                Ok(rest) => {
                    let ghost rest0 = rest@;
                    let mut out = rest;
                    out.insert(0, m);
                    proof {
                        lemma_values_model_cons(rest0, m);
                    }
                    Ok(out)
                },
            }
        },
    }
}

/// Merge two enum-shaped values by the enum rule.
fn merge_enum(ea: EnumValue, eb: EnumValue) -> (r: Result<EnumValue, MergeError>)
    ensures
        (match r {
            Ok(e) => merge_enum_model(ea@, eb@) == Ok::<EnumModel, MergeError>(e@),
            Err(e) => merge_enum_model(ea@, eb@) == Err::<EnumModel, MergeError>(e),
        }),
    decreases ea, 0int,
{
    let ghost ea0 = ea;
    let ghost eb0 = eb;
    let EnumValue { optional: aopt, variant: avar, payload: apay } = ea;
    let EnumValue { optional: bopt, variant: bvar, payload: bpay } = eb;
    match apay {
        VariantPayload::Struct(fa) => {
            if avar == bvar {
                match bpay {
                    VariantPayload::Struct(fb) => match merge_named(fa, fb) {
                        Ok(fs) => Ok(
                            EnumValue {
                                optional: bopt,
                                variant: bvar,
                                payload: VariantPayload::Struct(fs),
                            },
                        ),
                        Err(e) => Err(e),
                    },
                    _ => Err(MergeError::ShapeMismatch),
                }
            } else {
                Ok(EnumValue { optional: bopt, variant: bvar, payload: bpay })
            }
        },
        VariantPayload::Tuple(xa) => {
            if aopt && matches!(bpay, VariantPayload::Unit) {
                Ok(EnumValue { optional: aopt, variant: avar, payload: VariantPayload::Tuple(xa) })
            } else if avar == bvar {
                match bpay {
                    VariantPayload::Tuple(xb) => match merge_positional(xa, xb) {
                        Ok(xs) => Ok(
                            EnumValue {
                                optional: bopt,
                                variant: bvar,
                                payload: VariantPayload::Tuple(xs),
                            },
                        ),
                        Err(e) => Err(e),
                    },
                    _ => Err(MergeError::ShapeMismatch),
                }
            } else {
                Ok(EnumValue { optional: bopt, variant: bvar, payload: bpay })
            }
        },
        VariantPayload::Unit => Ok(EnumValue { optional: bopt, variant: bvar, payload: bpay }),
    }
}

/// The top-level dispatcher over possibly-absent sides: both absent is a
/// no-op, a lone leaf wins outright, a lone composite is a structural
/// mismatch, and two present values are merged.
pub fn merge_inner(base: Option<Value>, ovr: Option<Value>) -> (r: Result<
    Option<Value>,
    MergeError,
>)
    ensures
        (match r {
            Ok(o) => merge_opt_model(opt_model(base), opt_model(ovr)) == Ok::<
                Option<ValueModel>,
                MergeError,
            >(opt_model(o)),
            Err(e) => merge_opt_model(opt_model(base), opt_model(ovr)) == Err::<
                Option<ValueModel>,
                MergeError,
            >(e),
        }),
{
    match (base, ovr) {
        (None, None) => Ok(None),
        (Some(Value::Leaf(s)), None) => Ok(Some(Value::Leaf(s))),
        (Some(_), None) => Err(MergeError::ShapeMismatch),
        (None, Some(Value::Leaf(s))) => Ok(Some(Value::Leaf(s))),
        (None, Some(_)) => Err(MergeError::ShapeMismatch),
        (Some(a), Some(b)) => match deep_merge(a, b) {
            Ok(v) => Ok(Some(v)),
            Err(e) => Err(e),
        },
    }
}

} // verus!
