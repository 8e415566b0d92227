//! The laws of the merge engine, each proved against the spec functions that
//! fix the engine's behaviour.
//!
//! Determinism needs no law of its own beyond [`lemma_merge_deterministic`]:
//! `engine::deep_merge` and `engine::merge_inner` each ensure that their
//! result equals a spec function of the inputs alone, so repeated calls on
//! equal inputs return equal results.
use vstd::prelude::*;

use crate::engine::{
    merge_enum_model, merge_model, merge_named_model, merge_opt_model, merge_positional_model,
};
use crate::value::{
    EnumModel, FieldModel, MapEntryModel, MergeError, PayloadModel, ScalarModel, ValueModel,
};

verus! {

/// Leaf precedence: when both sides carry a scalar, the override side wins;
/// a lone scalar wins outright; two absent sides stay absent.
pub proof fn lemma_leaf_precedence(a: ScalarModel, b: ScalarModel)
    ensures
        merge_opt_model(Some(ValueModel::Leaf(a)), Some(ValueModel::Leaf(b))) == Ok::<
            Option<ValueModel>,
            MergeError,
        >(Some(ValueModel::Leaf(b))),
        merge_opt_model(Some(ValueModel::Leaf(a)), None) == Ok::<
            Option<ValueModel>,
            MergeError,
        >(Some(ValueModel::Leaf(a))),
        merge_opt_model(None, Some(ValueModel::Leaf(b))) == Ok::<
            Option<ValueModel>,
            MergeError,
        >(Some(ValueModel::Leaf(b))),
        merge_opt_model(None, None) == Ok::<Option<ValueModel>, MergeError>(None),
{
}

/// Struct field independence: when the two sides list the same field names
/// in the same order and every field pair merges, the merged struct is
/// exactly the field-wise merge, field by field.
pub proof fn lemma_struct_field_independence(fa: Seq<FieldModel>, fb: Seq<FieldModel>)
    requires
        fa.len() == fb.len(),
        forall|i: int| 0 <= i < fa.len() ==> (#[trigger] fa[i]).name == fb[i].name,
        forall|i: int| 0 <= i < fa.len() ==> #[trigger] merge_model(fa[i].value, fb[i].value) is Ok,
    ensures
        merge_model(ValueModel::Struct(fa), ValueModel::Struct(fb)) is Ok,
        merge_model(ValueModel::Struct(fa), ValueModel::Struct(fb))->Ok_0 is Struct,
        merge_model(ValueModel::Struct(fa), ValueModel::Struct(fb))->Ok_0->Struct_0.len()
            == fa.len(),
        forall|i: int|
            0 <= i < fa.len() ==> merge_model(
                ValueModel::Struct(fa),
                ValueModel::Struct(fb),
            )->Ok_0->Struct_0[i] == (FieldModel {
                name: fa[i].name,
                value: merge_model(fa[i].value, fb[i].value)->Ok_0,
            }),
{
    lemma_named_fieldwise(fa, fb);
}

/// The field-level form of struct field independence.
proof fn lemma_named_fieldwise(fa: Seq<FieldModel>, fb: Seq<FieldModel>)
    requires
        fa.len() == fb.len(),
        forall|i: int| 0 <= i < fa.len() ==> (#[trigger] fa[i]).name == fb[i].name,
        forall|i: int| 0 <= i < fa.len() ==> #[trigger] merge_model(fa[i].value, fb[i].value) is Ok,
    ensures
        merge_named_model(fa, fb) is Ok,
        merge_named_model(fa, fb)->Ok_0.len() == fa.len(),
        forall|i: int|
            0 <= i < fa.len() ==> merge_named_model(fa, fb)->Ok_0[i] == (FieldModel {
                name: fa[i].name,
                value: merge_model(fa[i].value, fb[i].value)->Ok_0,
            }),
    decreases fa.len(),
{
    if fa.len() > 0 {
        assert(merge_model(fa[0].value, fb[0].value) is Ok);
        let fa1 = fa.subrange(1, fa.len() as int);
        let fb1 = fb.subrange(1, fb.len() as int);
        assert(fb.remove(0) =~= fb1);
        assert forall|i: int| 0 <= i < fa1.len() implies (#[trigger] fa1[i]).name
            == fb1[i].name by {
            assert(fa1[i] == fa[i + 1]);
            assert(fb1[i] == fb[i + 1]);
        }
        assert forall|i: int| 0 <= i < fa1.len() implies #[trigger] merge_model(
            fa1[i].value,
            fb1[i].value,
        ) is Ok by {
            assert(fa1[i] == fa[i + 1]);
            assert(fb1[i] == fb[i + 1]);
            assert(merge_model(fa[i + 1].value, fb[i + 1].value) is Ok);
        }
        lemma_named_fieldwise(fa1, fb1);
        assert forall|i: int| 0 <= i < fa.len() implies merge_named_model(fa, fb)->Ok_0[i]
            == (FieldModel {
            name: fa[i].name,
            value: merge_model(fa[i].value, fb[i].value)->Ok_0,
        }) by {
            if i > 0 {
                assert(merge_named_model(fa, fb)->Ok_0[i] == merge_named_model(
                    fa1,
                    fb1,
                )->Ok_0[i - 1]);
                assert(fa1[i - 1] == fa[i]);
                assert(fb1[i - 1] == fb[i]);
            }
        }
    }
}

/// Optional absence does not erase: when the base is the present variant of
/// an optional and the override is its absent variant, the merged value is
/// the base value, whole.
pub proof fn lemma_optional_absence(ea: EnumModel, eb: EnumModel)
    requires
        ea.optional,
        ea.payload is Tuple,
        eb.payload is Unit,
    ensures
        merge_model(ValueModel::Enum(ea), ValueModel::Enum(eb)) == Ok::<ValueModel, MergeError>(
            ValueModel::Enum(ea),
        ),
{
}

/// The collection replacement matrix, for each collection shape: both sides
/// empty keeps the (empty) base; an empty override keeps the base verbatim;
/// a non-empty override replaces the base verbatim, whatever the base held.
pub proof fn lemma_collection_replacement(
    xa: Seq<ValueModel>,
    xb: Seq<ValueModel>,
    ma: Seq<MapEntryModel>,
    mb: Seq<MapEntryModel>,
)
    ensures
        xb.len() == 0 ==> merge_model(ValueModel::List(xa), ValueModel::List(xb)) == Ok::<
            ValueModel,
            MergeError,
        >(ValueModel::List(xa)),
        xb.len() != 0 ==> merge_model(ValueModel::List(xa), ValueModel::List(xb)) == Ok::<
            ValueModel,
            MergeError,
        >(ValueModel::List(xb)),
        xb.len() == 0 ==> merge_model(ValueModel::Array(xa), ValueModel::Array(xb)) == Ok::<
            ValueModel,
            MergeError,
        >(ValueModel::Array(xa)),
        xb.len() != 0 ==> merge_model(ValueModel::Array(xa), ValueModel::Array(xb)) == Ok::<
            ValueModel,
            MergeError,
        >(ValueModel::Array(xb)),
        xb.len() == 0 ==> merge_model(ValueModel::SetOf(xa), ValueModel::SetOf(xb)) == Ok::<
            ValueModel,
            MergeError,
        >(ValueModel::SetOf(xa)),
        xb.len() != 0 ==> merge_model(ValueModel::SetOf(xa), ValueModel::SetOf(xb)) == Ok::<
            ValueModel,
            MergeError,
        >(ValueModel::SetOf(xb)),
        mb.len() == 0 ==> merge_model(ValueModel::MapOf(ma), ValueModel::MapOf(mb)) == Ok::<
            ValueModel,
            MergeError,
        >(ValueModel::MapOf(ma)),
        mb.len() != 0 ==> merge_model(ValueModel::MapOf(ma), ValueModel::MapOf(mb)) == Ok::<
            ValueModel,
            MergeError,
        >(ValueModel::MapOf(mb)),
{
}

/// Enum variant-mismatch short-circuit: when the two sides sit in different
/// variants (and the optional-absence exception does not apply), the merged
/// value is the override value, whole, with no field blending.
pub proof fn lemma_variant_mismatch(ea: EnumModel, eb: EnumModel)
    requires
        ea.variant != eb.variant,
        !(ea.optional && ea.payload is Tuple && eb.payload is Unit),
    ensures
        merge_model(ValueModel::Enum(ea), ValueModel::Enum(eb)) == Ok::<ValueModel, MergeError>(
            ValueModel::Enum(eb),
        ),
{
}

/// Idempotence on self-merge: merging any value with itself succeeds and
/// yields the value back.
pub proof fn lemma_merge_idempotent(v: ValueModel)
    ensures
        merge_model(v, v) == Ok::<ValueModel, MergeError>(v),
    decreases v, 0int,
{
    match v {
        ValueModel::Struct(fs) => {
            lemma_named_idempotent(fs);
        },
        ValueModel::TupleStruct(xs) => {
            lemma_positional_idempotent(xs);
        },
        ValueModel::Tuple(xs) => {
            lemma_positional_idempotent(xs);
        },
        ValueModel::Enum(e) => {
            match e.payload {
                PayloadModel::Struct(fs) => {
                    lemma_named_idempotent(fs);
                    assert(merge_enum_model(e, e) == Ok::<EnumModel, MergeError>(e));
                },
                PayloadModel::Tuple(xs) => {
                    lemma_positional_idempotent(xs);
                    assert(merge_enum_model(e, e) == Ok::<EnumModel, MergeError>(e));
                },
                PayloadModel::Unit => {},
            }
        },
        _ => {},
    }
}

/// Self-merge of a named field list yields the list back.
proof fn lemma_named_idempotent(fs: Seq<FieldModel>)
    ensures
        merge_named_model(fs, fs) == Ok::<Seq<FieldModel>, MergeError>(fs),
    decreases fs, 1int,
{
    if fs.len() > 0 {
        lemma_merge_idempotent(fs[0].value);
        let tail = fs.subrange(1, fs.len() as int);
        assert(fs.remove(0) =~= tail);
        lemma_named_idempotent(tail);
        assert(seq![FieldModel { name: fs[0].name, value: fs[0].value }] + tail =~= fs);
    } else {
        assert(fs =~= Seq::<FieldModel>::empty());
    }
}

/// Self-merge of a positional field list yields the list back.
proof fn lemma_positional_idempotent(xs: Seq<ValueModel>)
    ensures
        merge_positional_model(xs, xs) == Ok::<Seq<ValueModel>, MergeError>(xs),
    decreases xs, 1int,
{
    if xs.len() > 0 {
        lemma_merge_idempotent(xs[0]);
        let tail = xs.subrange(1, xs.len() as int);
        lemma_positional_idempotent(tail);
        assert(seq![xs[0]] + tail =~= xs);
    } else {
        assert(xs =~= Seq::<ValueModel>::empty());
    }
}

/// Determinism: the merge result is a function of the two inputs alone, so
/// any two results that meet the engine's contract on equal inputs are
/// equal.
pub proof fn lemma_merge_deterministic(
    base: Option<ValueModel>,
    ovr: Option<ValueModel>,
    r1: Result<Option<ValueModel>, MergeError>,
    r2: Result<Option<ValueModel>, MergeError>,
)
    requires
        r1 == merge_opt_model(base, ovr),
        r2 == merge_opt_model(base, ovr),
    ensures
        r1 == r2,
{
}

} // verus!
