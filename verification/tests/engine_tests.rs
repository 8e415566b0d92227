use deep_merge::engine::{deep_merge, merge_inner};
use deep_merge::value::{EnumValue, FieldEntry, MapEntry, MergeError, Scalar, Value, VariantPayload};

fn leaf_int(i: i64) -> Value {
    Value::Leaf(Scalar::Int(i))
}

fn leaf_text(t: &str) -> Value {
    Value::Leaf(Scalar::Text(t.to_string()))
}

fn leaf_bool(b: bool) -> Value {
    Value::Leaf(Scalar::Bool(b))
}

fn present(v: Value) -> Value {
    Value::Enum(EnumValue {
        optional: true,
        variant: "Some".to_string(),
        payload: VariantPayload::Tuple(vec![v]),
    })
}

fn absent() -> Value {
    Value::Enum(EnumValue {
        optional: true,
        variant: "None".to_string(),
        payload: VariantPayload::Unit,
    })
}

fn field(name: &str, value: Value) -> FieldEntry {
    FieldEntry { name: name.to_string(), value }
}

/// A struct of three optional fields, the shape the end-to-end scenario uses.
fn test_struct(a: Option<i64>, b: Option<&str>, c: Option<bool>) -> Value {
    let fa = match a {
        Some(i) => present(leaf_int(i)),
        None => absent(),
    };
    let fb = match b {
        Some(t) => present(leaf_text(t)),
        None => absent(),
    };
    let fc = match c {
        Some(x) => present(leaf_bool(x)),
        None => absent(),
    };
    Value::Struct(vec![field("a", fa), field("b", fb), field("c", fc)])
}

#[test]
fn lib_test_deep_merge() {
    let a = test_struct(Some(1), Some("hello"), Some(true));
    let b = test_struct(None, Some("world"), Some(false));
    let result = deep_merge(a, b).unwrap();
    assert_eq!(result, test_struct(Some(1), Some("world"), Some(false)));
}

/// A struct holding a nested struct, a list, a map and an optional struct.
fn complex(a: Value, b: Vec<Value>, c: Vec<MapEntry>, d: Value) -> Value {
    Value::Struct(vec![
        field("a", a),
        field("b", Value::List(b)),
        field("c", Value::MapOf(c)),
        field("d", d),
    ])
}

fn keyed(key: &str, value: Value) -> MapEntry {
    MapEntry { key: leaf_text(key), value }
}

#[test]
fn test_deep_merge_complex() {
    let a = complex(
        test_struct(Some(1), Some("hello"), Some(true)),
        vec![
            test_struct(Some(1), Some("hello"), Some(true)),
            test_struct(Some(1), Some("hello"), Some(true)),
        ],
        vec![keyed("key", test_struct(Some(1), Some("hello"), Some(true)))],
        present(test_struct(Some(1), Some("hello"), Some(true))),
    );
    let b = complex(
        test_struct(None, Some("world"), Some(false)),
        vec![
            test_struct(Some(1), Some("world"), Some(true)),
            test_struct(Some(1), Some("world"), Some(true)),
        ],
        vec![keyed("key", test_struct(Some(1), Some("hello"), Some(true)))],
        absent(),
    );
    let result = deep_merge(a, b).unwrap();
    assert_eq!(
        result,
        complex(
            test_struct(Some(1), Some("world"), Some(false)),
            vec![
                test_struct(Some(1), Some("world"), Some(true)),
                test_struct(Some(1), Some("world"), Some(true)),
            ],
            vec![keyed("key", test_struct(Some(1), Some("hello"), Some(true)))],
            present(test_struct(Some(1), Some("hello"), Some(true))),
        )
    );
}

#[test]
fn leaf_precedence_scenarios() {
    assert_eq!(
        merge_inner(Some(leaf_int(1)), Some(leaf_int(2))),
        Ok(Some(leaf_int(2)))
    );
    assert_eq!(merge_inner(Some(leaf_int(1)), None), Ok(Some(leaf_int(1))));
    assert_eq!(merge_inner(None, Some(leaf_int(2))), Ok(Some(leaf_int(2))));
    assert_eq!(merge_inner(None, None), Ok(None));
    assert_eq!(
        merge_inner(Some(leaf_text("a")), Some(leaf_text("b"))),
        Ok(Some(leaf_text("b")))
    );
}

#[test]
fn lone_composite_is_refused() {
    let lone = Value::Struct(vec![field("x", leaf_int(1))]);
    assert_eq!(merge_inner(Some(lone), None), Err(MergeError::ShapeMismatch));
    let lone = Value::List(vec![leaf_int(1)]);
    assert_eq!(merge_inner(None, Some(lone)), Err(MergeError::ShapeMismatch));
}

#[test]
fn mismatched_shapes_are_refused() {
    assert_eq!(
        deep_merge(leaf_int(1), Value::List(vec![leaf_int(1)])),
        Err(MergeError::ShapeMismatch)
    );
    assert_eq!(
        deep_merge(
            Value::Tuple(vec![leaf_int(1)]),
            Value::TupleStruct(vec![leaf_int(1)])
        ),
        Err(MergeError::ShapeMismatch)
    );
}

#[test]
fn missing_named_field_is_reported() {
    let base = Value::Struct(vec![field("x", leaf_int(1))]);
    let ovr = Value::Struct(vec![field("y", leaf_int(2))]);
    assert_eq!(deep_merge(base, ovr), Err(MergeError::MissingField));
}

#[test]
fn missing_positional_field_is_reported() {
    let base = Value::TupleStruct(vec![leaf_int(1), leaf_int(2)]);
    let ovr = Value::TupleStruct(vec![leaf_int(9)]);
    assert_eq!(deep_merge(base, ovr), Err(MergeError::MissingField));
}

#[test]
fn struct_fields_merge_independently() {
    let base = Value::Struct(vec![
        field("a", present(leaf_int(1))),
        field("b", present(leaf_text("x"))),
    ]);
    let ovr = Value::Struct(vec![
        field("a", present(leaf_int(2))),
        field("b", absent()),
    ]);
    let expected = Value::Struct(vec![
        field("a", present(leaf_int(2))),
        field("b", present(leaf_text("x"))),
    ]);
    assert_eq!(deep_merge(base, ovr), Ok(expected));
}

#[test]
fn tuples_merge_by_position() {
    let base = Value::Tuple(vec![present(leaf_int(1)), absent()]);
    let ovr = Value::Tuple(vec![absent(), present(leaf_int(4))]);
    let expected = Value::Tuple(vec![present(leaf_int(1)), present(leaf_int(4))]);
    assert_eq!(deep_merge(base, ovr), Ok(expected));
}

#[test]
fn collection_replacement_matrix() {
    let empty = || Value::List(vec![]);
    let one = || Value::List(vec![leaf_int(1)]);
    let two = || Value::List(vec![leaf_int(2), leaf_int(3)]);
    assert_eq!(deep_merge(empty(), empty()), Ok(empty()));
    assert_eq!(deep_merge(empty(), one()), Ok(one()));
    assert_eq!(deep_merge(one(), empty()), Ok(one()));
    assert_eq!(deep_merge(two(), one()), Ok(one()));
}

#[test]
fn collection_replacement_other_kinds() {
    let base = Value::Array(vec![leaf_int(1), leaf_int(2)]);
    let ovr = Value::Array(vec![leaf_int(7), leaf_int(8)]);
    assert_eq!(deep_merge(base, ovr), Ok(Value::Array(vec![leaf_int(7), leaf_int(8)])));

    let base = Value::SetOf(vec![leaf_int(1)]);
    let ovr = Value::SetOf(vec![]);
    assert_eq!(deep_merge(base, ovr), Ok(Value::SetOf(vec![leaf_int(1)])));

    let base = Value::MapOf(vec![keyed("k", leaf_int(1))]);
    let ovr = Value::MapOf(vec![keyed("k", leaf_int(2)), keyed("l", leaf_int(3))]);
    assert_eq!(
        deep_merge(base, ovr),
        Ok(Value::MapOf(vec![keyed("k", leaf_int(2)), keyed("l", leaf_int(3))]))
    );
}

fn plain_variant(name: &str, fields: Vec<Value>) -> Value {
    Value::Enum(EnumValue {
        optional: false,
        variant: name.to_string(),
        payload: VariantPayload::Tuple(fields),
    })
}

#[test]
fn enum_variant_mismatch_short_circuits() {
    let base = plain_variant("Left", vec![present(leaf_int(1)), leaf_text("set")]);
    let ovr = plain_variant("Right", vec![leaf_int(9)]);
    let expected = plain_variant("Right", vec![leaf_int(9)]);
    assert_eq!(deep_merge(base, ovr), Ok(expected));
}

#[test]
fn enum_same_variant_merges_fields() {
    let base = plain_variant("Pair", vec![present(leaf_int(1)), absent()]);
    let ovr = plain_variant("Pair", vec![absent(), present(leaf_int(4))]);
    let expected = plain_variant("Pair", vec![present(leaf_int(1)), present(leaf_int(4))]);
    assert_eq!(deep_merge(base, ovr), Ok(expected));
}

#[test]
fn enum_struct_kind_payload_merges_by_name() {
    let make = |x: Value, y: Value| {
        Value::Enum(EnumValue {
            optional: false,
            variant: "Point".to_string(),
            payload: VariantPayload::Struct(vec![field("x", x), field("y", y)]),
        })
    };
    let base = make(present(leaf_int(1)), present(leaf_int(2)));
    let ovr = make(absent(), present(leaf_int(5)));
    let expected = make(present(leaf_int(1)), present(leaf_int(5)));
    assert_eq!(deep_merge(base, ovr), Ok(expected));
}

#[test]
fn optional_absence_does_not_erase() {
    let base = present(leaf_int(5));
    let ovr = absent();
    assert_eq!(deep_merge(base, ovr), Ok(present(leaf_int(5))));
}

#[test]
fn self_merge_is_identity() {
    let build = || test_struct(Some(3), Some("same"), None);
    assert_eq!(deep_merge(build(), build()), Ok(build()));
}

#[test]
fn merge_is_deterministic() {
    let build_base = || test_struct(Some(1), None, Some(true));
    let build_ovr = || test_struct(Some(2), Some("w"), None);
    let first = deep_merge(build_base(), build_ovr());
    let second = deep_merge(build_base(), build_ovr());
    assert_eq!(first, second);
}
