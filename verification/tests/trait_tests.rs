use deep_merge::fieldwise::DeepMerge;

#[derive(Debug, PartialEq)]
struct TestStruct {
    a: Option<i32>,
    b: Option<String>,
}

impl DeepMerge for TestStruct {
    fn deep_merge(&self, other: &Self) -> Self {
        Self {
            a: self.a.deep_merge(&other.a),
            b: self.b.deep_merge(&other.b),
        }
    }
}

#[test]
fn test_deep_merge() {
    let a = TestStruct {
        a: Some(1),
        b: Some("a".to_string()),
    };
    let b = TestStruct { a: Some(2), b: None };
    let c = a.deep_merge(&b);
    assert_eq!(
        c,
        TestStruct {
            a: Some(2),
            b: Some("a".to_string())
        }
    );
}

#[test]
fn scalar_leaf_precedence() {
    assert_eq!(1u32.deep_merge(&2u32), 2);
    assert_eq!((-7i64).deep_merge(&9i64), 9);
    assert_eq!(true.deep_merge(&false), false);
    assert_eq!('x'.deep_merge(&'y'), 'y');
    assert_eq!("a".to_string().deep_merge(&"b".to_string()), "b".to_string());
}

#[test]
fn option_rules() {
    assert_eq!(Some(1i32).deep_merge(&Some(2)), Some(2));
    assert_eq!(Some(1i32).deep_merge(&None), Some(1));
    assert_eq!(None.deep_merge(&Some(2i32)), Some(2));
    assert_eq!((None::<i32>).deep_merge(&None), None);
    let kept: Option<String> = Some("kept".to_string());
    assert_eq!(kept.deep_merge(&None), Some("kept".to_string()));
}

#[test]
fn option_merges_nested() {
    let a: Option<Option<i32>> = Some(Some(1));
    let b: Option<Option<i32>> = Some(None);
    assert_eq!(a.deep_merge(&b), Some(Some(1)));
}
