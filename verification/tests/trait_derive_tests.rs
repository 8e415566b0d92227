//! The canonical field-wise struct implementation, written out in full: one
//! `deep_merge` call per declared field.
use deep_merge::fieldwise::DeepMerge;

#[derive(Debug, PartialEq)]
struct TestStruct {
    a: Option<i32>,
    b: Option<String>,
}

impl DeepMerge for TestStruct {
    fn deep_merge(&self, other: &Self) -> Self {
        Self {
            a: self.a.deep_merge(&other.a),
            b: self.b.deep_merge(&other.b),
        }
    }
}

#[test]
fn test_deep_merge_derive() {
    let a = TestStruct {
        a: Some(1),
        b: Some("a".to_string()),
    };
    let b = TestStruct { a: Some(2), b: None };
    let c = a.deep_merge(&b);
    assert_eq!(
        c,
        TestStruct {
            a: Some(2),
            b: Some("a".to_string())
        }
    );
}
