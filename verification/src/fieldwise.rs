//! The closed-form merge facility: a trait for deep merging two values of
//! one statically-known type, recursing per declared field, with the same
//! leaf rule as the engine — the other side's value wins.
//!
//! Implementations for scalar types return the other side's value outright.
//! The implementation for `Option` merges two present values, keeps the one
//! present value otherwise, and stays absent only when both sides are
//! absent.  A struct type implements the trait by merging field by field.
use vstd::prelude::*;

verus! {

/// Deep merge of two values of one type, the second taking precedence.
pub trait DeepMerge: Sized {
    /// Which results are a correct merge of `self` under `other`.  The
    /// default admits any result, so an implementation outside the verifier
    /// only writes `deep_merge`; every implementation of this crate
    /// overrides it and pins the result exactly, up to what the type's
    /// `Clone` promises.
    open spec fn is_merge_of(self, other: Self, merged: Self) -> bool {
        true
    }

    /// Deep merge two values of the same type; `other` takes precedence.
    fn deep_merge(&self, other: &Self) -> (r: Self)
        ensures
            self.is_merge_of(*other, r),
    ;
}

impl DeepMerge for bool {
    open spec fn is_merge_of(self, other: Self, merged: Self) -> bool {
        merged == other
    }

    fn deep_merge(&self, other: &Self) -> (r: Self) {
        *other
    }
}

impl DeepMerge for char {
    open spec fn is_merge_of(self, other: Self, merged: Self) -> bool {
        merged == other
    }

    fn deep_merge(&self, other: &Self) -> (r: Self) {
        *other
    }
}

impl DeepMerge for u8 {
    open spec fn is_merge_of(self, other: Self, merged: Self) -> bool {
        merged == other
    }

    fn deep_merge(&self, other: &Self) -> (r: Self) {
        *other
    }
}

impl DeepMerge for u16 {
    open spec fn is_merge_of(self, other: Self, merged: Self) -> bool {
        merged == other
    }

    fn deep_merge(&self, other: &Self) -> (r: Self) {
        *other
    }
}

impl DeepMerge for u32 {
    open spec fn is_merge_of(self, other: Self, merged: Self) -> bool {
        merged == other
    }

    fn deep_merge(&self, other: &Self) -> (r: Self) {
        *other
    }
}

impl DeepMerge for u64 {
    open spec fn is_merge_of(self, other: Self, merged: Self) -> bool {
        merged == other
    }

    fn deep_merge(&self, other: &Self) -> (r: Self) {
        *other
    }
}

impl DeepMerge for u128 {
    open spec fn is_merge_of(self, other: Self, merged: Self) -> bool {
        merged == other
    }

    fn deep_merge(&self, other: &Self) -> (r: Self) {
        *other
    }
}

impl DeepMerge for usize {
    open spec fn is_merge_of(self, other: Self, merged: Self) -> bool {
        merged == other
    }

    fn deep_merge(&self, other: &Self) -> (r: Self) {
        *other
    }
}

impl DeepMerge for i8 {
    open spec fn is_merge_of(self, other: Self, merged: Self) -> bool {
        merged == other
    }

    fn deep_merge(&self, other: &Self) -> (r: Self) {
        *other
    }
}

impl DeepMerge for i16 {
    open spec fn is_merge_of(self, other: Self, merged: Self) -> bool {
        merged == other
    }

    fn deep_merge(&self, other: &Self) -> (r: Self) {
        *other
    }
}

impl DeepMerge for i32 {
    open spec fn is_merge_of(self, other: Self, merged: Self) -> bool {
        merged == other
    }

    fn deep_merge(&self, other: &Self) -> (r: Self) {
        *other
    }
}

impl DeepMerge for i64 {
    open spec fn is_merge_of(self, other: Self, merged: Self) -> bool {
        merged == other
    }

    fn deep_merge(&self, other: &Self) -> (r: Self) {
        *other
    }
}

impl DeepMerge for i128 {
    open spec fn is_merge_of(self, other: Self, merged: Self) -> bool {
        merged == other
    }

    fn deep_merge(&self, other: &Self) -> (r: Self) {
        *other
    }
}

impl DeepMerge for isize {
    open spec fn is_merge_of(self, other: Self, merged: Self) -> bool {
        merged == other
    }

    fn deep_merge(&self, other: &Self) -> (r: Self) {
        *other
    }
}

impl DeepMerge for String {
    open spec fn is_merge_of(self, other: Self, merged: Self) -> bool {
        merged == other
    }

    fn deep_merge(&self, other: &Self) -> (r: Self) {
        other.clone()
    }
}

impl<T: DeepMerge + Clone> DeepMerge for Option<T> {
    /// Two present values merge; one present value is kept (cloned); two
    /// absent values stay absent.
    open spec fn is_merge_of(self, other: Self, merged: Self) -> bool {
        match (self, other) {
            (Some(a), Some(b)) => merged matches Some(m) && a.is_merge_of(b, m),
            (Some(a), None) => merged matches Some(m) && cloned::<T>(a, m),
            (None, Some(b)) => merged matches Some(m) && cloned::<T>(b, m),
            (None, None) => merged is None,
        }
    }

    fn deep_merge(&self, other: &Self) -> (r: Self) {
        match (self, other) {
            (Some(a), Some(b)) => Some(a.deep_merge(b)),
            (Some(a), None) => Some(a.clone()),
            (None, Some(b)) => Some(b.clone()),
            (None, None) => None,
        }
    }
}

} // verus!
