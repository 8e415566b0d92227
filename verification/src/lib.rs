//! Structural deep merge for layered configuration values.
//!
//! Two values of the same declared shape are merged into one: wherever both
//! sides carry a leaf, the override side wins; wherever only one side carries
//! data, that side wins; collections are replaced whole; an absent optional
//! on the override side never erases a present base value.
//!
//! The crate has two parts.  The merge engine in [`engine`] works on the
//! runtime value model of [`value`]: a tagged union over the closed taxonomy
//! of shapes a value can report (leaf, struct, tuple struct, tuple, enum,
//! list, array, map, set).  The closed-form facility in [`fieldwise`] is a
//! trait for statically-typed field-wise merging with the same leaf rule.
pub mod engine;
pub mod fieldwise;
pub mod laws;
pub mod value;
