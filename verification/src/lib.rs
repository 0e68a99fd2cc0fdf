//! Generates `From` conversions for the single-payload variants of an enum.
//!
//! An enum declaration is scanned for variants that carry exactly one unnamed
//! field. Each such variant yields one conversion from the field's type into
//! the enum, so that `?` can turn a value of that type into the enum. Two such
//! variants with the same payload type would give two conflicting
//! conversions, so the whole declaration is rejected instead, with one
//! diagnostic at the first variant that repeats a type.
//!
//! - [`model`]: a declaration as plain data.
//! - [`guard`]: the search for a repeated payload type.
//! - [`synth`]: the scan that lists the conversions.
//! - [`expand`]: guard and scan together, on plain data.
//! - [`tokens`]: token streams and their constructors.
//! - [`syntax`]: the transformation from a parsed enum to output tokens.
//! - [`laws`]: what holds of the transformation for every declaration.

pub mod model;
pub mod guard;
pub mod synth;
pub mod expand;
pub mod tokens;
pub mod syntax;
pub mod laws;

pub use crate::syntax::ace_it_impl;
