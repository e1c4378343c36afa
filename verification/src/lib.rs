//! Core unit system
//!
//! A dimension is a vector of seven whole exponents, one for each SI base
//! unit. Quantities carry a magnitude and such a vector; multiplying and
//! dividing them combines the vectors, and a cast gives a quantity a unit
//! only where its vector is the one that the unit declares.
//!
//! Exponents are `i32`: fractional exponents cannot be represented, and
//! combining two vectors asks that every resulting exponent fits. Magnitudes
//! are of any type with the arithmetic operators; what a product or a
//! quotient of magnitudes is, is that type's own matter.

use crate::base::BaseUnit;
use crate::prefix::Prefix;
use vstd::prelude::*;

pub mod base;
pub mod errors;
pub mod experiment;
pub mod math;
pub mod order;
pub mod prefix;
pub mod traits;

verus! {

pub trait Value: Sized {
    fn idendity() -> Self;
}

/// A base unit with a prefix
#[derive(Debug, Clone, Copy)]
pub struct SIUnit<Base: Into<BaseUnit>> {
    prefix: Prefix,
    base: Base,
}

} // verus!
