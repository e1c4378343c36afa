//! Errors

use crate::base::RPowers;
use vstd::prelude::*;

verus! {

/// What can go wrong when a quantity is given a unit: its dimension is not
/// the one that the unit declares. There is no other error.
#[derive(Debug, PartialEq, Eq)]
pub enum RayleighError {
    /// A cast met dimension `from` where the target unit declares `to`.
    CastFailed { from: RPowers, to: RPowers },
}

} // verus!
