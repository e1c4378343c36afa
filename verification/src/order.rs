//! The order of exponent vectors: by the first slot in which two differ.

use crate::base::RPowers;
use std::cmp::Ordering;
use vstd::prelude::*;
use vstd::std_specs::cmp::PartialOrdSpecImpl;

verus! {

/// The least slot from `from` on in which `a` and `b` differ, and 7 if they
/// agree in all of them.
pub open spec fn first_difference(a: Seq<int>, b: Seq<int>, from: int) -> int
    decreases 7 - from,
{
    if from >= 7 {
        7
    } else if a[from] != b[from] {
        from
    } else {
        first_difference(a, b, from + 1)
    }
}

/// The lexicographic order of two exponent vectors as a sign: negative where
/// `a` comes first, zero where they are equal, positive where `b` comes
/// first.
pub open spec fn lexicographic(a: Seq<int>, b: Seq<int>) -> int {
    let slot = first_difference(a, b, 0);
    if slot >= 7 {
        0
    } else if a[slot] < b[slot] {
        -1
    } else {
        1
    }
}

/// The sign is zero for equal vectors and for no others.
pub proof fn lemma_lexicographic_equal(a: RPowers, b: RPowers)
    ensures
        lexicographic(a@, b@) == 0 <==> a == b,
{
    reveal_with_fuel(first_difference, 8);
    RPowers::lemma_view_injective(a, b);
    if lexicographic(a@, b@) == 0 {
        assert(a@ =~= b@);
    }
}

/// Swapping the two vectors turns the sign around.
pub proof fn lemma_lexicographic_antisymmetric(a: RPowers, b: RPowers)
    ensures
        lexicographic(a@, b@) == -lexicographic(b@, a@),
{
    reveal_with_fuel(first_difference, 8);
}

fn sign_of_first_difference(a: &RPowers, b: &RPowers) -> (sign: i8)
    ensures
        sign == lexicographic(a@, b@),
{
    let mut k: usize = 0;
    while k < 7
        invariant
            k <= 7,
            first_difference(a@, b@, 0) == first_difference(a@, b@, k as int),
        decreases 7 - k,
    {
        if a.powers[k] < b.powers[k] {
            return -1;
        }
        if a.powers[k] > b.powers[k] {
            return 1;
        }
        k += 1;
    }
    0
}

impl PartialOrd for RPowers {
    fn partial_cmp(&self, other: &Self) -> (order: Option<Ordering>) {
        let sign = sign_of_first_difference(self, other);
        if sign < 0 {
            Some(Ordering::Less)
        } else if sign > 0 {
            Some(Ordering::Greater)
        } else {
            Some(Ordering::Equal)
        }
    }
}

impl PartialOrdSpecImpl for RPowers {
    open spec fn obeys_partial_cmp_spec() -> bool {
        true
    }

    /// Exponent vectors are ordered lexicographically, slot by slot.
    open spec fn partial_cmp_spec(&self, other: &Self) -> Option<Ordering> {
        let sign = lexicographic(self@, other@);
        if sign < 0 {
            Some(Ordering::Less)
        } else if sign > 0 {
            Some(Ordering::Greater)
        } else {
            Some(Ordering::Equal)
        }
    }
}

} // verus!
