//! Arithmetic on exponent vectors.
//!
//! Multiplying two quantities adds the exponents of their dimensions, and
//! dividing subtracts them; both are done slot by slot.
//!
//! The sums and differences are exact. An operator is defined for two
//! vectors when every resulting exponent fits in an `i32`; at the edge of
//! that range it is not.

use crate::base::RPowers;
use crate::base::RValue;
use crate::traits::Number;
use std::ops::Add;
use std::ops::Div;
use std::ops::Mul;
use std::ops::Sub;
use vstd::prelude::*;
use vstd::std_specs::ops::AddSpecImpl;
use vstd::std_specs::ops::DivSpecImpl;
use vstd::std_specs::ops::MulSpec;
use vstd::std_specs::ops::MulSpecImpl;
use vstd::std_specs::ops::SubSpecImpl;

verus! {

/// The dimension of a product: the element-wise sum of the exponents.
pub open spec fn combine_mul(a: Seq<int>, b: Seq<int>) -> Seq<int> {
    Seq::new(7, |i: int| a[i] + b[i])
}

/// The dimension of a quotient: the element-wise difference of the exponents.
pub open spec fn combine_div(a: Seq<int>, b: Seq<int>) -> Seq<int> {
    Seq::new(7, |i: int| a[i] - b[i])
}

/// Multiplication of quantities is commutative in the dimension:
/// `combine_mul(a, b) == combine_mul(b, a)` for all exponent vectors.
pub proof fn lemma_combine_mul_commutative(a: RPowers, b: RPowers)
    ensures
        combine_mul(a@, b@) == combine_mul(b@, a@),
{
    assert(combine_mul(a@, b@) =~= combine_mul(b@, a@));
}

/// Dividing out what was multiplied in gives back the dimension one began with:
/// `combine_div(combine_mul(a, b), b) == a` for all exponent vectors.
pub proof fn lemma_combine_div_inverts_mul(a: RPowers, b: RPowers)
    ensures
        combine_div(combine_mul(a@, b@), b@) == a@,
{
    assert(combine_div(combine_mul(a@, b@), b@) =~= a@);
}

impl<N: Number> MulSpecImpl for RValue<N> {
    open spec fn obeys_mul_spec() -> bool {
        N::obeys_mul_spec()
    }

    /// The exponents can be combined, and `N` accepts the product.
    open spec fn mul_req(self, rhs: Self) -> bool {
        &&& RPowers::representable(combine_mul(self.units@, rhs.units@))
        &&& self.value.mul_req(rhs.value)
    }

    open spec fn mul_spec(self, rhs: Self) -> Self {
        RValue {
            value: self.value.mul_spec(rhs.value),
            units: RPowers::from_ints(combine_mul(self.units@, rhs.units@)),
        }
    }
}

impl<N: Number> Mul for RValue<N> {
    type Output = Self;

    /// The product of the magnitudes, with the dimension of a product.
    fn mul(self, rhs: Self) -> (product: Self)
        ensures
            product.units@ == combine_mul(self.units@, rhs.units@),
            call_ensures(N::mul, (self.value, rhs.value), product.value),
    {
        RValue { value: self.value * rhs.value, units: self.units * rhs.units }
    }
}

/* === RPowers === */

/* Mul */
impl MulSpecImpl for RPowers {
    open spec fn obeys_mul_spec() -> bool {
        true
    }

    /// Every exponent of the product fits in an `i32`.
    open spec fn mul_req(self, rhs: Self) -> bool {
        RPowers::representable(combine_mul(self@, rhs@))
    }

    open spec fn mul_spec(self, rhs: Self) -> Self {
        RPowers::from_ints(combine_mul(self@, rhs@))
    }
}

impl Mul for RPowers {
    type Output = Self;

    fn mul(self, rhs: Self) -> (product: Self)
        ensures
            product@ == combine_mul(self@, rhs@),
    {
        let mut product = self;
        let mut k: usize = 0;
        while k < 7
            invariant
                k <= 7,
                RPowers::representable(combine_mul(self@, rhs@)),
                forall|i: int| 0 <= i < k ==> product.powers[i] == self.powers[i] + rhs.powers[i],
                forall|i: int| k <= i < 7 ==> product.powers[i] == self.powers[i],
            decreases 7 - k,
        {
            assert(combine_mul(self@, rhs@)[k as int] == self@[k as int] + rhs@[k as int]);
            product.powers[k] = product.powers[k] + rhs.powers[k];
            k += 1;
        }
        proof {
            assert(product@ =~= combine_mul(self@, rhs@));
            RPowers::lemma_from_ints(combine_mul(self@, rhs@));
            RPowers::lemma_view_injective(product, RPowers::from_ints(combine_mul(self@, rhs@)));
        }
        product
    }
}

/* Div */
impl DivSpecImpl for RPowers {
    open spec fn obeys_div_spec() -> bool {
        true
    }

    /// Every exponent of the quotient fits in an `i32`.
    open spec fn div_req(self, rhs: Self) -> bool {
        RPowers::representable(combine_div(self@, rhs@))
    }

    open spec fn div_spec(self, rhs: Self) -> Self {
        RPowers::from_ints(combine_div(self@, rhs@))
    }
}

impl Div for RPowers {
    type Output = Self;

    fn div(self, rhs: Self) -> (quotient: Self)
        ensures
            quotient@ == combine_div(self@, rhs@),
    {
        let mut quotient = self;
        let mut k: usize = 0;
        while k < 7
            invariant
                k <= 7,
                RPowers::representable(combine_div(self@, rhs@)),
                forall|i: int| 0 <= i < k ==> quotient.powers[i] == self.powers[i] - rhs.powers[i],
                forall|i: int| k <= i < 7 ==> quotient.powers[i] == self.powers[i],
            decreases 7 - k,
        {
            assert(combine_div(self@, rhs@)[k as int] == self@[k as int] - rhs@[k as int]);
            quotient.powers[k] = quotient.powers[k] - rhs.powers[k];
            k += 1;
        }
        proof {
            assert(quotient@ =~= combine_div(self@, rhs@));
            RPowers::lemma_from_ints(combine_div(self@, rhs@));
            RPowers::lemma_view_injective(quotient, RPowers::from_ints(combine_div(self@, rhs@)));
        }
        quotient
    }
}

/* Add */
impl AddSpecImpl for RPowers {
    open spec fn obeys_add_spec() -> bool {
        true
    }

    /// Every exponent of the sum fits in an `i32`.
    open spec fn add_req(self, rhs: Self) -> bool {
        RPowers::representable(combine_mul(self@, rhs@))
    }

    open spec fn add_spec(self, rhs: Self) -> Self {
        RPowers::from_ints(combine_mul(self@, rhs@))
    }
}

impl Add for RPowers {
    type Output = Self;

    /// The element-wise sum, which is also what `*` computes.
    fn add(self, rhs: Self) -> (sum: Self)
        ensures
            sum@ == combine_mul(self@, rhs@),
    {
        self * rhs
    }
}

/* Sub */
impl SubSpecImpl for RPowers {
    open spec fn obeys_sub_spec() -> bool {
        true
    }

    /// Every exponent of the difference fits in an `i32`.
    open spec fn sub_req(self, rhs: Self) -> bool {
        RPowers::representable(combine_div(self@, rhs@))
    }

    open spec fn sub_spec(self, rhs: Self) -> Self {
        RPowers::from_ints(combine_div(self@, rhs@))
    }
}

impl Sub for RPowers {
    type Output = Self;

    /// The element-wise difference, which is also what `/` computes.
    fn sub(self, rhs: Self) -> (difference: Self)
        ensures
            difference@ == combine_div(self@, rhs@),
    {
        self / rhs
    }
}

} // verus!
