//! Traits

use crate::base::RPowers;
use crate::errors::RayleighError;
use std::marker::PhantomData;
use std::ops::Add;
use std::ops::AddAssign;
use std::ops::Div;
use std::ops::Mul;
use std::ops::Neg;
use std::ops::Sub;
use std::ops::SubAssign;
use vstd::prelude::*;
use vstd::std_specs::convert::FromSpecImpl;
use vstd::std_specs::ops::AddSpec;
use vstd::std_specs::ops::AddSpecImpl;
use vstd::std_specs::ops::DivSpec;
use vstd::std_specs::ops::DivSpecImpl;
use vstd::std_specs::ops::MulSpec;
use vstd::std_specs::ops::MulSpecImpl;
use vstd::std_specs::ops::NegSpec;
use vstd::std_specs::ops::NegSpecImpl;
use vstd::std_specs::ops::SubSpec;
use vstd::std_specs::ops::SubSpecImpl;

verus! {

/// What a magnitude can be: a copyable number with the four operations and
/// negation, each giving a number of the same kind.
pub trait Number: Copy + Add<Output = Self> + Sub<Output = Self> + Mul<Output = Self> + Div<
    Output = Self,
> + Neg<Output = Self> {

}

impl<
    T: Copy + Add<Output = T> + Sub<Output = T> + Mul<Output = T> + Div<Output = T> + Neg<
        Output = T,
    >,
> Number for T {

}

/// Marks a quantity whose dimension is known only from its exponents.
#[derive(Clone, Copy, Debug, PartialEq, Eq, PartialOrd, Ord, Hash)]
pub struct Unknown;

/// The unit of a pure number.
#[derive(Clone, Copy, Debug, PartialEq, Eq, PartialOrd, Ord, Hash)]
pub struct Unitless;

impl RayleighUnit for Unitless {
    open spec fn declared() -> RPowers {
        RPowers::from_ints(crate::base::identity())
    }

    fn units() -> (powers: RPowers) {
        let powers = RPowers::default();
        proof {
            RPowers::lemma_from_view(powers);
        }
        powers
    }
}

/// A unit: a type that declares its dimension.
pub trait RayleighUnit {
    /// The dimension of the unit. It belongs to the type alone, so it is the
    /// same whenever it is asked for.
    ///
    /// Proofs speak of this function and nothing ever runs it. A unit that is
    /// written outside of Verus gives it the body of `units`.
    spec fn declared() -> RPowers;

    /// Computes the declared dimension.
    fn units() -> (powers: RPowers)
        ensures
            powers == Self::declared(),
    ;
}

/// A value that carries a magnitude.
pub trait WithValue<N: Number> {
    fn value(&self) -> N;
}

/// A magnitude with its dimension, labelled with a unit `T`.
///
/// With `T` = [`Unknown`] the label says nothing and the dimension is the
/// one that the exponents give. With a unit for `T` the label is a claim,
/// and [`AnyUnit::well_typed`] says that it is true.
#[derive(Debug, PartialEq, Eq, PartialOrd, Ord, Hash)]
pub struct AnyUnit<T, N: Number> {
    pub powers: RPowers,
    pub value: N,
    pub _phantom: PhantomData<T>,
}

impl<T, N: Number> Clone for AnyUnit<T, N> {
    fn clone(&self) -> (copy: Self)
        ensures
            copy == *self,
    {
        AnyUnit { powers: self.powers, value: self.value, _phantom: PhantomData }
    }
}

impl<T, N: Number> AnyUnit<T, N> {
    /// The same magnitude and dimension under the label `U`.
    pub open spec fn relabelled<U>(self) -> AnyUnit<U, N> {
        AnyUnit { powers: self.powers, value: self.value, _phantom: PhantomData }
    }

    /// A quantity from its parts. Nothing is compared: whether the
    /// dimension is the one that `T` declares is up to the caller.
    pub fn new(value: N, powers: RPowers) -> (any: Self)
        ensures
            any == (AnyUnit::<T, N> { powers, value, _phantom: PhantomData }),
    {
        AnyUnit { powers, value, _phantom: PhantomData }
    }

    /// Does what `new` does.
    pub fn new_of(value: N, powers: RPowers) -> (any: Self)
        ensures
            any == (AnyUnit::<T, N> { powers, value, _phantom: PhantomData }),
    {
        AnyUnit { powers, value, _phantom: PhantomData }
    }
}

impl<T: RayleighUnit, N: Number> AnyUnit<T, N> {
    /// The quantity has the dimension that its unit declares.
    pub open spec fn well_typed(self) -> bool {
        self.powers == T::declared()
    }
}

impl<T: RayleighUnit + WithValue<N>, N: Number> FromSpecImpl<T> for AnyUnit<T, N> {
    /// The magnitude is whatever `unit.value()` hands over, so the result is
    /// stated by `from` itself.
    open spec fn obeys_from_spec() -> bool {
        false
    }

    open spec fn from_spec(unit: T) -> Self {
        AnyUnit { powers: T::declared(), value: arbitrary(), _phantom: PhantomData }
    }
}

impl<T: RayleighUnit + WithValue<N>, N: Number> From<T> for AnyUnit<T, N> {
    /// The magnitude of `unit` with the dimension that `T` declares.
    fn from(unit: T) -> (any: Self)
        ensures
            any.powers == T::declared(),
            call_ensures(T::value, (&unit,), any.value),
    {
        AnyUnit::new(unit.value(), T::units())
    }
}

impl<T, N: Number> Copy for AnyUnit<T, N> {

}

impl<L, R, N: Number> MulSpecImpl<AnyUnit<R, N>> for AnyUnit<L, N> {
    open spec fn obeys_mul_spec() -> bool {
        N::obeys_mul_spec()
    }

    /// The exponents can be combined, and `N` accepts the product.
    open spec fn mul_req(self, rhs: AnyUnit<R, N>) -> bool {
        &&& RPowers::representable(crate::math::combine_mul(self.powers@, rhs.powers@))
        &&& self.value.mul_req(rhs.value)
    }

    open spec fn mul_spec(self, rhs: AnyUnit<R, N>) -> AnyUnit<Unknown, N> {
        AnyUnit {
            powers: RPowers::from_ints(crate::math::combine_mul(self.powers@, rhs.powers@)),
            value: self.value.mul_spec(rhs.value),
            _phantom: PhantomData,
        }
    }
}

impl<L, R, N: Number> Mul<AnyUnit<R, N>> for AnyUnit<L, N> {
    type Output = AnyUnit<Unknown, N>;

    fn mul(self, rhs: AnyUnit<R, N>) -> (product: AnyUnit<Unknown, N>)
        ensures
            product.powers@ == crate::math::combine_mul(self.powers@, rhs.powers@),
            call_ensures(N::mul, (self.value, rhs.value), product.value),
    {
        let powers = self.powers * rhs.powers;
        let value = self.value * rhs.value;
        AnyUnit::new(value, powers)
    }
}

impl<L, R, N: Number> DivSpecImpl<AnyUnit<R, N>> for AnyUnit<L, N> {
    open spec fn obeys_div_spec() -> bool {
        N::obeys_div_spec()
    }

    /// The exponents can be combined, and `N` accepts the quotient.
    open spec fn div_req(self, rhs: AnyUnit<R, N>) -> bool {
        &&& RPowers::representable(crate::math::combine_div(self.powers@, rhs.powers@))
        &&& self.value.div_req(rhs.value)
    }

    open spec fn div_spec(self, rhs: AnyUnit<R, N>) -> AnyUnit<Unknown, N> {
        AnyUnit {
            powers: RPowers::from_ints(crate::math::combine_div(self.powers@, rhs.powers@)),
            value: self.value.div_spec(rhs.value),
            _phantom: PhantomData,
        }
    }
}

impl<L, R, N: Number> Div<AnyUnit<R, N>> for AnyUnit<L, N> {
    type Output = AnyUnit<Unknown, N>;

    fn div(self, rhs: AnyUnit<R, N>) -> (quotient: AnyUnit<Unknown, N>)
        ensures
            quotient.powers@ == crate::math::combine_div(self.powers@, rhs.powers@),
            call_ensures(N::div, (self.value, rhs.value), quotient.value),
    {
        let powers = self.powers / rhs.powers;
        let value = self.value / rhs.value;
        AnyUnit::new(value, powers)
    }
}

impl<T, N: Number> AddSpecImpl for AnyUnit<T, N> {
    open spec fn obeys_add_spec() -> bool {
        N::obeys_add_spec()
    }

    open spec fn add_req(self, rhs: Self) -> bool {
        self.value.add_req(rhs.value)
    }

    open spec fn add_spec(self, rhs: Self) -> Self {
        AnyUnit { powers: self.powers, value: self.value.add_spec(rhs.value), _phantom: PhantomData }
    }
}

impl<T, N: Number> Add for AnyUnit<T, N> {
    type Output = AnyUnit<T, N>;

    fn add(self, rhs: Self) -> (sum: Self)
        ensures
            sum.powers == self.powers,
            call_ensures(N::add, (self.value, rhs.value), sum.value),
    {
        let value = self.value + rhs.value;
        AnyUnit::new(value, self.powers)
    }
}

impl<T, N: Number> AddAssign for AnyUnit<T, N> {
    fn add_assign(&mut self, rhs: Self)
        requires
            old(self).value.add_req(rhs.value),
        ensures
            final(self).powers == old(self).powers,
            call_ensures(N::add, (old(self).value, rhs.value), final(self).value),
    {
        self.value = self.value + rhs.value;
    }
}

impl<T, N: Number> SubSpecImpl for AnyUnit<T, N> {
    open spec fn obeys_sub_spec() -> bool {
        N::obeys_sub_spec()
    }

    open spec fn sub_req(self, rhs: Self) -> bool {
        self.value.sub_req(rhs.value)
    }

    open spec fn sub_spec(self, rhs: Self) -> Self {
        AnyUnit { powers: self.powers, value: self.value.sub_spec(rhs.value), _phantom: PhantomData }
    }
}

impl<T, N: Number> Sub for AnyUnit<T, N> {
    type Output = AnyUnit<T, N>;

    fn sub(self, rhs: Self) -> (difference: Self)
        ensures
            difference.powers == self.powers,
            call_ensures(N::sub, (self.value, rhs.value), difference.value),
    {
        let value = self.value - rhs.value;
        AnyUnit::new(value, self.powers)
    }
}

impl<T, N: Number> SubAssign for AnyUnit<T, N> {
    fn sub_assign(&mut self, rhs: Self)
        requires
            old(self).value.sub_req(rhs.value),
        ensures
            final(self).powers == old(self).powers,
            call_ensures(N::sub, (old(self).value, rhs.value), final(self).value),
    {
        self.value = self.value - rhs.value;
    }
}

impl<T, N: Number> NegSpecImpl for AnyUnit<T, N> {
    open spec fn obeys_neg_spec() -> bool {
        N::obeys_neg_spec()
    }

    open spec fn neg_req(self) -> bool {
        self.value.neg_req()
    }

    open spec fn neg_spec(self) -> Self {
        AnyUnit { powers: self.powers, value: self.value.neg_spec(), _phantom: PhantomData }
    }
}

impl<T, N: Number> Neg for AnyUnit<T, N> {
    type Output = AnyUnit<T, N>;

    fn neg(self) -> (negated: Self)
        ensures
            negated.powers == self.powers,
            call_ensures(N::neg, (self.value,), negated.value),
    {
        let value = self.value.neg();
        AnyUnit::new(value, self.powers)
    }
}

impl<N: Number> AnyUnit<Unknown, N> {
    /// What a cast to `T` comes to: the same magnitude and dimension under
    /// the unit `T` when the dimension is the one that `T` declares, else
    /// the dimension that was met and the one that `T` declares.
    pub open spec fn cast_result<T: RayleighUnit>(self) -> Result<AnyUnit<T, N>, RayleighError> {
        if self.powers == T::declared() {
            Ok(self.relabelled::<T>())
        } else {
            Err(RayleighError::CastFailed { from: self.powers, to: T::declared() })
        }
    }

    /// Forgets the unit of a quantity. This cannot fail.
    pub fn from_static<T>(typed: AnyUnit<T, N>) -> (any: Self)
        ensures
            any == typed.relabelled::<Unknown>(),
    {
        AnyUnit::new_of(typed.value, typed.powers)
    }

    /// Gives the quantity the unit `T`, if it has the dimension of `T`.
    pub fn try_cast<T: RayleighUnit>(self) -> (cast: Result<AnyUnit<T, N>, RayleighError>)
        ensures
            cast == self.cast_result::<T>(),
            cast matches Ok(typed) ==> typed.well_typed() && typed.value == self.value,
            cast is Err <==> self.powers@ != T::declared()@,
    {
        proof {
            RPowers::lemma_view_injective(self.powers, T::declared());
        }
        let target = T::units();
        if target == self.powers {
            Ok(AnyUnit::new_of(self.value, self.powers))
        } else {
            Err(RayleighError::CastFailed { from: self.powers, to: target })
        }
    }

    /// Gives the unit `T` to a quantity that is known to have the dimension
    /// of `T`. Where that is not known, `try_cast` is the function to call.
    pub fn cast<T: RayleighUnit>(self) -> (typed: AnyUnit<T, N>)
        requires
            self.powers == T::declared(),
        ensures
            typed == self.relabelled::<T>(),
            typed.well_typed(),
    {
        self.try_cast::<T>().unwrap()
    }

    /// Casts to `T`, and makes a `T` of the magnitude.
    pub fn try_cast_into<T: RayleighUnit + From<N>>(self) -> (cast: Result<T, RayleighError>)
        ensures
            match cast {
                Ok(unit) => self.powers == T::declared() && call_ensures(
                    T::from,
                    (self.value,),
                    unit,
                ),
                Err(error) => self.cast_result::<T>() == Err::<AnyUnit<T, N>, RayleighError>(
                    error,
                ),
            },
    {
        match self.try_cast::<T>() {
            Ok(typed) => Ok(T::from(typed.value)),
            Err(error) => Err(error),
        }
    }

    /// Makes a `T` of the magnitude of a quantity that is known to have the
    /// dimension of `T`.
    pub fn cast_into<T: RayleighUnit + From<N>>(self) -> (unit: T)
        requires
            self.powers == T::declared(),
        ensures
            call_ensures(T::from, (self.value,), unit),
    {
        self.try_cast_into::<T>().unwrap()
    }
}

/// A quantity that has the dimension of its unit `T`, stripped of the unit
/// and cast to `T` again, is the quantity it was: the cast succeeds, and the
/// magnitude is unchanged.
pub proof fn lemma_cast_restores<T: RayleighUnit, N: Number>(typed: AnyUnit<T, N>)
    requires
        typed.well_typed(),
    ensures
        typed.relabelled::<Unknown>().cast_result::<T>() == Ok::<AnyUnit<T, N>, RayleighError>(
            typed,
        ),
{
}

/// A cast to a unit that declares another dimension than the quantity has
/// never succeeds: it fails with the dimension that was met and the one that
/// `T` declares.
pub proof fn lemma_cast_detects_mismatch<T: RayleighUnit, N: Number>(any: AnyUnit<Unknown, N>)
    requires
        any.powers@ != T::declared()@,
    ensures
        any.cast_result::<T>() == Err::<AnyUnit<T, N>, RayleighError>(
            RayleighError::CastFailed { from: any.powers, to: T::declared() },
        ),
{
}

/// Dividing quantities fails on no magnitude of its own account. Where the
/// magnitude type admits every division, as a floating-point type does, the
/// quotient of two quantities is admitted whenever the exponents fit, be the
/// divisor's magnitude zero or not; its dimension is then `combine_div` of
/// the two dimensions, as `/` states.
pub proof fn lemma_div_admits_every_magnitude<L, R, N: Number>(
    a: AnyUnit<L, N>,
    b: AnyUnit<R, N>,
)
    requires
        forall|x: N, y: N| #[trigger] x.div_req(y),
        RPowers::representable(crate::math::combine_div(a.powers@, b.powers@)),
    ensures
        DivSpec::div_req(a, b),
{
}

/// The dimension of a quotient is the same whatever the two magnitudes are.
pub proof fn lemma_div_dimension_ignores_magnitudes<L, R, N: Number>(
    a: AnyUnit<L, N>,
    b: AnyUnit<R, N>,
    quotient: AnyUnit<Unknown, N>,
)
    requires
        call_ensures(AnyUnit::<L, N>::div, (a, b), quotient),
    ensures
        quotient.powers@ == crate::math::combine_div(a.powers@, b.powers@),
        quotient.powers == RPowers::from_ints(
            crate::math::combine_div(a.powers@, b.powers@),
        ),
{
    RPowers::lemma_from_view(quotient.powers);
}

/// Adding two quantities of unit `T` gives a quantity with the dimension
/// that `T` declares.
pub proof fn lemma_add_preserves_dimension<T: RayleighUnit, N: Number>(
    a: AnyUnit<T, N>,
    b: AnyUnit<T, N>,
    sum: AnyUnit<T, N>,
)
    requires
        a.well_typed(),
        call_ensures(AnyUnit::<T, N>::add, (a, b), sum),
    ensures
        sum.well_typed(),
{
}

} // verus!
