//! A derived unit

use crate::base::RPowers;
use crate::base::TypedValue;
use crate::base::UnitPower;
use crate::traits::Number;
use crate::traits::RayleighUnit;
use vstd::prelude::*;
use vstd::std_specs::convert::FromSpecImpl;
use vstd::std_specs::convert::IntoSpecImpl;

verus! {

/// Kg m s^-2
///
/// SI unit of force
#[derive(Copy, Debug, PartialEq, Eq, PartialOrd, Ord, Hash)]
pub struct Newton<N: Number>(pub N);

impl<N: Number> Clone for Newton<N> {
    fn clone(&self) -> (copy: Self)
        ensures
            copy == *self,
    {
        Newton(self.0)
    }
}

impl<N: Number> RayleighUnit for Newton<N> {
    open spec fn declared() -> RPowers {
        RPowers::from_ints(seq![1, 1, -2, 0, 0, 0, 0])
    }

    fn units() -> (powers: RPowers) {
        let powers = vec![UnitPower::kilogram(1), UnitPower::meter(1), UnitPower::second(-2)];
        let units = RPowers::new(powers);
        proof {
            reveal_with_fuel(crate::base::declared_by, 4);
            assert(units@ =~= seq![1, 1, -2, 0, 0, 0, 0]);
            RPowers::lemma_from_ints(seq![1, 1, -2, 0, 0, 0, 0]);
            RPowers::lemma_view_injective(units, Self::declared());
        }
        units
    }
}

impl<N: Number> IntoSpecImpl<TypedValue<Newton<N>, N>> for Newton<N> {
    open spec fn obeys_into_spec() -> bool {
        true
    }

    open spec fn into_spec(self) -> TypedValue<Newton<N>, N> {
        TypedValue::typed(crate::base::RValue { value: self.0, units: Self::declared() })
    }
}

impl<N: Number> Into<TypedValue<Newton<N>, N>> for Newton<N> {
    fn into(self) -> (typed: TypedValue<Newton<N>, N>) {
        let typed = TypedValue::new(self.0);
        proof {
            TypedValue::<Newton<N>, N>::lemma_typed_view(typed@);
        }
        typed
    }
}

impl<N: Number> FromSpecImpl<TypedValue<Newton<N>, N>> for Newton<N> {
    open spec fn obeys_from_spec() -> bool {
        true
    }

    open spec fn from_spec(value: TypedValue<Newton<N>, N>) -> Self {
        Newton(value@.value)
    }
}

impl<N: Number> From<TypedValue<Newton<N>, N>> for Newton<N> {
    fn from(value: TypedValue<Newton<N>, N>) -> (newton: Newton<N>) {
        Newton(value.value())
    }
}

} // verus!
