//! Base unit system (SI)

use crate::errors::RayleighError;
use crate::traits::Number;
use crate::traits::RayleighUnit;
use std::marker::PhantomData;
use vstd::prelude::*;
use vstd::std_specs::cmp::PartialEqSpecImpl;
use vstd::std_specs::convert::FromSpecImpl;
use vstd::std_specs::convert::IntoSpecImpl;
use vstd::std_specs::convert::TryIntoSpecImpl;

verus! {

/// SI unit of distance
#[derive(Clone, Copy, Debug, PartialEq, Eq, PartialOrd, Ord, Hash, Default)]
pub struct Meter;

/// SI unit of mass
#[derive(Clone, Copy, Debug, PartialEq, Eq, PartialOrd, Ord, Hash, Default)]
pub struct Kilogram;

/// SI unit of time
#[derive(Clone, Copy, Debug, PartialEq, Eq, PartialOrd, Ord, Hash, Default)]
pub struct Second;

/// SI unit of electric current
#[derive(Clone, Copy, Debug, PartialEq, Eq, PartialOrd, Ord, Hash, Default)]
pub struct Ampere;

/// SI unit of temperature
#[derive(Clone, Copy, Debug, PartialEq, Eq, PartialOrd, Ord, Hash, Default)]
pub struct Kelvin;

/// SI unit of amount of substance
#[derive(Clone, Copy, Debug, PartialEq, Eq, PartialOrd, Ord, Hash, Default)]
pub struct Mole;

/// SI unit of Luminous intensity
#[derive(Clone, Copy, Debug, PartialEq, Eq, PartialOrd, Ord, Hash, Default)]
pub struct Candela;

/// The base units of the SI system
#[derive(Clone, Copy, Debug, PartialEq, Eq, PartialOrd, Ord, Hash)]
pub enum BaseUnit {
    Distance(Meter),
    Mass(Kilogram),
    Time(Second),
    Current(Ampere),
    Temperature(Kelvin),
    Amount(Mole),
    LuminousIntensity(Candela),
}

impl BaseUnit {
    /// The slot that this base dimension occupies in an exponent vector.
    pub open spec fn slot(self) -> int {
        match self {
            BaseUnit::Distance(_) => 0,
            BaseUnit::Mass(_) => 1,
            BaseUnit::Time(_) => 2,
            BaseUnit::Current(_) => 3,
            BaseUnit::Temperature(_) => 4,
            BaseUnit::Amount(_) => 5,
            BaseUnit::LuminousIntensity(_) => 6,
        }
    }

    pub fn index(self) -> (i: usize)
        ensures
            i == self.slot(),
            i < 7,
    {
        self.into()
    }
}

impl Into<usize> for BaseUnit {
    fn into(self) -> (i: usize) {
        match self {
            BaseUnit::Distance(_) => 0,
            BaseUnit::Mass(_) => 1,
            BaseUnit::Time(_) => 2,
            BaseUnit::Current(_) => 3,
            BaseUnit::Temperature(_) => 4,
            BaseUnit::Amount(_) => 5,
            BaseUnit::LuminousIntensity(_) => 6,
        }
    }
}

impl IntoSpecImpl<usize> for BaseUnit {
    open spec fn obeys_into_spec() -> bool {
        true
    }

    open spec fn into_spec(self) -> usize {
        self.slot() as usize
    }
}

impl From<Meter> for BaseUnit {
    fn from(_unit: Meter) -> (unit: Self) {
        BaseUnit::Distance(Meter)
    }
}

impl FromSpecImpl<Meter> for BaseUnit {
    open spec fn obeys_from_spec() -> bool {
        true
    }

    open spec fn from_spec(v: Meter) -> Self {
        BaseUnit::Distance(Meter)
    }
}

impl From<Kilogram> for BaseUnit {
    fn from(_unit: Kilogram) -> (unit: Self) {
        BaseUnit::Mass(Kilogram)
    }
}

impl FromSpecImpl<Kilogram> for BaseUnit {
    open spec fn obeys_from_spec() -> bool {
        true
    }

    open spec fn from_spec(v: Kilogram) -> Self {
        BaseUnit::Mass(Kilogram)
    }
}

impl From<Second> for BaseUnit {
    fn from(_unit: Second) -> (unit: Self) {
        BaseUnit::Time(Second)
    }
}

impl FromSpecImpl<Second> for BaseUnit {
    open spec fn obeys_from_spec() -> bool {
        true
    }

    open spec fn from_spec(v: Second) -> Self {
        BaseUnit::Time(Second)
    }
}

impl From<Ampere> for BaseUnit {
    fn from(_unit: Ampere) -> (unit: Self) {
        BaseUnit::Current(Ampere)
    }
}

impl FromSpecImpl<Ampere> for BaseUnit {
    open spec fn obeys_from_spec() -> bool {
        true
    }

    open spec fn from_spec(v: Ampere) -> Self {
        BaseUnit::Current(Ampere)
    }
}

impl From<Kelvin> for BaseUnit {
    fn from(_unit: Kelvin) -> (unit: Self) {
        BaseUnit::Temperature(Kelvin)
    }
}

impl FromSpecImpl<Kelvin> for BaseUnit {
    open spec fn obeys_from_spec() -> bool {
        true
    }

    open spec fn from_spec(v: Kelvin) -> Self {
        BaseUnit::Temperature(Kelvin)
    }
}

impl From<Mole> for BaseUnit {
    fn from(_unit: Mole) -> (unit: Self) {
        BaseUnit::Amount(Mole)
    }
}

impl FromSpecImpl<Mole> for BaseUnit {
    open spec fn obeys_from_spec() -> bool {
        true
    }

    open spec fn from_spec(v: Mole) -> Self {
        BaseUnit::Amount(Mole)
    }
}

impl From<Candela> for BaseUnit {
    fn from(_unit: Candela) -> (unit: Self) {
        BaseUnit::LuminousIntensity(Candela)
    }
}

impl FromSpecImpl<Candela> for BaseUnit {
    open spec fn obeys_from_spec() -> bool {
        true
    }

    open spec fn from_spec(v: Candela) -> Self {
        BaseUnit::LuminousIntensity(Candela)
    }
}

/// The dimension of the meter is length to the first power.
impl RayleighUnit for Meter {
    open spec fn declared() -> RPowers {
        RPowers::from_ints(seq![1, 0, 0, 0, 0, 0, 0])
    }

    fn units() -> (powers: RPowers) {
        let powers = RPowers::new(vec![UnitPower::meter(1)]);
        proof {
            reveal_with_fuel(declared_by, 2);
            assert(powers@ =~= seq![1, 0, 0, 0, 0, 0, 0]);
            RPowers::lemma_from_view(powers);
        }
        powers
    }
}

/// The dimension of the kilogram is mass to the first power.
impl RayleighUnit for Kilogram {
    open spec fn declared() -> RPowers {
        RPowers::from_ints(seq![0, 1, 0, 0, 0, 0, 0])
    }

    fn units() -> (powers: RPowers) {
        let powers = RPowers::new(vec![UnitPower::kilogram(1)]);
        proof {
            reveal_with_fuel(declared_by, 2);
            assert(powers@ =~= seq![0, 1, 0, 0, 0, 0, 0]);
            RPowers::lemma_from_view(powers);
        }
        powers
    }
}

/// The dimension of the second is time to the first power.
impl RayleighUnit for Second {
    open spec fn declared() -> RPowers {
        RPowers::from_ints(seq![0, 0, 1, 0, 0, 0, 0])
    }

    fn units() -> (powers: RPowers) {
        let powers = RPowers::new(vec![UnitPower::second(1)]);
        proof {
            reveal_with_fuel(declared_by, 2);
            assert(powers@ =~= seq![0, 0, 1, 0, 0, 0, 0]);
            RPowers::lemma_from_view(powers);
        }
        powers
    }
}

/// The dimension of the ampere is electric current to the first power.
impl RayleighUnit for Ampere {
    open spec fn declared() -> RPowers {
        RPowers::from_ints(seq![0, 0, 0, 1, 0, 0, 0])
    }

    fn units() -> (powers: RPowers) {
        let powers = RPowers::new(vec![UnitPower::ampere(1)]);
        proof {
            reveal_with_fuel(declared_by, 2);
            assert(powers@ =~= seq![0, 0, 0, 1, 0, 0, 0]);
            RPowers::lemma_from_view(powers);
        }
        powers
    }
}

/// The dimension of the kelvin is temperature to the first power.
impl RayleighUnit for Kelvin {
    open spec fn declared() -> RPowers {
        RPowers::from_ints(seq![0, 0, 0, 0, 1, 0, 0])
    }

    fn units() -> (powers: RPowers) {
        let powers = RPowers::new(vec![UnitPower::kelvin(1)]);
        proof {
            reveal_with_fuel(declared_by, 2);
            assert(powers@ =~= seq![0, 0, 0, 0, 1, 0, 0]);
            RPowers::lemma_from_view(powers);
        }
        powers
    }
}

/// The dimension of the mole is amount of substance to the first power.
impl RayleighUnit for Mole {
    open spec fn declared() -> RPowers {
        RPowers::from_ints(seq![0, 0, 0, 0, 0, 1, 0])
    }

    fn units() -> (powers: RPowers) {
        let powers = RPowers::new(vec![UnitPower::mole(1)]);
        proof {
            reveal_with_fuel(declared_by, 2);
            assert(powers@ =~= seq![0, 0, 0, 0, 0, 1, 0]);
            RPowers::lemma_from_view(powers);
        }
        powers
    }
}

/// The dimension of the candela is luminous intensity to the first power.
impl RayleighUnit for Candela {
    open spec fn declared() -> RPowers {
        RPowers::from_ints(seq![0, 0, 0, 0, 0, 0, 1])
    }

    fn units() -> (powers: RPowers) {
        let powers = RPowers::new(vec![UnitPower::candela(1)]);
        proof {
            reveal_with_fuel(declared_by, 2);
            assert(powers@ =~= seq![0, 0, 0, 0, 0, 0, 1]);
            RPowers::lemma_from_view(powers);
        }
        powers
    }
}

impl<T: RayleighUnit, N: Number> TryIntoSpecImpl<TypedValue<T, N>> for RValue<N> {
    open spec fn obeys_try_into_spec() -> bool {
        true
    }

    /// The same quantity under the unit `T` when it has the dimension that
    /// `T` declares; else the dimension that it has and the one that `T`
    /// declares.
    open spec fn try_into_spec(self) -> Result<TypedValue<T, N>, RayleighError> {
        if self.units == T::declared() {
            Ok(TypedValue::typed(self))
        } else {
            Err(RayleighError::CastFailed { from: self.units, to: T::declared() })
        }
    }
}

impl<T: RayleighUnit, N: Number> TryInto<TypedValue<T, N>> for RValue<N> {
    type Error = RayleighError;

    fn try_into(self) -> (typed: Result<TypedValue<T, N>, Self::Error>) {
        let target = T::units();
        if self.units == target {
            Ok(TypedValue { rval: self, ty: PhantomData })
        } else {
            Err(RayleighError::CastFailed { from: self.units, to: target })
        }
    }
}

/// A strongly typed [`RValue`]: a quantity that has the dimension which its
/// unit `T` declares. Every value of this type does.
pub struct TypedValue<T: RayleighUnit, N: Number> {
    rval: RValue<N>,
    ty: PhantomData<T>,
}

impl<T: RayleighUnit, N: Number> Clone for TypedValue<T, N> {
    fn clone(&self) -> (copy: Self)
        ensures
            copy == *self,
    {
        proof {
            use_type_invariant(self);
        }
        TypedValue { rval: self.rval, ty: PhantomData }
    }
}

impl<T: RayleighUnit, N: Number> Copy for TypedValue<T, N> {

}

impl<T: RayleighUnit, N: Number> View for TypedValue<T, N> {
    type V = RValue<N>;

    /// The quantity without its unit.
    closed spec fn view(&self) -> RValue<N> {
        self.rval
    }
}

impl<T: RayleighUnit, N: Number> TypedValue<T, N> {
    #[verifier::type_invariant]
    spec fn has_declared_dimension(self) -> bool {
        self.rval.units == T::declared()
    }

    /// The quantity `rval` under the unit `T`.
    pub closed spec fn typed(rval: RValue<N>) -> Self {
        TypedValue { rval, ty: PhantomData }
    }

    /// A typed value is determined by the quantity that it holds.
    pub proof fn lemma_typed_view(rval: RValue<N>)
        ensures
            Self::typed(rval)@ == rval,
            forall|typed: Self| typed@ == rval ==> typed == Self::typed(rval),
    {
    }

    /// A conversion to a unit that declares another dimension than the
    /// quantity has never succeeds: it fails with the dimension that was met
    /// and the one that `T` declares.
    pub proof fn lemma_try_into_detects_mismatch(rval: RValue<N>)
        requires
            rval.units@ != T::declared()@,
        ensures
            <RValue<N> as vstd::std_specs::convert::TryIntoSpec<Self>>::try_into_spec(rval)
                == Err::<Self, RayleighError>(
                RayleighError::CastFailed { from: rval.units, to: T::declared() },
            ),
    {
    }

    /// A typed value that is stripped of its unit and converted to `T`
    /// again is the value it was.
    pub proof fn lemma_try_into_restores(typed: Self)
        requires
            typed@.units == T::declared(),
        ensures
            <RValue<N> as vstd::std_specs::convert::TryIntoSpec<Self>>::try_into_spec(typed@)
                == Ok::<Self, RayleighError>(typed),
    {
    }

    pub fn new(value: N) -> (typed: Self)
        ensures
            typed@ == (RValue { value, units: T::declared() }),
    {
        TypedValue { rval: RValue::new::<T>(value), ty: PhantomData }
    }

    /// The magnitude.
    pub fn value(&self) -> (value: N)
        ensures
            value == self@.value,
    {
        self.rval.value
    }

    /// The quantity without its unit. Its dimension is the one that `T`
    /// declares.
    pub fn rval(&self) -> (rval: RValue<N>)
        ensures
            rval == self@,
            rval.units == T::declared(),
    {
        proof {
            use_type_invariant(self);
        }
        self.rval
    }
}

/// A magnitude with its dimension, and no unit.
pub struct RValue<N: Number> {
    /// The magnitude
    pub value: N,
    /// The dimension
    pub units: RPowers,
}

impl<N: Number> Clone for RValue<N> {
    fn clone(&self) -> (copy: Self)
        ensures
            copy == *self,
    {
        RValue { value: self.value, units: self.units }
    }
}

impl<N: Number> Copy for RValue<N> {

}

impl<N: Number> RValue<N> {
    pub fn new<U: RayleighUnit>(value: N) -> (rval: Self)
        ensures
            rval == (RValue { value, units: U::declared() }),
    {
        RValue { value, units: U::units() }
    }
}

/// One base unit raised to a power.
#[derive(Clone, Copy, Debug)]
pub struct UnitPower {
    pub unit: BaseUnit,
    pub power: i32,
}

impl UnitPower {
    pub fn new<U: Into<BaseUnit> + Default>(power: i32) -> (up: Self)
        ensures
            up.power == power,
            exists|u: U|
                call_ensures(U::default, (), u) && #[trigger] call_ensures(
                    U::into,
                    (u,),
                    up.unit,
                ),
    {
        UnitPower { unit: U::default().into(), power }
    }

    pub fn kilogram(power: i32) -> (up: Self)
        ensures
            up == (UnitPower { unit: BaseUnit::Mass(Kilogram), power }),
    {
        UnitPower { unit: Kilogram.into(), power }
    }

    pub fn meter(power: i32) -> (up: Self)
        ensures
            up == (UnitPower { unit: BaseUnit::Distance(Meter), power }),
    {
        UnitPower { unit: Meter.into(), power }
    }

    pub fn second(power: i32) -> (up: Self)
        ensures
            up == (UnitPower { unit: BaseUnit::Time(Second), power }),
    {
        UnitPower { unit: Second.into(), power }
    }

    pub fn ampere(power: i32) -> (up: Self)
        ensures
            up == (UnitPower { unit: BaseUnit::Current(Ampere), power }),
    {
        UnitPower { unit: Ampere.into(), power }
    }

    pub fn kelvin(power: i32) -> (up: Self)
        ensures
            up == (UnitPower { unit: BaseUnit::Temperature(Kelvin), power }),
    {
        UnitPower { unit: Kelvin.into(), power }
    }

    pub fn mole(power: i32) -> (up: Self)
        ensures
            up == (UnitPower { unit: BaseUnit::Amount(Mole), power }),
    {
        UnitPower { unit: Mole.into(), power }
    }

    pub fn candela(power: i32) -> (up: Self)
        ensures
            up == (UnitPower { unit: BaseUnit::LuminousIntensity(Candela), power }),
    {
        UnitPower { unit: Candela.into(), power }
    }
}

/// The exponents of the seven base units that make up a dimension,
/// in the order `[m, kg, s, A, K, mol, cd]`.
///
/// Exponents are whole numbers, so that combining dimensions is exact. A
/// dimension with a fractional exponent, such as the square root of a
/// frequency, cannot be written down, and an exponent beyond the range of an
/// `i32` cannot either: the operators that combine two vectors ask that
/// every resulting exponent fits.
#[verifier::ext_equal]
#[derive(Debug, Clone, Copy, Eq, Ord, Hash)]
pub struct RPowers {
    ///  Powers of each base unit
    /// [m^x, kg^x, s^x, a^x, k^x, mol^x, cd^x]
    pub powers: [i32; 7],
}

impl View for RPowers {
    type V = Seq<int>;

    /// The seven exponents as mathematical integers.
    open spec fn view(&self) -> Seq<int> {
        Seq::new(7, |i: int| self.powers[i] as int)
    }
}

/// The dimensionless exponent vector: all seven exponents are zero.
pub open spec fn identity() -> Seq<int> {
    Seq::new(7, |i: int| 0int)
}

/// The exponents that a list of unit powers declares: every slot starts at
/// zero, and each entry in turn sets the slot of its unit, so that of two
/// entries for one unit the later one stands.
pub open spec fn declared_by(unit_powers: Seq<UnitPower>) -> Seq<int>
    decreases unit_powers.len(),
{
    if unit_powers.len() == 0 {
        identity()
    } else {
        declared_by(unit_powers.drop_last()).update(
            unit_powers.last().unit.slot(),
            unit_powers.last().power as int,
        )
    }
}

/// What a list of unit powers declares has seven slots.
pub proof fn lemma_declared_by_len(unit_powers: Seq<UnitPower>)
    ensures
        declared_by(unit_powers).len() == 7,
    decreases unit_powers.len(),
{
    if unit_powers.len() > 0 {
        lemma_declared_by_len(unit_powers.drop_last());
    }
}

/// In what a list of unit powers declares, a slot for whose unit the list
/// has no entry holds zero.
pub proof fn lemma_declared_by_absent(unit_powers: Seq<UnitPower>, slot: int)
    requires
        0 <= slot < 7,
        forall|k: int| 0 <= k < unit_powers.len() ==> (#[trigger] unit_powers[k]).unit.slot() != slot,
    ensures
        declared_by(unit_powers)[slot] == 0,
    decreases unit_powers.len(),
{
    lemma_declared_by_len(unit_powers);
    if unit_powers.len() > 0 {
        let front = unit_powers.drop_last();
        assert forall|k: int| 0 <= k < front.len() implies (#[trigger] front[k]).unit.slot()
            != slot by {
            assert(front[k] == unit_powers[k]);
        }
        lemma_declared_by_absent(front, slot);
        lemma_declared_by_len(front);
        assert(unit_powers.last() == unit_powers[unit_powers.len() - 1]);
    }
}

/// In what a list of unit powers declares, the slot of a unit holds the
/// power of the last entry for that unit.
pub proof fn lemma_declared_by_last(unit_powers: Seq<UnitPower>, k: int)
    requires
        0 <= k < unit_powers.len(),
        forall|j: int|
            k < j < unit_powers.len() ==> (#[trigger] unit_powers[j]).unit.slot()
                != unit_powers[k].unit.slot(),
    ensures
        declared_by(unit_powers)[unit_powers[k].unit.slot()] == unit_powers[k].power,
    decreases unit_powers.len(),
{
    let front = unit_powers.drop_last();
    let last = unit_powers[unit_powers.len() - 1];
    assert(unit_powers.last() == last);
    lemma_declared_by_len(front);
    if k < unit_powers.len() - 1 {
        assert(front[k] == unit_powers[k]);
        assert forall|j: int| k < j < front.len() implies (#[trigger] front[j]).unit.slot()
            != front[k].unit.slot() by {
            assert(front[j] == unit_powers[j]);
        }
        lemma_declared_by_last(front, k);
        assert(last.unit.slot() != unit_powers[k].unit.slot());
    }
}

impl RPowers {
    /// The exponent vector whose view is `s`, for a sequence of seven
    /// exponents that each fit in an `i32`.
    pub open spec fn from_ints(s: Seq<int>) -> RPowers {
        RPowers {
            powers: [
                s[0] as i32,
                s[1] as i32,
                s[2] as i32,
                s[3] as i32,
                s[4] as i32,
                s[5] as i32,
                s[6] as i32,
            ],
        }
    }

    /// Whether `s` is the view of some exponent vector.
    pub open spec fn representable(s: Seq<int>) -> bool {
        &&& s.len() == 7
        &&& forall|i: int| 0 <= i < 7 ==> i32::MIN <= #[trigger] s[i] <= i32::MAX
    }

    /// An exponent vector is determined by its view.
    pub proof fn lemma_view_injective(a: RPowers, b: RPowers)
        ensures
            a@ == b@ <==> a == b,
    {
        if a@ == b@ {
            assert forall|i: int| 0 <= i < 7 implies a.powers[i] == b.powers[i] by {
                assert(a@[i] == b@[i]);
            }
            assert(a.powers =~= b.powers);
            assert(a =~= b);
        }
    }

    /// `from_ints` is the inverse of the view.
    pub proof fn lemma_from_ints(s: Seq<int>)
        requires
            Self::representable(s),
        ensures
            Self::from_ints(s)@ == s,
    {
        assert(Self::from_ints(s)@ =~= s);
    }

    /// An exponent vector is the one that `from_ints` makes of its view.
    pub proof fn lemma_from_view(powers: RPowers)
        ensures
            Self::representable(powers@),
            powers == Self::from_ints(powers@),
    {
        Self::lemma_from_ints(powers@);
        Self::lemma_view_injective(powers, Self::from_ints(powers@));
    }

    /// The dimension that a list of unit powers declares: a slot holds the
    /// power of the last entry for its unit, and zero where the list has no
    /// entry for it.
    pub fn new(unit_powers: Vec<UnitPower>) -> (new: Self)
        ensures
            new@ == declared_by(unit_powers@),
            forall|slot: int|
                0 <= slot < 7 && (forall|k: int|
                    0 <= k < unit_powers.len() ==> (#[trigger] unit_powers[k]).unit.slot() != slot)
                    ==> #[trigger] new@[slot] == 0,
            forall|k: int|
                0 <= k < unit_powers.len() && (forall|j: int|
                    k < j < unit_powers.len() ==> (#[trigger] unit_powers[j]).unit.slot()
                        != unit_powers[k].unit.slot()) ==> new@[(#[trigger] unit_powers[k]).unit.slot()]
                    == unit_powers[k].power,
    {
        let mut new = Self::default();
        let mut k: usize = 0;
        assert(unit_powers@.take(0) =~= Seq::<UnitPower>::empty());
        while k < unit_powers.len()
            invariant
                k <= unit_powers.len(),
                new@ == declared_by(unit_powers@.take(k as int)),
            decreases unit_powers.len() - k,
        {
            let up = unit_powers[k];
            let ghost before = new;
            new.powers[up.unit.index()] = up.power;
            proof {
                let upto = unit_powers@.take(k + 1);
                assert(upto.drop_last() =~= unit_powers@.take(k as int));
                assert(upto.last() == up);
                assert(new@ =~= before@.update(up.unit.slot(), up.power as int));
            }
            k += 1;
        }
        proof {
            assert(unit_powers@.take(k as int) =~= unit_powers@);
            assert forall|slot: int|
                0 <= slot < 7 && (forall|k: int|
                    0 <= k < unit_powers.len() ==> (#[trigger] unit_powers[k]).unit.slot()
                        != slot) implies #[trigger] new@[slot] == 0 by {
                lemma_declared_by_absent(unit_powers@, slot);
            }
            assert forall|k: int|
                0 <= k < unit_powers.len() && (forall|j: int|
                    k < j < unit_powers.len() ==> (#[trigger] unit_powers[j]).unit.slot()
                        != unit_powers[k].unit.slot()) implies new@[(
            #[trigger] unit_powers[k]).unit.slot()] == unit_powers[k].power by {
                lemma_declared_by_last(unit_powers@, k);
            }
        }
        new
    }
}

impl Default for RPowers {
    fn default() -> (new: Self)
        ensures
            new@ == identity(),
    {
        let new = RPowers { powers: [0, 0, 0, 0, 0, 0, 0] };
        assert(new@ =~= identity());
        new
    }
}

impl PartialEq for RPowers {
    fn eq(&self, other: &Self) -> (same: bool) {
        let mut k: usize = 0;
        while k < 7
            invariant
                k <= 7,
                forall|i: int| 0 <= i < k ==> self.powers[i] == other.powers[i],
            decreases 7 - k,
        {
            if self.powers[k] != other.powers[k] {
                return false;
            }
            k += 1;
        }
        proof {
            assert(self.powers =~= other.powers);
            assert(*self =~= *other);
        }
        true
    }
}

impl PartialEqSpecImpl for RPowers {
    open spec fn obeys_eq_spec() -> bool {
        true
    }

    /// Two exponent vectors are equal when all seven exponents are.
    open spec fn eq_spec(&self, other: &Self) -> bool {
        *self == *other
    }
}

} // verus!
