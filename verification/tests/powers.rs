use rayleigh_core::base::Ampere;
use rayleigh_core::base::BaseUnit;
use rayleigh_core::base::Candela;
use rayleigh_core::base::Kelvin;
use rayleigh_core::base::Kilogram;
use rayleigh_core::base::Meter;
use rayleigh_core::base::Mole;
use rayleigh_core::base::RPowers;
use rayleigh_core::base::Second;
use rayleigh_core::base::UnitPower;
use rayleigh_core::prefix::Prefix;
use rayleigh_core::traits::RayleighUnit;
use rayleigh_core::traits::Unitless;

fn powers(powers: [i32; 7]) -> RPowers {
    RPowers { powers }
}

#[test]
fn base_units_have_the_slots_zero_to_six() {
    assert_eq!(BaseUnit::Distance(Meter).index(), 0);
    assert_eq!(BaseUnit::Mass(Kilogram).index(), 1);
    assert_eq!(BaseUnit::Time(Second).index(), 2);
    assert_eq!(BaseUnit::Current(Ampere).index(), 3);
    assert_eq!(BaseUnit::Temperature(Kelvin).index(), 4);
    assert_eq!(BaseUnit::Amount(Mole).index(), 5);
    assert_eq!(BaseUnit::LuminousIntensity(Candela).index(), 6);
}

#[test]
fn into_usize_agrees_with_index() {
    let slot: usize = BaseUnit::Temperature(Kelvin).into();
    assert_eq!(slot, 4);
    let slot: usize = BaseUnit::LuminousIntensity(Candela).into();
    assert_eq!(slot, BaseUnit::LuminousIntensity(Candela).index());
}

#[test]
fn markers_convert_to_their_base_unit() {
    assert_eq!(BaseUnit::from(Meter), BaseUnit::Distance(Meter));
    assert_eq!(BaseUnit::from(Kilogram), BaseUnit::Mass(Kilogram));
    assert_eq!(BaseUnit::from(Second), BaseUnit::Time(Second));
    assert_eq!(BaseUnit::from(Ampere), BaseUnit::Current(Ampere));
    assert_eq!(BaseUnit::from(Kelvin), BaseUnit::Temperature(Kelvin));
    assert_eq!(BaseUnit::from(Mole), BaseUnit::Amount(Mole));
    assert_eq!(BaseUnit::from(Candela), BaseUnit::LuminousIntensity(Candela));
}

#[test]
fn unit_power_constructors_name_their_unit() {
    assert_eq!(UnitPower::meter(3).unit, BaseUnit::Distance(Meter));
    assert_eq!(UnitPower::kilogram(3).unit, BaseUnit::Mass(Kilogram));
    assert_eq!(UnitPower::second(3).unit, BaseUnit::Time(Second));
    assert_eq!(UnitPower::ampere(3).unit, BaseUnit::Current(Ampere));
    assert_eq!(UnitPower::kelvin(3).unit, BaseUnit::Temperature(Kelvin));
    assert_eq!(UnitPower::mole(3).unit, BaseUnit::Amount(Mole));
    assert_eq!(UnitPower::candela(3).unit, BaseUnit::LuminousIntensity(Candela));
    assert_eq!(UnitPower::second(-2).power, -2);
}

#[test]
fn unit_power_new_takes_the_unit_from_its_type() {
    let up = UnitPower::new::<Mole>(4);
    assert_eq!(up.unit, BaseUnit::Amount(Mole));
    assert_eq!(up.power, 4);
}

#[test]
fn default_is_dimensionless() {
    assert_eq!(RPowers::default().powers, [0, 0, 0, 0, 0, 0, 0]);
    assert_eq!(RPowers::new(vec![]), RPowers::default());
}

#[test]
fn new_sets_only_the_named_slots() {
    let force = RPowers::new(vec![
        UnitPower::kilogram(1),
        UnitPower::meter(1),
        UnitPower::second(-2),
    ]);
    assert_eq!(force.powers, [1, 1, -2, 0, 0, 0, 0]);
    let all = RPowers::new(vec![
        UnitPower::candela(7),
        UnitPower::mole(6),
        UnitPower::kelvin(5),
        UnitPower::ampere(4),
        UnitPower::second(3),
        UnitPower::kilogram(2),
        UnitPower::meter(1),
    ]);
    assert_eq!(all.powers, [1, 2, 3, 4, 5, 6, 7]);
}

#[test]
fn new_lets_the_later_entry_stand() {
    let p = RPowers::new(vec![UnitPower::meter(1), UnitPower::second(5), UnitPower::meter(-3)]);
    assert_eq!(p.powers, [-3, 0, 5, 0, 0, 0, 0]);
}

#[test]
fn multiplying_adds_exponents() {
    let a = powers([1, 2, 3, 4, 5, 6, 7]);
    let b = powers([10, -20, 30, -40, 50, -60, 70]);
    assert_eq!((a * b).powers, [11, -18, 33, -36, 55, -54, 77]);
}

#[test]
fn dividing_subtracts_exponents() {
    let a = powers([1, 2, 3, 4, 5, 6, 7]);
    let b = powers([10, -20, 30, -40, 50, -60, 70]);
    assert_eq!((a / b).powers, [-9, 22, -27, 44, -45, 66, -63]);
}

#[test]
fn add_and_sub_work_slot_by_slot() {
    let a = powers([1, 2, 3, 4, 5, 6, 7]);
    let b = powers([1, 1, 1, 1, 1, 1, 1]);
    assert_eq!((a + b).powers, [2, 3, 4, 5, 6, 7, 8]);
    assert_eq!((a - b).powers, [0, 1, 2, 3, 4, 5, 6]);
}

#[test]
fn combining_is_commutative() {
    let a = powers([1, 0, -2, 0, 3, 0, 0]);
    let b = powers([0, 4, 1, -1, 0, 0, 9]);
    assert_eq!(a * b, b * a);
}

#[test]
fn dividing_undoes_multiplying() {
    let a = powers([1, 0, -2, 0, 3, 0, 0]);
    let b = powers([0, 4, 1, -1, 0, 0, 9]);
    assert_eq!((a * b) / b, a);
    assert_eq!((a / b) * b, a);
}

#[test]
fn the_dimensionless_vector_is_neutral() {
    let a = powers([1, 0, -2, 0, 3, 0, 0]);
    assert_eq!(a * RPowers::default(), a);
    assert_eq!(RPowers::default() * a, a);
    assert_eq!(a / RPowers::default(), a);
}

#[test]
fn exponents_at_the_edge_of_the_range_combine() {
    let a = powers([i32::MAX, i32::MIN, 0, 0, 0, 0, 0]);
    let b = powers([-1, 1, 0, 0, 0, 0, 0]);
    assert_eq!((a * b).powers, [i32::MAX - 1, i32::MIN + 1, 0, 0, 0, 0, 0]);
    let c = powers([0, -1, 0, 0, 0, 0, 0]);
    assert_eq!((a / c).powers, [i32::MAX, i32::MIN + 1, 0, 0, 0, 0, 0]);
}

#[test]
fn equality_is_exact_in_every_slot() {
    let a = powers([1, 0, -1, 0, 0, 0, 0]);
    assert!(a == powers([1, 0, -1, 0, 0, 0, 0]));
    assert!(a != powers([1, 0, -1, 0, 0, 0, 1]));
    assert!(a != powers([2, 0, -1, 0, 0, 0, 0]));
    assert!(a != RPowers::default());
}

#[test]
fn order_goes_by_the_first_slot_that_differs() {
    let a = powers([1, 0, -1, 0, 0, 0, 0]);
    assert!(a < powers([1, 0, 0, -5, 0, 0, 0]));
    assert!(a > powers([0, 9, 9, 9, 9, 9, 9]));
    assert!(a < powers([1, 0, -1, 0, 0, 0, 1]));
    assert!(a <= a);
    assert_eq!(a.cmp(&a), std::cmp::Ordering::Equal);
}

#[test]
fn base_markers_declare_one_slot_each() {
    assert_eq!(Meter::units().powers, [1, 0, 0, 0, 0, 0, 0]);
    assert_eq!(Kilogram::units().powers, [0, 1, 0, 0, 0, 0, 0]);
    assert_eq!(Second::units().powers, [0, 0, 1, 0, 0, 0, 0]);
    assert_eq!(Ampere::units().powers, [0, 0, 0, 1, 0, 0, 0]);
    assert_eq!(Kelvin::units().powers, [0, 0, 0, 0, 1, 0, 0]);
    assert_eq!(Mole::units().powers, [0, 0, 0, 0, 0, 1, 0]);
    assert_eq!(Candela::units().powers, [0, 0, 0, 0, 0, 0, 1]);
}

#[test]
fn unitless_declares_the_dimensionless_vector() {
    assert_eq!(Unitless::units(), RPowers::default());
}

#[test]
fn declared_dimension_is_stable() {
    assert_eq!(Second::units(), Second::units());
    assert_eq!(Unitless::units(), Unitless::units());
}

#[test]
fn no_prefix_is_the_default_prefix() {
    assert!(matches!(Prefix::default(), Prefix::Unprefixed));
}
