use ordered_float::OrderedFloat;
use rayleigh_core::base::Kilogram;
use rayleigh_core::base::Meter;
use rayleigh_core::base::RPowers;
use rayleigh_core::base::RValue;
use rayleigh_core::base::Second;
use rayleigh_core::base::TypedValue;
use rayleigh_core::errors::RayleighError;
use rayleigh_core::experiment::Newton;
use rayleigh_core::traits::RayleighUnit;
use rayleigh_core::traits::Unitless;

#[test]
fn rvalue_new_takes_the_dimension_of_the_unit() {
    let r = RValue::new::<Second>(9.6_f32);
    assert_eq!(r.value, 9.6);
    assert_eq!(r.units.powers, [0, 0, 1, 0, 0, 0, 0]);
    let r = RValue::new::<Unitless>(OrderedFloat(1.0_f64));
    assert_eq!(r.value, OrderedFloat(1.0));
    assert_eq!(r.units, RPowers::default());
}

#[test]
fn rvalue_product_multiplies_magnitudes_and_adds_exponents() {
    let mass = RValue::new::<Kilogram>(2.0_f64);
    let length = RValue::new::<Meter>(3.0_f64);
    let product = mass * length;
    assert_eq!(product.value, 6.0);
    assert_eq!(product.units.powers, [1, 1, 0, 0, 0, 0, 0]);
    let square = length * length;
    assert_eq!(square.value, 9.0);
    assert_eq!(square.units.powers, [2, 0, 0, 0, 0, 0, 0]);
}

#[test]
fn typed_value_new_holds_magnitude_and_declared_dimension() {
    let t = TypedValue::<Meter, f32>::new(100.0);
    assert_eq!(t.value(), 100.0);
    assert_eq!(t.rval().value, 100.0);
    assert_eq!(t.rval().units, Meter::units());
}

#[test]
fn try_into_accepts_the_declared_dimension() {
    let r = RValue::new::<Meter>(12.5_f64);
    let t: Result<TypedValue<Meter, f64>, RayleighError> = r.try_into();
    let t = t.unwrap();
    assert_eq!(t.value(), 12.5);
    assert_eq!(t.rval().units, Meter::units());
}

#[test]
fn try_into_rejects_another_dimension() {
    let r = RValue::new::<Meter>(12.5_f64);
    let t: Result<TypedValue<Second, f64>, RayleighError> = r.try_into();
    match t {
        Err(RayleighError::CastFailed { from, to }) => {
            assert_eq!(from.powers, [1, 0, 0, 0, 0, 0, 0]);
            assert_eq!(to.powers, [0, 0, 1, 0, 0, 0, 0]);
        }
        Ok(_) => panic!("a length is no time"),
    }
    let square = r * r;
    let t: Result<TypedValue<Meter, f64>, RayleighError> = square.try_into();
    match t {
        Err(RayleighError::CastFailed { from, to }) => {
            assert_eq!(from.powers, [2, 0, 0, 0, 0, 0, 0]);
            assert_eq!(to, Meter::units());
        }
        Ok(_) => panic!("an area is no length"),
    }
}

#[test]
fn typed_value_survives_the_round_trip() {
    let t = TypedValue::<Kilogram, OrderedFloat<f32>>::new(OrderedFloat(70.5));
    let back: Result<TypedValue<Kilogram, OrderedFloat<f32>>, RayleighError> = t.rval().try_into();
    let back = back.unwrap();
    assert_eq!(back.value(), OrderedFloat(70.5));
    assert_eq!(back.rval().units, t.rval().units);
}

#[test]
fn copies_are_equal_to_what_they_copy() {
    let r = RValue::new::<Meter>(1.25_f32);
    let c = r.clone();
    assert_eq!(c.value, r.value);
    assert_eq!(c.units, r.units);
    let t = TypedValue::<Meter, f32>::new(1.25);
    let c = t.clone();
    assert_eq!(c.value(), t.value());
    assert_eq!(c.rval().units, t.rval().units);
}

#[test]
fn newton_is_kilogram_meter_per_second_squared() {
    assert_eq!(Newton::<f32>::units().powers, [1, 1, -2, 0, 0, 0, 0]);
    assert_eq!(Newton::<f32>::units(), Newton::<f64>::units());
}

#[test]
fn newton_converts_to_a_typed_value_and_back() {
    let typed: TypedValue<Newton<f32>, f32> = Newton(6.0_f32).into();
    assert_eq!(typed.value(), 6.0);
    assert_eq!(typed.rval().units.powers, [1, 1, -2, 0, 0, 0, 0]);
    let back = Newton::from(typed);
    assert_eq!(back, Newton(6.0));
    assert_eq!(back.clone(), back);
}
