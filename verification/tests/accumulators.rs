use parquet_format::datatypes::DataType;
use parquet_format::scalar::{AccumulatorError, MaxAccumulator, MinAccumulator, ScalarValue};

#[test]
fn fresh_accumulators_hold_the_null_of_their_type() {
    let max = MaxAccumulator::try_new(&DataType::Int64).unwrap();
    assert_eq!(max.evaluate(), ScalarValue::Int64(None));
    let min = MinAccumulator::try_new(&DataType::Float32).unwrap();
    assert_eq!(min.evaluate(), ScalarValue::Float32(None));
    let max = MaxAccumulator::try_new(&DataType::Boolean).unwrap();
    assert_eq!(max.evaluate(), ScalarValue::Boolean(None));
    let min = MinAccumulator::try_new(&DataType::Int32).unwrap();
    assert_eq!(min.evaluate(), ScalarValue::Int32(None));
    let max = MaxAccumulator::try_new(&DataType::Float64).unwrap();
    assert_eq!(max.evaluate(), ScalarValue::Float64(None));
}

#[test]
fn untracked_types_have_no_accumulator() {
    assert_eq!(MaxAccumulator::try_new(&DataType::Other), None);
    assert_eq!(MinAccumulator::try_new(&DataType::Other), None);
}

#[test]
fn max_accumulator_keeps_the_greatest_value() {
    let mut max = MaxAccumulator::try_new(&DataType::Int32).unwrap();
    for v in [3, -7, 12, 12, 0] {
        assert_eq!(max.update(&ScalarValue::Int32(Some(v))), Ok(()));
    }
    assert_eq!(max.evaluate(), ScalarValue::Int32(Some(12)));
}

#[test]
fn min_accumulator_keeps_the_least_value() {
    let mut min = MinAccumulator::try_new(&DataType::Int64).unwrap();
    for v in [3i64, -7, 12, i64::MIN, 0] {
        assert_eq!(min.update(&ScalarValue::Int64(Some(v))), Ok(()));
    }
    assert_eq!(min.evaluate(), ScalarValue::Int64(Some(i64::MIN)));
}

#[test]
fn false_comes_before_true() {
    let mut max = MaxAccumulator::try_new(&DataType::Boolean).unwrap();
    let mut min = MinAccumulator::try_new(&DataType::Boolean).unwrap();
    for v in [true, false, true] {
        max.update(&ScalarValue::Boolean(Some(v))).unwrap();
        min.update(&ScalarValue::Boolean(Some(v))).unwrap();
    }
    assert_eq!(max.evaluate(), ScalarValue::Boolean(Some(true)));
    assert_eq!(min.evaluate(), ScalarValue::Boolean(Some(false)));
}

#[test]
fn a_null_changes_nothing() {
    let mut max = MaxAccumulator::try_new(&DataType::Int32).unwrap();
    assert_eq!(max.update(&ScalarValue::Int32(None)), Ok(()));
    assert_eq!(max.evaluate(), ScalarValue::Int32(None));
    max.update(&ScalarValue::Int32(Some(5))).unwrap();
    assert_eq!(max.update(&ScalarValue::Int32(None)), Ok(()));
    assert_eq!(max.evaluate(), ScalarValue::Int32(Some(5)));
}

#[test]
fn a_value_of_another_type_is_refused() {
    let mut max = MaxAccumulator::try_new(&DataType::Int32).unwrap();
    max.update(&ScalarValue::Int32(Some(5))).unwrap();
    assert_eq!(
        max.update(&ScalarValue::Int64(Some(9))),
        Err(AccumulatorError::TypeMismatch)
    );
    assert_eq!(max.evaluate(), ScalarValue::Int32(Some(5)));

    let mut min = MinAccumulator::try_new(&DataType::Float64).unwrap();
    assert_eq!(
        min.update(&ScalarValue::Float32(Some(1.0f32.to_bits()))),
        Err(AccumulatorError::TypeMismatch)
    );
    assert_eq!(min.evaluate(), ScalarValue::Float64(None));
}

#[test]
fn floats_are_ordered_as_numbers() {
    let mut max = MaxAccumulator::try_new(&DataType::Float32).unwrap();
    let mut min = MinAccumulator::try_new(&DataType::Float32).unwrap();
    for v in [0.0f32, 1.1, -2.5, 0.5, -0.25] {
        max.update(&ScalarValue::Float32(Some(v.to_bits()))).unwrap();
        min.update(&ScalarValue::Float32(Some(v.to_bits()))).unwrap();
    }
    assert_eq!(max.evaluate(), ScalarValue::Float32(Some(1.1f32.to_bits())));
    assert_eq!(min.evaluate(), ScalarValue::Float32(Some((-2.5f32).to_bits())));
}

#[test]
fn doubles_are_ordered_as_numbers() {
    let mut max = MaxAccumulator::try_new(&DataType::Float64).unwrap();
    let mut min = MinAccumulator::try_new(&DataType::Float64).unwrap();
    for v in [-1.0e300f64, -3.0, 10.1, f64::MIN_POSITIVE, 1.0e-9] {
        max.update(&ScalarValue::Float64(Some(v.to_bits()))).unwrap();
        min.update(&ScalarValue::Float64(Some(v.to_bits()))).unwrap();
    }
    assert_eq!(max.evaluate(), ScalarValue::Float64(Some(10.1f64.to_bits())));
    assert_eq!(min.evaluate(), ScalarValue::Float64(Some((-1.0e300f64).to_bits())));
}

#[test]
fn negative_floats_come_before_positive_ones() {
    let a = ScalarValue::Float64(Some((-1.0f64).to_bits()));
    let b = ScalarValue::Float64(Some(1.0f64.to_bits()));
    assert!(a.precedes(&b));
    assert!(!b.precedes(&a));
    let c = ScalarValue::Float32(Some((-3.0f32).to_bits()));
    let d = ScalarValue::Float32(Some((-2.0f32).to_bits()));
    assert!(c.precedes(&d));
    assert!(!d.precedes(&c));
    assert!(!d.precedes(&d));
}

#[test]
fn infinities_bound_the_numbers() {
    let mut max = MaxAccumulator::try_new(&DataType::Float64).unwrap();
    let mut min = MinAccumulator::try_new(&DataType::Float64).unwrap();
    for v in [f64::MAX, f64::INFINITY, f64::MIN, f64::NEG_INFINITY, 0.0] {
        max.update(&ScalarValue::Float64(Some(v.to_bits()))).unwrap();
        min.update(&ScalarValue::Float64(Some(v.to_bits()))).unwrap();
    }
    assert_eq!(max.evaluate(), ScalarValue::Float64(Some(f64::INFINITY.to_bits())));
    assert_eq!(min.evaluate(), ScalarValue::Float64(Some(f64::NEG_INFINITY.to_bits())));
}

#[test]
fn negative_zero_comes_directly_before_zero() {
    let minus = ScalarValue::Float32(Some((-0.0f32).to_bits()));
    let plus = ScalarValue::Float32(Some(0.0f32.to_bits()));
    assert!(minus.precedes(&plus));
    assert!(!plus.precedes(&minus));
    let below = ScalarValue::Float32(Some((-f32::MIN_POSITIVE).to_bits()));
    assert!(below.precedes(&minus));
}

#[test]
fn values_of_different_types_do_not_precede_each_other() {
    let a = ScalarValue::Int32(Some(1));
    let b = ScalarValue::Int64(Some(2));
    assert!(!a.precedes(&b));
    assert!(!b.precedes(&a));
    assert!(!ScalarValue::Int32(None).precedes(&a));
    assert!(!a.precedes(&ScalarValue::Int32(None)));
}

#[test]
fn scalar_values_tell_their_type_and_nullness() {
    assert_eq!(ScalarValue::Boolean(Some(true)).data_type(), DataType::Boolean);
    assert_eq!(ScalarValue::Int32(None).data_type(), DataType::Int32);
    assert_eq!(ScalarValue::Int64(Some(1)).data_type(), DataType::Int64);
    assert_eq!(ScalarValue::Float32(None).data_type(), DataType::Float32);
    assert_eq!(ScalarValue::Float64(Some(0)).data_type(), DataType::Float64);
    assert!(ScalarValue::Float64(None).is_null());
    assert!(!ScalarValue::Float64(Some(0)).is_null());
    assert!(ScalarValue::Boolean(None).is_null());
    assert!(!ScalarValue::Int32(Some(0)).is_null());
}

#[test]
fn the_bounds_enclose_every_value_that_was_fed() {
    let values = [17i64, -4, 250, 3, -90, 250, 8];
    let mut max = MaxAccumulator::try_new(&DataType::Int64).unwrap();
    let mut min = MinAccumulator::try_new(&DataType::Int64).unwrap();
    for v in values {
        max.update(&ScalarValue::Int64(Some(v))).unwrap();
        min.update(&ScalarValue::Int64(Some(v))).unwrap();
    }
    let (top, bottom) = match (max.evaluate(), min.evaluate()) {
        (ScalarValue::Int64(Some(top)), ScalarValue::Int64(Some(bottom))) => (top, bottom),
        other => panic!("no bounds: {:?}", other),
    };
    for v in values {
        assert!(top >= v);
        assert!(bottom <= v);
    }
    assert_eq!(top, 250);
    assert_eq!(bottom, -90);
}
