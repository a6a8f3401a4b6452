use condtree::condition::{
    Condition, FloatInRange, FloatListIsNotEmpty, FloatListLengthNotEquals, IntLessThanOrEquals,
};
use condtree::context::NullContext;
use condtree::error::NodeError;
use condtree::float::Float;
use condtree::value::{FloatListValue, FloatRange, FloatRangeValue, FloatValue, IntValue};

fn float(x: f64) -> Float {
    Float::from_bits(x.to_bits())
}

fn lit(x: f64) -> FloatValue {
    FloatValue::Literal(float(x))
}

fn range(start: f64, end: f64) -> FloatRangeValue {
    FloatRangeValue::Literal(FloatRange { start: float(start), end: float(end) })
}

fn in_range(value: f64, start: f64, end: f64) -> FloatInRange {
    FloatInRange { value: lit(value), range: range(start, end) }
}

fn list(xs: &[f64]) -> FloatListValue {
    FloatListValue::Literal(xs.iter().map(|x| lit(*x)).collect())
}

fn less_eq(left: i64, right: i64) -> IntLessThanOrEquals {
    IntLessThanOrEquals { left: IntValue::Literal(left), right: IntValue::Literal(right) }
}

#[test]
fn test_is_met() {
    let condition = in_range(1.0, 0.0, 2.0);
    assert!(condition.is_met(&NullContext).unwrap());
}

#[test]
fn test_is_met2() {
    let condition = in_range(1.0, 1.0, 2.0);
    assert!(condition.is_met(&NullContext).unwrap());
}

#[test]
fn test_is_met3() {
    let condition = in_range(1.0, 0.0, 1.0);
    assert!(!condition.is_met(&NullContext).unwrap());
}

#[test]
fn in_range_nan_is_never_inside() {
    assert!(!in_range(f64::NAN, 0.0, 2.0).is_met(&NullContext).unwrap());
    assert!(!in_range(1.0, f64::NAN, 2.0).is_met(&NullContext).unwrap());
}

#[test]
fn in_range_negative_zero_equals_zero() {
    assert!(in_range(-0.0, 0.0, 1.0).is_met(&NullContext).unwrap());
    assert!(!in_range(0.0, -1.0, -0.0).is_met(&NullContext).unwrap());
}

#[test]
fn in_range_negative_values() {
    assert!(in_range(-1.5, -2.0, -1.0).is_met(&NullContext).unwrap());
    assert!(!in_range(-2.5, -2.0, -1.0).is_met(&NullContext).unwrap());
    assert!(in_range(-2.0, f64::NEG_INFINITY, f64::INFINITY).is_met(&NullContext).unwrap());
}

#[test]
fn is_not_empty_test_is_met() {
    let condition = FloatListIsNotEmpty { list: FloatListValue::Literal(Vec::new()) };
    assert!(!condition.is_met(&NullContext).unwrap());
}

#[test]
fn is_not_empty_test_is_met2() {
    let condition = FloatListIsNotEmpty { list: list(&[1.0]) };
    assert!(condition.is_met(&NullContext).unwrap());
}

#[test]
fn length_not_equals_test_is_met() {
    let condition = FloatListLengthNotEquals {
        list: list(&[1.0, 2.0, 3.0]),
        length: IntValue::Literal(3),
    };
    assert!(!condition.is_met(&NullContext).unwrap());
}

#[test]
fn length_not_equals_test_is_met2() {
    let condition = FloatListLengthNotEquals { list: list(&[1.0]), length: IntValue::Literal(3) };
    assert!(condition.is_met(&NullContext).unwrap());
}

#[test]
fn length_not_equals_refuses_negative_length() {
    let condition = FloatListLengthNotEquals { list: list(&[1.0]), length: IntValue::Literal(-1) };
    let r = condition.is_met(&NullContext);
    assert!(matches!(r, Err(NodeError::InvalidParameter { value: -1 })));
}

#[test]
fn length_not_equals_empty_list_zero_length() {
    let condition = FloatListLengthNotEquals { list: list(&[]), length: IntValue::Literal(0) };
    assert!(!condition.is_met(&NullContext).unwrap());
}

#[test]
fn mod_test_is_met() {
    assert!(less_eq(1, 1).is_met(&NullContext).unwrap());
}

#[test]
fn mod_test_is_met2() {
    assert!(less_eq(1, 2).is_met(&NullContext).unwrap());
}

#[test]
fn mod_test_is_met3() {
    assert!(!less_eq(2, 1).is_met(&NullContext).unwrap());
}

#[test]
fn less_eq_extremes() {
    assert!(less_eq(i64::MIN, i64::MAX).is_met(&NullContext).unwrap());
    assert!(!less_eq(i64::MAX, i64::MIN).is_met(&NullContext).unwrap());
}

#[test]
fn condition_enum_dispatches() {
    let c = Condition::IntLessThanOrEquals(less_eq(2, 1));
    assert!(!c.is_met(&NullContext).unwrap());
    let c = Condition::FloatInRange(in_range(1.0, 0.0, 2.0));
    assert!(c.is_met(&NullContext).unwrap());
}
