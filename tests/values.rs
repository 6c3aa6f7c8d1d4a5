use std::rc::Rc;

use rowcore::arith::{Arith, ArithError, Number};
use rowcore::value::{to_value, AggContext, FromValue, OwnedValue, Value, ValueError};

fn as_f64(n: Number) -> f64 {
    match n {
        Number::Integer(i) => i as f64,
        Number::Float(bits) => f64::from_bits(bits),
    }
}

fn float(x: f64) -> OwnedValue {
    OwnedValue::Float(x.to_bits())
}

fn sum_of(r: Result<Arith, ArithError>) -> f64 {
    match r {
        Ok(Arith::FloatSum(a, b)) => as_f64(a) + as_f64(b),
        other => panic!("expected a float sum, got {:?}", other),
    }
}

fn quotient_of(r: Result<Arith, ArithError>) -> f64 {
    match r {
        Ok(Arith::FloatQuotient(a, b)) => as_f64(a) / as_f64(b),
        other => panic!("expected a float quotient, got {:?}", other),
    }
}

fn integer_of(r: Result<Arith, ArithError>) -> i64 {
    match r {
        Ok(Arith::Value(OwnedValue::Integer(i))) => i,
        other => panic!("expected an integer, got {:?}", other),
    }
}

#[test]
fn integer_plus_float_is_float() {
    assert_eq!(sum_of(OwnedValue::Integer(3).add(float(2.5))), 5.5);
}

#[test]
fn float_plus_integer_is_float() {
    assert_eq!(sum_of(float(2.5).add(OwnedValue::Integer(3))), 5.5);
}

#[test]
fn float_plus_float_is_float() {
    assert_eq!(sum_of(float(1.25).add(float(2.5))), 3.75);
}

#[test]
fn integer_plus_integer_is_integer() {
    assert_eq!(integer_of(OwnedValue::Integer(40).add(OwnedValue::Integer(2))), 42);
}

#[test]
fn integer_addition_wraps() {
    assert_eq!(integer_of(OwnedValue::Integer(i64::MAX).add(OwnedValue::Integer(1))), i64::MIN);
}

#[test]
fn integer_division_truncates() {
    assert_eq!(integer_of(OwnedValue::Integer(7).div(OwnedValue::Integer(2))), 3);
    assert_eq!(integer_of(OwnedValue::Integer(-7).div(OwnedValue::Integer(2))), -3);
}

#[test]
fn float_division_by_integer() {
    assert_eq!(quotient_of(float(7.0).div(OwnedValue::Integer(2))), 3.5);
}

#[test]
fn integer_division_by_float() {
    assert_eq!(quotient_of(OwnedValue::Integer(7).div(float(2.0))), 3.5);
}

#[test]
fn integer_division_truncates_toward_zero_for_negative_divisors() {
    assert_eq!(integer_of(OwnedValue::Integer(-7).div(OwnedValue::Integer(-2))), 3);
    assert_eq!(integer_of(OwnedValue::Integer(7).div(OwnedValue::Integer(-2))), -3);
    assert_eq!(integer_of(OwnedValue::Integer(i64::MIN).div(OwnedValue::Integer(1))), i64::MIN);
}

#[test]
fn null_is_additive_identity() {
    assert_eq!(integer_of(OwnedValue::Null.add(OwnedValue::Integer(4))), 4);
    assert_eq!(integer_of(OwnedValue::Integer(4).add(OwnedValue::Null)), 4);
    let text = OwnedValue::Text(Rc::new("x".to_string()));
    match OwnedValue::Null.add(text) {
        Ok(Arith::Value(OwnedValue::Text(s))) => assert_eq!(s.as_str(), "x"),
        other => panic!("unexpected {:?}", other),
    }
}

#[test]
fn text_plus_integer_is_refused() {
    let text = OwnedValue::Text(Rc::new("x".to_string()));
    assert!(matches!(
        text.add(OwnedValue::Integer(1)),
        Err(ArithError::UnsupportedOperands)
    ));
}

#[test]
fn division_through_null_is_refused() {
    assert!(matches!(
        OwnedValue::Null.div(OwnedValue::Integer(1)),
        Err(ArithError::UnsupportedOperands)
    ));
}

#[test]
fn bare_operand_additions() {
    assert_eq!(integer_of(OwnedValue::Integer(5).add_integer(6)), 11);
    assert_eq!(sum_of(float(0.5).add_integer(2)), 2.5);
    assert_eq!(sum_of(OwnedValue::Integer(2).add_float(0.5f64.to_bits())), 2.5);
    assert!(matches!(
        OwnedValue::Null.add_integer(1),
        Err(ArithError::UnsupportedOperands)
    ));
}

#[test]
fn to_value_reads_through_aggregates() {
    let avg = OwnedValue::Agg(Box::new(AggContext::Avg(
        OwnedValue::Integer(10),
        OwnedValue::Integer(4),
    )));
    assert_eq!(to_value(&avg), Value::Integer(10));
    let text = OwnedValue::Text(Rc::new("hi".to_string()));
    match to_value(&text) {
        Value::Text(s) => assert_eq!(s.as_str(), "hi"),
        other => panic!("unexpected {:?}", other),
    }
    assert_eq!(to_value(&OwnedValue::Null), Value::Null);
}

#[test]
fn from_value_conversions() {
    assert_eq!(i64::from_value(&Value::Integer(9)), Ok(9));
    assert_eq!(i64::from_value(&Value::Null), Err(ValueError::ExpectedInteger));
    let s = "abc".to_string();
    assert_eq!(String::from_value(&Value::Text(&s)), Ok("abc".to_string()));
    assert_eq!(<&str>::from_value(&Value::Text(&s)), Ok("abc"));
    assert_eq!(String::from_value(&Value::Integer(1)), Err(ValueError::ExpectedText));
}

#[test]
fn owned_value_clone_shares_text() {
    let text = OwnedValue::Text(Rc::new("shared".to_string()));
    let copy = text.clone();
    match (&text, &copy) {
        (OwnedValue::Text(a), OwnedValue::Text(b)) => assert!(Rc::ptr_eq(a, b)),
        _ => panic!("clone changed the kind"),
    }
}

#[test]
fn scalar_reading_check() {
    assert!(rowcore::value::has_scalar_reading(&OwnedValue::Integer(1)));
    let rec = rowcore::record::OwnedRecord::new(vec![]);
    let nested = OwnedValue::Agg(Box::new(AggContext::Sum(OwnedValue::Record(rec))));
    assert!(!rowcore::value::has_scalar_reading(&nested));
}
