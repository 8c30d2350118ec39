use scriptful::value::FloatUnit;
use scriptful::value::TypeError;
use scriptful::value::Value;
use scriptful::value::Value::{Boolean, Integer};

struct Fpu;

impl FloatUnit for Fpu {
    fn sum(&self, a: u64, b: u64) -> u64 {
        (f64::from_bits(a) + f64::from_bits(b)).to_bits()
    }

    fn product(&self, a: u64, b: u64) -> u64 {
        (f64::from_bits(a) * f64::from_bits(b)).to_bits()
    }

    fn from_integer(&self, value: i128) -> u64 {
        (value as f64).to_bits()
    }

    fn near(&self, a: u64, b: u64) -> bool {
        let (a, b) = (f64::from_bits(a), f64::from_bits(b));
        (a - b) * (a - b) < 0.000_000_000_000_000_000_1
    }
}

#[allow(non_snake_case)]
fn Float(x: f64) -> Value {
    Value::Float(x.to_bits())
}

fn not(a: Value) -> Value {
    a.not().unwrap()
}

fn add(a: Value, b: Value) -> Value {
    a.add(b, &Fpu).unwrap()
}

fn sub(a: Value, b: Value) -> Value {
    a.sub(b, &Fpu).unwrap()
}

fn mul(a: Value, b: Value) -> Value {
    a.mul(b, &Fpu).unwrap()
}

fn eq(a: Value, b: Value) -> bool {
    a.equals(&b, &Fpu)
}

#[test]
fn test_negation() {
    assert!(eq(not(Boolean(true)), Boolean(false)));
    assert!(eq(not(Boolean(false)), Boolean(true)));
    assert!(eq(not(Float(0.)), Float(0.)));
    assert!(eq(not(Float(1.1)), Float(-1.1)));
    assert!(eq(not(Integer(0)), Integer(0)));
    assert!(eq(not(Integer(1)), Integer(-1)));
}

#[test]
fn test_addition() {
    assert!(eq(add(Boolean(false), Boolean(false)), Boolean(false)));
    assert!(eq(add(Boolean(false), Boolean(true)), Boolean(true)));
    assert!(eq(add(Boolean(true), Boolean(false)), Boolean(true)));
    assert!(eq(add(Boolean(true), Boolean(true)), Boolean(true)));
    assert!(eq(add(Float(1.1), Float(2.2)), Float(3.3)));
    assert!(eq(add(Float(1.1), Float(-2.2)), Float(-1.1)));
    assert!(eq(add(Float(1.1), Integer(2)), Float(3.1)));
    assert!(eq(add(Float(1.1), Integer(-2)), Float(-0.9)));
    assert!(eq(add(Integer(1), Integer(2)), Integer(3)));
    assert!(eq(add(Integer(1), Integer(-2)), Integer(-1)));
    assert!(eq(add(Integer(1), Float(2.2)), Float(3.2)));
    assert!(eq(add(Integer(1), Float(-2.1)), Float(-1.1)));
}

#[test]
fn test_subtraction() {
    assert!(eq(sub(Boolean(false), Boolean(false)), Boolean(true)));
    assert!(eq(sub(Boolean(false), Boolean(true)), Boolean(false)));
    assert!(eq(sub(Boolean(true), Boolean(false)), Boolean(true)));
    assert!(eq(sub(Boolean(true), Boolean(true)), Boolean(true)));
    assert!(eq(sub(Float(1.1), Float(2.2)), Float(-1.1)));
    assert!(eq(sub(Float(1.1), Float(-2.2)), Float(3.3)));
    assert!(eq(sub(Float(1.1), Integer(2)), Float(-0.9)));
    assert!(eq(sub(Float(1.1), Integer(-2)), Float(3.1)));
    assert!(eq(sub(Integer(1), Integer(2)), Integer(-1)));
    assert!(eq(sub(Integer(1), Integer(-2)), Integer(3)));
    assert!(eq(sub(Integer(1), Float(2.2)), Float(-1.2)));
    assert!(eq(sub(Integer(1), Float(-2.2)), Float(3.2)));
}

#[test]
fn test_multiplication() {
    assert!(eq(mul(Boolean(false), Boolean(false)), Boolean(false)));
    assert!(eq(mul(Boolean(false), Boolean(true)), Boolean(false)));
    assert!(eq(mul(Boolean(true), Boolean(false)), Boolean(false)));
    assert!(eq(mul(Boolean(true), Boolean(true)), Boolean(true)));
    assert!(eq(mul(Float(1.1), Float(2.2)), Float(2.42)));
    assert!(eq(mul(Float(1.1), Float(-2.2)), Float(-2.42)));
    assert!(eq(mul(Float(1.1), Integer(2)), Float(2.2)));
    assert!(eq(mul(Float(1.1), Integer(-2)), Float(-2.2)));
    assert!(eq(mul(Integer(1), Integer(2)), Integer(2)));
    assert!(eq(mul(Integer(1), Integer(-2)), Integer(-2)));
    assert!(eq(mul(Integer(1), Float(2.2)), Float(2.2)));
    assert!(eq(mul(Integer(1), Float(-2.2)), Float(-2.2)));
}

#[test]
fn test_comparison() {
    assert_eq!(eq(Boolean(false), Boolean(false)), true);
    assert_eq!(eq(Boolean(false), Boolean(true)), false);
    assert_eq!(eq(Boolean(true), Boolean(false)), false);
    assert_eq!(eq(Boolean(true), Boolean(true)), true);
    assert_eq!(eq(Float(1.1), Float(1.1)), true);
    assert_eq!(eq(Float(1.1), Float(2.2)), false);
    assert_eq!(eq(Float(-1.1), Float(-1.1)), true);
    assert_eq!(eq(Float(-1.1), Float(-2.2)), false);
    assert_eq!(eq(Float(1.1), Float(-1.1)), false);
    assert_eq!(eq(Float(1.), Integer(1)), true);
    assert_eq!(eq(Float(-1.), Integer(-1)), true);
    assert_eq!(eq(Integer(1), Integer(1)), true);
    assert_eq!(eq(Integer(1), Integer(2)), false);
    assert_eq!(eq(Integer(-1), Integer(-1)), true);
    assert_eq!(eq(Integer(-1), Integer(-2)), false);
    assert_eq!(eq(Integer(1), Integer(-1)), false);
    assert_eq!(eq(Integer(1), Float(1.)), true);
    assert_eq!(eq(Integer(-1), Float(-1.)), true);
}

#[test]
fn test_negation_flips_the_sign_bit() {
    assert_eq!(
        Value::Float(1.5f64.to_bits()).not(),
        Ok(Value::Float((-1.5f64).to_bits()))
    );
    assert_eq!(
        Value::Float(0.0f64.to_bits()).not(),
        Ok(Value::Float((-0.0f64).to_bits()))
    );
    assert_eq!(
        Value::Float(f64::INFINITY.to_bits()).not(),
        Ok(Value::Float(f64::NEG_INFINITY.to_bits()))
    );
}

#[test]
fn test_strings_have_no_arithmetic() {
    let text = || Value::String("foo".into());
    assert_eq!(text().not(), Err(TypeError));
    assert_eq!(text().add(text(), &Fpu), Err(TypeError));
    assert_eq!(text().add(Integer(1), &Fpu), Err(TypeError));
    assert_eq!(Integer(1).mul(text(), &Fpu), Err(TypeError));
    assert_eq!(Integer(1).sub(text(), &Fpu), Err(TypeError));
    assert_eq!(Boolean(true).add(Integer(1), &Fpu), Err(TypeError));
    assert_eq!(Boolean(true).mul(Float(1.0), &Fpu), Err(TypeError));
}

#[test]
fn test_integer_arithmetic_wraps() {
    assert_eq!(Integer(i128::MAX).add(Integer(1), &Fpu), Ok(Integer(i128::MIN)));
    assert_eq!(Integer(i128::MIN).not(), Ok(Integer(i128::MIN)));
    assert_eq!(Integer(i128::MAX).mul(Integer(2), &Fpu), Ok(Integer(-2)));
    assert_eq!(Integer(i128::MIN).sub(Integer(1), &Fpu), Ok(Integer(i128::MAX)));
}

#[test]
fn test_equality_across_kinds() {
    assert!(!eq(Boolean(true), Integer(1)));
    assert!(!eq(Value::String("1".into()), Integer(1)));
    assert!(!eq(Boolean(false), Float(0.0)));
    assert!(eq(Value::String("".into()), Value::String("".into())));
    assert!(eq(Value::String("héllo".into()), Value::String("héllo".into())));
    assert!(!eq(Value::String("a".into()), Value::String("b".into())));
}

#[test]
fn test_equality_is_reflexive_without_floats() {
    for v in [
        Boolean(true),
        Boolean(false),
        Integer(0),
        Integer(i128::MIN),
        Integer(i128::MAX),
        Value::String("".into()),
        Value::String("Hello, World!".into()),
    ] {
        assert!(v.equals(&v, &Fpu));
        assert!(v.equals_given(&v, false));
        assert!(v.equals_given(&v, true));
    }
}

#[test]
fn test_given_answers_are_returned() {
    assert_eq!(Float(1.0).add_given(Float(2.0), 77), Ok(Value::Float(77)));
    assert_eq!(Integer(1).add_given(Float(2.0), 78), Ok(Value::Float(78)));
    assert_eq!(Float(1.0).mul_given(Integer(2), 79), Ok(Value::Float(79)));
    assert_eq!(Integer(3).add_given(Integer(4), 80), Ok(Integer(7)));
    assert_eq!(Integer(3).mul_given(Integer(4), 80), Ok(Integer(12)));
    assert!(Float(1.0).equals_given(&Float(5.0), true));
    assert!(!Float(1.0).equals_given(&Float(1.0), false));
}

#[test]
fn test_clone_keeps_the_value() {
    let v = Value::String("copy".into());
    assert_eq!(v.clone(), v);
    assert_eq!(Float(2.5).clone(), Float(2.5));
}
