//! The values that a stack holds, and their arithmetic.
//!
//! A floating point value is held as the bit pattern of its IEEE-754
//! binary64 format. Negation works on the pattern. Sums, products,
//! conversions from integers and comparisons of floating point values are
//! taken from a [`FloatUnit`] that the caller supplies; each operation here
//! says exactly what it returns for every answer of the unit.

use vstd::prelude::*;
use vstd::wrapping::i128_specs::wrapping_add;
use vstd::wrapping::i128_specs::wrapping_mul;
use vstd::wrapping::i128_specs::wrapping_sub;

verus! {

/// A value of one of four primitive kinds.
///
/// `==` compares two values as they are held, a floating point value by its
/// bit pattern. The comparison of values as numbers, in which an integer can
/// equal a floating point number, is [`Value::equals`].
#[derive(Debug, PartialEq)]
pub enum Value {
    /// A binary value: either `true` or `false`.
    Boolean(bool),
    /// A signed floating point value in IEEE-754 binary64 format, held as its
    /// bit pattern.
    Float(u64),
    /// A signed integer value.
    Integer(i128),
    /// A string of characters.
    String(String),
}

/// What a [`Value`] stands for: the same four kinds, with a string given by
/// its characters.
pub enum ValueView {
    Boolean(bool),
    Float(u64),
    Integer(i128),
    String(Seq<char>),
}

impl View for Value {
    type V = ValueView;

    open spec fn view(&self) -> ValueView {
        match self {
            Value::Boolean(b) => ValueView::Boolean(*b),
            Value::Float(bits) => ValueView::Float(*bits),
            Value::Integer(i) => ValueView::Integer(*i),
            Value::String(s) => ValueView::String(s@),
        }
    }
}

impl Clone for Value {
    fn clone(&self) -> (r: Self)
        ensures
            r == *self,
    {
        match self {
            Value::Boolean(b) => Value::Boolean(*b),
            Value::Float(bits) => Value::Float(*bits),
            Value::Integer(i) => Value::Integer(*i),
            Value::String(s) => Value::String(s.clone()),
        }
    }
}

/// The sign bit of the binary64 format.
pub const SIGN_BIT: u64 = 0x8000_0000_0000_0000u64;

/// An operation was asked of values of kinds that it is not defined on.
#[derive(Debug, PartialEq, Eq, Clone, Copy)]
pub struct TypeError;

/// The arithmetic of binary64 floating point numbers, each given and
/// returned as its bit pattern.
pub trait FloatUnit {
    /// The sum of `a` and `b`.
    fn sum(&self, a: u64, b: u64) -> u64;

    /// The product of `a` and `b`.
    fn product(&self, a: u64, b: u64) -> u64;

    /// The floating point number nearest to the integer `value`.
    fn from_integer(&self, value: i128) -> u64;

    /// Whether the square of the difference of `a` and `b` is below the
    /// tolerance of `10^-19`.
    fn near(&self, a: u64, b: u64) -> bool;
}

/// Whether an operation on `a` and `b` is one on numbers of which at least
/// one is a floating point number.
pub open spec fn involves_float(a: Value, b: Value) -> bool {
    ||| a is Float && b is Float
    ||| a is Float && b is Integer
    ||| a is Integer && b is Float
}

/// Whether `x` and `y` are what `unit` may make of `a` and `b` as floating
/// point numbers, of which at least one is one: a floating point number is
/// taken as it is, and an integer is converted by the unit.
pub open spec fn as_floats<U: FloatUnit>(unit: &U, a: Value, b: Value, x: u64, y: u64) -> bool {
    match (a, b) {
        (Value::Float(p), Value::Float(q)) => x == p && y == q,
        (Value::Float(p), Value::Integer(q)) => x == p && call_ensures(
            U::from_integer,
            (unit, q),
            y,
        ),
        (Value::Integer(p), Value::Float(q)) => call_ensures(U::from_integer, (unit, p), x) && y
            == q,
        _ => false,
    }
}

/// Whether `sum` is what `unit` may return as the sum of `a` and `b` as
/// floating point numbers.
pub open spec fn float_sum_of<U: FloatUnit>(unit: &U, a: Value, b: Value, sum: u64) -> bool {
    exists|x: u64, y: u64|
        as_floats(unit, a, b, x, y) && #[trigger] call_ensures(U::sum, (unit, x, y), sum)
}

/// Whether `product` is what `unit` may return as the product of `a` and
/// `b` as floating point numbers.
pub open spec fn float_product_of<U: FloatUnit>(
    unit: &U,
    a: Value,
    b: Value,
    product: u64,
) -> bool {
    exists|x: u64, y: u64|
        as_floats(unit, a, b, x, y) && #[trigger] call_ensures(U::product, (unit, x, y), product)
}

/// Whether `near` is what `unit` may answer when asked whether `a` and `b`
/// are near each other as floating point numbers.
pub open spec fn floats_near_of<U: FloatUnit>(unit: &U, a: Value, b: Value, near: bool) -> bool {
    exists|x: u64, y: u64|
        as_floats(unit, a, b, x, y) && #[trigger] call_ensures(U::near, (unit, x, y), near)
}

/// The negation of `v`: the logical one of a boolean, the arithmetic one,
/// wrapping, of an integer, and the flipped sign of a floating point number.
/// A string has none.
pub open spec fn negation(v: Value) -> Option<Value> {
    match v {
        Value::Boolean(x) => Some(Value::Boolean(!x)),
        Value::Float(bits) => Some(Value::Float(bits ^ SIGN_BIT)),
        Value::Integer(x) => Some(Value::Integer(wrapping_sub(0, x))),
        Value::String(_) => None,
    }
}

/// The sum of `a` and `b`, where `float_sum` is the sum of the two as
/// floating point numbers if one of them is one: the logical or of booleans,
/// the wrapping sum of integers, `float_sum` for numbers of which one is a
/// floating point number. Other pairs have none.
pub open spec fn addition(a: Value, b: Value, float_sum: u64) -> Option<Value> {
    match (a, b) {
        (Value::Boolean(x), Value::Boolean(y)) => Some(Value::Boolean(x || y)),
        (Value::Integer(x), Value::Integer(y)) => Some(Value::Integer(wrapping_add(x, y))),
        _ => if involves_float(a, b) {
            Some(Value::Float(float_sum))
        } else {
            None
        },
    }
}

/// The product of `a` and `b`, where `float_product` is the product of the
/// two as floating point numbers if one of them is one: the logical and of
/// booleans, the wrapping product of integers, `float_product` for numbers
/// of which one is a floating point number. Other pairs have none.
pub open spec fn multiplication(a: Value, b: Value, float_product: u64) -> Option<Value> {
    match (a, b) {
        (Value::Boolean(x), Value::Boolean(y)) => Some(Value::Boolean(x && y)),
        (Value::Integer(x), Value::Integer(y)) => Some(Value::Integer(wrapping_mul(x, y))),
        _ => if involves_float(a, b) {
            Some(Value::Float(float_product))
        } else {
            None
        },
    }
}

/// The difference of `a` and `b`: the sum of `a` and the negation of `b`,
/// where `float_sum` is that sum as floating point numbers if one of the two
/// is one.
pub open spec fn subtraction(a: Value, b: Value, float_sum: u64) -> Option<Value> {
    match negation(b) {
        Some(negated) => addition(a, negated, float_sum),
        None => None,
    }
}

/// Whether `a` and `b` are equal, where `floats_near` tells whether the two
/// are near each other as floating point numbers if one of them is one:
/// booleans, integers and strings are equal if they are the same, numbers
/// of which one is a floating point number if `floats_near`. Values of
/// other pairs of kinds are never equal.
pub open spec fn equality(a: ValueView, b: ValueView, floats_near: bool) -> bool {
    match (a, b) {
        (ValueView::Boolean(x), ValueView::Boolean(y)) => x == y,
        (ValueView::Integer(x), ValueView::Integer(y)) => x == y,
        (ValueView::String(x), ValueView::String(y)) => x == y,
        (ValueView::Float(_), ValueView::Float(_)) => floats_near,
        (ValueView::Float(_), ValueView::Integer(_)) => floats_near,
        (ValueView::Integer(_), ValueView::Float(_)) => floats_near,
        _ => false,
    }
}

/// Equality is reflexive on booleans, integers and strings, whatever the
/// float unit answers.
pub proof fn lemma_equality_reflexive(v: ValueView, floats_near: bool)
    requires
        !(v is Float),
    ensures
        equality(v, v, floats_near),
{
}

/// The result of an operation that has the value `outcome`, or none.
pub open spec fn typed(outcome: Option<Value>) -> Result<Value, TypeError> {
    match outcome {
        Some(v) => Ok(v),
        None => Err(TypeError),
    }
}

impl Value {
    /// Negates the value. Fails on a string.
    pub fn not(self) -> (r: Result<Value, TypeError>)
        ensures
            r == typed(negation(self)),
    {
        match self {
            Value::Boolean(x) => Ok(Value::Boolean(!x)),
            Value::Float(bits) => Ok(Value::Float(bits ^ SIGN_BIT)),
            Value::Integer(x) => Ok(Value::Integer(0i128.wrapping_sub(x))),
            Value::String(_) => Err(TypeError),
        }
    }

    /// Adds `rhs` to the value, given in `float_sum` the sum of the two as
    /// floating point numbers. Fails on values that cannot be added.
    pub fn add_given(self, rhs: Value, float_sum: u64) -> (r: Result<Value, TypeError>)
        ensures
            r == typed(addition(self, rhs, float_sum)),
    {
        match (self, rhs) {
            (Value::Boolean(x), Value::Boolean(y)) => Ok(Value::Boolean(x || y)),
            (Value::Integer(x), Value::Integer(y)) => Ok(Value::Integer(x.wrapping_add(y))),
            (Value::Float(_), Value::Float(_)) => Ok(Value::Float(float_sum)),
            (Value::Float(_), Value::Integer(_)) => Ok(Value::Float(float_sum)),
            (Value::Integer(_), Value::Float(_)) => Ok(Value::Float(float_sum)),
            _ => Err(TypeError),
        }
    }

    /// Multiplies the value by `rhs`, given in `float_product` the product
    /// of the two as floating point numbers. Fails on values that cannot be
    /// multiplied.
    pub fn mul_given(self, rhs: Value, float_product: u64) -> (r: Result<Value, TypeError>)
        ensures
            r == typed(multiplication(self, rhs, float_product)),
    {
        match (self, rhs) {
            (Value::Boolean(x), Value::Boolean(y)) => Ok(Value::Boolean(x && y)),
            (Value::Integer(x), Value::Integer(y)) => Ok(Value::Integer(x.wrapping_mul(y))),
            (Value::Float(_), Value::Float(_)) => Ok(Value::Float(float_product)),
            (Value::Float(_), Value::Integer(_)) => Ok(Value::Float(float_product)),
            (Value::Integer(_), Value::Float(_)) => Ok(Value::Float(float_product)),
            _ => Err(TypeError),
        }
    }

    /// Tells whether the value equals `other`, given in `floats_near`
    /// whether the two are near each other as floating point numbers.
    pub fn equals_given(&self, other: &Value, floats_near: bool) -> (r: bool)
        ensures
            r == equality(self@, other@, floats_near),
    {
        match (self, other) {
            (Value::Boolean(x), Value::Boolean(y)) => *x == *y,
            (Value::Integer(x), Value::Integer(y)) => *x == *y,
            (Value::String(x), Value::String(y)) => *x == *y,
            (Value::Float(_), Value::Float(_)) => floats_near,
            (Value::Float(_), Value::Integer(_)) => floats_near,
            (Value::Integer(_), Value::Float(_)) => floats_near,
            _ => false,
        }
    }

    /// Gives the two values as floating point numbers, where at least one
    /// of them is one: an integer is converted by `unit`.
    fn to_floats<U: FloatUnit>(&self, other: &Value, unit: &U) -> (r: Option<(u64, u64)>)
        ensures
            r is Some <==> involves_float(*self, *other),
            r is Some ==> as_floats(unit, *self, *other, r->Some_0.0, r->Some_0.1),
    {
        match (self, other) {
            (Value::Float(x), Value::Float(y)) => Some((*x, *y)),
            (Value::Float(x), Value::Integer(y)) => Some((*x, unit.from_integer(*y))),
            (Value::Integer(x), Value::Float(y)) => Some((unit.from_integer(*x), *y)),
            _ => None,
        }
    }

    /// Adds `rhs` to the value: the logical or of booleans, the wrapping sum
    /// of integers, and the sum that `unit` gives for numbers of which one is
    /// a floating point number, the integer converted first. Fails on values
    /// that cannot be added.
    pub fn add<U: FloatUnit>(self, rhs: Value, unit: &U) -> (r: Result<Value, TypeError>)
        ensures
            !involves_float(self, rhs) ==> r == typed(addition(self, rhs, 0)),
            involves_float(self, rhs) ==> exists|float_sum: u64|
                float_sum_of(unit, self, rhs, float_sum) && r == typed(
                    #[trigger] addition(self, rhs, float_sum),
                ),
    {
        let float_sum: u64 = match self.to_floats(&rhs, unit) {
            Some((x, y)) => unit.sum(x, y),
            None => 0,
        };
        self.add_given(rhs, float_sum)
    }

    /// Multiplies the value by `rhs`: the logical and of booleans, the
    /// wrapping product of integers, and the product that `unit` gives for
    /// numbers of which one is a floating point number, the integer converted
    /// first. Fails on values that cannot be multiplied.
    pub fn mul<U: FloatUnit>(self, rhs: Value, unit: &U) -> (r: Result<Value, TypeError>)
        ensures
            !involves_float(self, rhs) ==> r == typed(multiplication(self, rhs, 0)),
            involves_float(self, rhs) ==> exists|float_product: u64|
                float_product_of(unit, self, rhs, float_product) && r == typed(
                    #[trigger] multiplication(self, rhs, float_product),
                ),
    {
        let float_product: u64 = match self.to_floats(&rhs, unit) {
            Some((x, y)) => unit.product(x, y),
            None => 0,
        };
        self.mul_given(rhs, float_product)
    }

    /// Subtracts `rhs` from the value: adds the negation of `rhs`. Fails on
    /// values that cannot be negated or added.
    pub fn sub<U: FloatUnit>(self, rhs: Value, unit: &U) -> (r: Result<Value, TypeError>)
        ensures
            !involves_float(self, rhs) ==> r == typed(subtraction(self, rhs, 0)),
            involves_float(self, rhs) ==> exists|float_sum: u64|
                float_sum_of(unit, self, negation(rhs)->Some_0, float_sum) && r == typed(
                    #[trigger] subtraction(self, rhs, float_sum),
                ),
    {
        match rhs.not() {
            Ok(negated) => {
                let r = self.add(negated, unit);
                proof {
                    if involves_float(self, rhs) {
                        let float_sum = choose|float_sum: u64|
                            float_sum_of(unit, self, negated, float_sum) && r == typed(
                                #[trigger] addition(self, negated, float_sum),
                            );
                        assert(r == typed(subtraction(self, rhs, float_sum)));
                    }
                }
                r
            },
            Err(e) => Err(e),
        }
    }

    /// Tells whether the value equals `other`: booleans, integers and
    /// strings if they are the same, and numbers of which one is a floating
    /// point number if `unit` finds them near each other, the integer
    /// converted first. Values of other pairs of kinds are never equal.
    pub fn equals<U: FloatUnit>(&self, other: &Value, unit: &U) -> (r: bool)
        ensures
            !involves_float(*self, *other) ==> r == equality(self@, other@, false),
            involves_float(*self, *other) ==> floats_near_of(unit, *self, *other, r),
            !(self is Float) && self@ == other@ ==> r,
    {
        let floats_near: bool = match self.to_floats(other, unit) {
            Some((x, y)) => unit.near(x, y),
            None => false,
        };
        self.equals_given(other, floats_near)
    }
}

} // verus!
