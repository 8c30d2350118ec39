//! An operator system of frequently used mathematical operators.

use crate::condition_stack::ConditionStack;
use crate::stack::Stack;
use crate::value::addition;
use crate::value::equality;
use crate::value::float_product_of;
use crate::value::float_sum_of;
use crate::value::FloatUnit;
use crate::value::floats_near_of;
use crate::value::involves_float;
use crate::value::multiplication;
use crate::value::negation;
use crate::value::subtraction;
use crate::value::typed;
use crate::value::Value;
use vstd::prelude::*;

verus! {

/// Frequently used mathematical operators.
#[derive(Debug, PartialEq, Eq, Clone, Copy)]
pub enum MathOperator {
    /// Addition of two numbers (`a + b`).
    Add,
    /// Equivalence of two numbers (`a == b`).
    Equal,
    /// Multiplication of two numbers (`a * b`).
    Mul,
    /// Negation of one number (`-a`).
    Not,
    /// Subtraction of two numbers (`a - b`).
    Sub,
}

impl View for MathOperator {
    type V = MathOperator;

    open spec fn view(&self) -> MathOperator {
        *self
    }
}

/// Why an operator could not be applied.
#[derive(Debug, PartialEq, Eq, Clone, Copy)]
pub enum MathError {
    /// The stack holds fewer values than the operator takes.
    StackUnderflow,
    /// The operator is not defined on the kinds of the values it took.
    TypeError,
}

/// The number of values that `operator` takes from the stack.
pub open spec fn arity(operator: MathOperator) -> nat {
    match operator {
        MathOperator::Not => 1,
        _ => 2,
    }
}

/// What `operator` makes of `a`, the topmost value, and `b`, the one below
/// it (`Not` takes `a` alone), or nothing where it is not defined on them.
/// Where one of the two is a floating point number, `float_answer` is the
/// sum or product of the two as floating point numbers and `floats_near`
/// tells whether they are near each other.
pub open spec fn math_result(
    operator: MathOperator,
    a: Value,
    b: Value,
    float_answer: u64,
    floats_near: bool,
) -> Option<Value> {
    match operator {
        MathOperator::Add => addition(a, b, float_answer),
        MathOperator::Equal => Some(Value::Boolean(equality(a@, b@, floats_near))),
        MathOperator::Mul => multiplication(a, b, float_answer),
        MathOperator::Not => negation(a),
        MathOperator::Sub => subtraction(a, b, float_answer),
    }
}

/// What applying `operator` makes of the `main` sub-stack `main`, and how it
/// ends, given the answers of the float unit as in [`math_result`].
///
/// The operator takes its values from the top. With too few values it fails
/// with `StackUnderflow`, and the values that it had taken by then are gone.
/// Where it is not defined on the values it fails with `TypeError`, and the
/// values are gone. Otherwise its result is pushed.
pub open spec fn after_math(
    operator: MathOperator,
    main: Seq<Value>,
    float_answer: u64,
    floats_near: bool,
) -> (Seq<Value>, Result<(), MathError>) {
    if main.len() < arity(operator) {
        (Seq::empty(), Err(MathError::StackUnderflow))
    } else {
        let rest = main.take(main.len() - arity(operator));
        let a = main[main.len() - 1];
        let b = if arity(operator) == 2 {
            main[main.len() - 2]
        } else {
            a
        };
        match math_result(operator, a, b, float_answer, floats_near) {
            Some(v) => (rest.push(v), Ok(())),
            None => (rest, Err(MathError::TypeError)),
        }
    }
}

/// Whether `float_answer` and `floats_near` are what `unit` may answer where
/// `operator`, applied to `main`, works on numbers of which one is a
/// floating point number: the sum for `Add`, the sum with the negation of
/// the second value for `Sub`, the product for `Mul`, and whether the two
/// are near each other for `Equal`.
pub open spec fn unit_answers<U: FloatUnit>(
    unit: &U,
    operator: MathOperator,
    main: Seq<Value>,
    float_answer: u64,
    floats_near: bool,
) -> bool {
    let a = main[main.len() - 1];
    let b = main[main.len() - 2];
    main.len() >= 2 && involves_float(a, b) ==> match operator {
        MathOperator::Add => float_sum_of(unit, a, b, float_answer),
        MathOperator::Equal => floats_near_of(unit, a, b, floats_near),
        MathOperator::Mul => float_product_of(unit, a, b, float_answer),
        MathOperator::Not => true,
        MathOperator::Sub => float_sum_of(unit, a, negation(b)->Some_0, float_answer),
    }
}

/// Whether `operator`, applied to `main`, works on a floating point number.
pub open spec fn takes_float(operator: MathOperator, main: Seq<Value>) -> bool {
    ||| main.len() >= 1 && main[main.len() - 1] is Float
    ||| main.len() >= 2 && arity(operator) == 2 && main[main.len() - 2] is Float
}

/// Whether the outcome `r` is the outcome `expected`: success for success,
/// and the same error.
pub open spec fn ends_as(r: Result<(), MathError>, expected: Result<(), MathError>) -> bool {
    match expected {
        Ok(_) => r is Ok,
        Err(e) => r == Err::<(), MathError>(e),
    }
}

/// Decides how each [`MathOperator`] works on the stack: it takes its values
/// from the top of the `main` sub-stack and pushes its result. Floating
/// point arithmetic is taken from `unit`. The `alt` sub-stack and the
/// condition stack stay as they are.
pub fn simple_math_op_sys<U: FloatUnit>(
    unit: &U,
    stack: &mut Stack,
    operator: &MathOperator,
    cond: &mut ConditionStack,
) -> (r: Result<(), MathError>)
    ensures
        final(cond).state() == old(cond).state(),
        final(stack).alt_values() == old(stack).alt_values(),
        exists|float_answer: u64, floats_near: bool|
            {
                let expected = #[trigger] after_math(
                    *operator,
                    old(stack).main_values(),
                    float_answer,
                    floats_near,
                );
                &&& unit_answers(
                    unit,
                    *operator,
                    old(stack).main_values(),
                    float_answer,
                    floats_near,
                )
                &&& final(stack).main_values() == expected.0
                &&& ends_as(r, expected.1)
            },
        !takes_float(*operator, old(stack).main_values()) ==> {
            let expected = after_math(*operator, old(stack).main_values(), 0, false);
            final(stack).main_values() == expected.0 && ends_as(r, expected.1)
        },
{
    let ghost main = stack.main_values();
    let a = match stack.pop() {
        Ok(a) => a,
        Err(_) => {
            assert(after_math(*operator, main, 0, false).0 == main);
            return Err(MathError::StackUnderflow);
        },
    };
    if let MathOperator::Not = operator {
        let negated = a.not();
        assert(after_math(*operator, main, 0, false).1 is Ok <==> negated is Ok);
        return match negated {
            Ok(v) => {
                stack.push(v);
                Ok(())
            },
            Err(_) => Err(MathError::TypeError),
        };
    }
    let b = match stack.pop() {
        Ok(b) => b,
        Err(_) => {
            assert(after_math(*operator, main, 0, false).0 == Seq::<Value>::empty());
            return Err(MathError::StackUnderflow);
        },
    };
    let ghost float_case = involves_float(a, b);
    let ghost mut float_answer: u64 = 0;
    let ghost mut floats_near: bool = false;
    let result = match operator {
        MathOperator::Add => {
            let sum = a.add(b, unit);
            proof {
                if float_case {
                    float_answer = choose|s: u64|
                        float_sum_of(unit, a, b, s) && sum == typed(#[trigger] addition(a, b, s));
                }
            }
            sum
        },
        MathOperator::Mul => {
            let product = a.mul(b, unit);
            proof {
                if float_case {
                    float_answer = choose|s: u64|
                        float_product_of(unit, a, b, s) && product == typed(
                            #[trigger] multiplication(a, b, s),
                        );
                }
            }
            product
        },
        MathOperator::Sub => {
            let difference = a.sub(b, unit);
            proof {
                if float_case {
                    float_answer = choose|s: u64|
                        float_sum_of(unit, a, negation(b)->Some_0, s) && difference == typed(
                            #[trigger] subtraction(a, b, s),
                        );
                }
            }
            difference
        },
        _ => {
            let equal = a.equals(&b, unit);
            proof {
                if float_case {
                    floats_near = equal;
                }
            }
            Ok(Value::Boolean(equal))
        },
    };
    assert(after_math(*operator, main, float_answer, floats_near).1 is Ok <==> result is Ok);
    match result {
        Ok(v) => {
            stack.push(v);
            Ok(())
        },
        Err(_) => Err(MathError::TypeError),
    }
}

} // verus!
