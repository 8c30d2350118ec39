use scriptful::condition_stack::ConditionStack;
use scriptful::item::Item;
use scriptful::item::Item::Operator;
use scriptful::machine::Machine;
use scriptful::op_systems::pokemon::pokemon_op_sys;
use scriptful::op_systems::pokemon::Command::{Close, Devolute, Evolute};
use scriptful::op_systems::pokemon::Creature;
use scriptful::op_systems::pokemon::Creature::{
    Blastoise, Bulbasaur, Charizard, Charmaleon, Charmander, Ivysaur, Squirtle, Venusaur,
    Wartortle,
};
use scriptful::op_systems::pokemon::PokemonError;
use scriptful::op_systems::simple_math::simple_math_op_sys;
use scriptful::op_systems::simple_math::MathError;
use scriptful::op_systems::simple_math::MathOperator;
use scriptful::stack::Stack;
use scriptful::value::FloatUnit;
use scriptful::value::Value;
use scriptful::value::Value::{Boolean, Integer};

struct Fpu;

impl FloatUnit for Fpu {
    fn sum(&self, a: u64, b: u64) -> u64 {
        (f64::from_bits(a) + f64::from_bits(b)).to_bits()
    }

    fn product(&self, a: u64, b: u64) -> u64 {
        (f64::from_bits(a) * f64::from_bits(b)).to_bits()
    }

    fn from_integer(&self, value: i128) -> u64 {
        (value as f64).to_bits()
    }

    fn near(&self, a: u64, b: u64) -> bool {
        let (a, b) = (f64::from_bits(a), f64::from_bits(b));
        (a - b) * (a - b) < 0.000_000_000_000_000_000_1
    }
}

#[allow(non_snake_case)]
fn Float(x: f64) -> Value {
    Value::Float(x.to_bits())
}

fn math(
    stack: &mut Stack,
    operator: &MathOperator,
    cond: &mut ConditionStack,
) -> Result<(), MathError> {
    simple_math_op_sys(&Fpu, stack, operator, cond)
}

/// The operators of a small language with conditionals.
#[derive(Debug, PartialEq, Eq)]
enum Flow {
    /// Takes the topmost value and opens a level that is taken if it is true.
    If,
    /// Flips the innermost level.
    Else,
    /// Closes the innermost level.
    EndIf,
    /// Opens a level that is not taken.
    Never,
}

fn flow(stack: &mut Stack, operator: &Flow, cond: &mut ConditionStack) -> Result<(), String> {
    match operator {
        Flow::If => {
            if cond.all_true() {
                match stack.pop() {
                    Ok(Boolean(b)) => cond.push_back(b),
                    Ok(_) => return Err("not a boolean".into()),
                    Err(_) => return Err("nothing to test".into()),
                }
            } else {
                cond.push_back(false);
            }
            Ok(())
        }
        Flow::Else => cond.toggle_top().ok_or("else without if".into()),
        Flow::EndIf => cond.pop_back().ok_or("endif without if".into()),
        Flow::Never => {
            cond.push_back(false);
            Ok(())
        }
    }
}

#[test]
fn test_one_plus_one_equals_two() {
    let machine = &mut Machine::new(math);

    let result = machine
        .run_script(&Vec::from([
            Item::Value(Integer(1)),
            Item::Value(Integer(1)),
            Operator(MathOperator::Add),
            Item::Value(Integer(2)),
            Operator(MathOperator::Equal),
        ]))
        .unwrap();

    assert_eq!(result, Some(&Boolean(true)));
}

#[test]
fn test_evolution() {
    // Let's create an evolution machine
    let mut machine = Machine::new(pokemon_op_sys);

    // You have a Charmander
    let my_creature = Charmander;

    // Put the Charmander into the machine
    let result = machine.operate(&Item::Value(my_creature.to_value())).unwrap();

    // There should obviously be a Charmander in the machine
    assert_eq!(result, Some(&Charmander.to_value()));
    // And there should be nothing else in the machine
    assert_eq!(machine.stack_length(), 1);

    // Let's make it evolute!
    let result = machine.operate(&Operator(Evolute)).unwrap();

    // Charmander should have turned into Charmaleon!
    assert_eq!(result, Some(&Charmaleon.to_value()));
    // And again there should be only 1 creature in the machine
    assert_eq!(machine.stack_length(), 1);

    // Let's evolute it again
    let result = machine.operate(&Operator(Evolute)).unwrap();

    // Meet our blazing Charizard!
    assert_eq!(result, Some(&Charizard.to_value()));

    // What if we try to evolute Charizard?
    let result = machine.operate(&Operator(Evolute)).unwrap();

    // Good try... but it should still be a Charizard
    assert_eq!(result, Some(&Charizard.to_value()));

    // Ok, we already got Charizard, let's just close the machine and make sure we don't leave
    // any creature behind
    assert_eq!(machine.operate(&Operator(Close)), Ok(None));
    assert_eq!(machine.stack_length(), 0);
}

#[test]
fn test_devolution() {
    // Let's create a devolution machine
    let mut machine = Machine::new(pokemon_op_sys);

    // This time you have a Blastoise
    let my_creature = Blastoise;

    // Put the Blastoise into the machine
    let result = machine.operate(&Item::Value(my_creature.to_value())).unwrap();

    // There should obviously be a Blastoise in the machine
    assert_eq!(result, Some(&Blastoise.to_value()));
    // And there should be nothing else in the machine
    assert_eq!(machine.stack_length(), 1);

    // Let's make it devolute!
    let result = machine.operate(&Operator(Devolute)).unwrap();

    // Blastoise should have turned into Wartortle!
    assert_eq!(result, Some(&Wartortle.to_value()));
    // And again there should be only 1 creature in the machine
    assert_eq!(machine.stack_length(), 1);

    // Let's devolute it again
    let result = machine.operate(&Operator(Devolute)).unwrap();

    // Meet our lovely Squirtle!
    assert_eq!(result, Some(&Squirtle.to_value()));

    // What if we try to devolute Squirtle?
    let result = machine.operate(&Operator(Devolute)).unwrap();

    // Good try... but it should still be a Squirtle
    assert_eq!(result, Some(&Squirtle.to_value()));

    // Ok, we already got Squirtle, let's just close the machine and make sure we don't leave
    // any creature behind
    assert_eq!(machine.operate(&Operator(Close)), Ok(None));
    assert_eq!(machine.stack_length(), 0);
}

#[test]
fn test_creatures_as_values() {
    let all = [
        Bulbasaur, Ivysaur, Venusaur, Charmander, Charmaleon, Charizard, Squirtle, Wartortle,
        Blastoise,
    ];
    for (place, creature) in all.iter().enumerate() {
        assert_eq!(creature.to_value(), Integer(place as i128));
        assert_eq!(Creature::from_value(&creature.to_value()), Some(*creature));
        assert_eq!(creature.evolute().devolute().evolute(), creature.evolute());
    }
    assert_eq!(Creature::from_value(&Integer(9)), None);
    assert_eq!(Creature::from_value(&Integer(-1)), None);
    assert_eq!(Creature::from_value(&Boolean(true)), None);
    assert_eq!(Bulbasaur.evolute(), Ivysaur);
    assert_eq!(Ivysaur.evolute(), Venusaur);
    assert_eq!(Venusaur.evolute(), Venusaur);
    assert_eq!(Venusaur.devolute(), Ivysaur);
    assert_eq!(Bulbasaur.devolute(), Bulbasaur);
}

#[test]
fn test_pokemon_errors() {
    let mut machine = Machine::new(pokemon_op_sys);
    assert_eq!(machine.operate(&Operator(Evolute)), Err(PokemonError::StackUnderflow));
    assert_eq!(machine.operate(&Item::Value(Integer(42))), Ok(Some(&Integer(42))));
    assert_eq!(machine.operate(&Operator(Devolute)), Err(PokemonError::NotACreature));
    assert_eq!(machine.stack_length(), 0);
}

#[test]
fn test_one_plus_two() {
    let mut machine = Machine::new(math);
    let result = machine.run_script(&[
        Item::Value(Integer(1)),
        Item::Value(Integer(2)),
        Operator(MathOperator::Add),
    ]);
    assert_eq!(result, Ok(Some(&Integer(3))));
    assert_eq!(machine.stack_length(), 1);
}

#[test]
fn test_operating_item_by_item() {
    let mut machine = Machine::new(math);
    assert_eq!(machine.stack_length(), 0);
    assert_eq!(machine.operate(&Item::Value(Integer(1))), Ok(Some(&Integer(1))));
    assert_eq!(machine.stack_length(), 1);
    assert_eq!(machine.operate(&Item::Value(Integer(2))), Ok(Some(&Integer(2))));
    assert_eq!(machine.stack_length(), 2);
    assert_eq!(machine.operate(&Operator(MathOperator::Add)), Ok(Some(&Integer(3))));
    assert_eq!(machine.stack_length(), 1);
}

#[test]
fn test_operator_system_that_does_nothing() {
    let mut machine = Machine::new(
        |_stack: &mut Stack, _op: &MathOperator, _cond: &mut ConditionStack| -> Result<(), ()> {
            Ok(())
        },
    );
    let result = machine.run_script(&[Item::Value(Boolean(true))]);
    assert_eq!(result, Ok(Some(&Boolean(true))));
    assert_eq!(machine.stack_length(), 1);

    // With operators that do nothing, each of the five values stays.
    let mut machine = Machine::new(
        |_stack: &mut Stack, _op: &MathOperator, _cond: &mut ConditionStack| -> Result<(), ()> {
            Ok(())
        },
    );
    let result = machine.run_script(&[
        Item::Value(Integer(1)),
        Item::Value(Integer(99999999)),
        Operator(MathOperator::Add),
        Item::Value(Float(3.14)),
        Operator(MathOperator::Mul),
        Item::Value(Value::String("Hello, World!".into())),
        Item::Value(Value::String("".into())),
    ]);
    assert_eq!(result, Ok(Some(&Value::String("".into()))));
    assert_eq!(machine.stack_length(), 5);
}

#[test]
fn test_example_script() {
    let mut machine = Machine::new(math);
    let result = machine.run_script(&[
        Item::Value(Integer(1)),
        Item::Value(Integer(99999999)),
        Operator(MathOperator::Add),
        Item::Value(Float(3.14)),
        Operator(MathOperator::Mul),
        Item::Value(Value::String("Hello, World!".into())),
        Item::Value(Value::String("".into())),
    ]);
    assert_eq!(result, Ok(Some(&Value::String("".into()))));
    assert_eq!(machine.stack_length(), 3);
}

#[test]
fn test_four_values() {
    let mut machine = Machine::new(math);
    let result = machine.run_script(&[
        Item::Value(Boolean(true)),
        Item::Value(Float(3.141592)),
        Item::Value(Integer(1337)),
        Item::Value(Value::String("foo".into())),
    ]);
    assert_eq!(result, Ok(Some(&Value::String("foo".into()))));
    assert_eq!(machine.stack_length(), 4);
}

#[test]
fn test_math_operators() {
    let run = |script: &[Item<MathOperator>]| -> Result<Option<Value>, MathError> {
        let mut machine = Machine::new(math);
        machine.run_script(script).map(|top| top.cloned())
    };
    let int = |i: i128| Item::Value(Integer(i));
    // The topmost value is the left operand.
    assert_eq!(run(&[int(1), int(5), Operator(MathOperator::Sub)]), Ok(Some(Integer(4))));
    assert_eq!(run(&[int(6), int(7), Operator(MathOperator::Mul)]), Ok(Some(Integer(42))));
    assert_eq!(run(&[int(6), Operator(MathOperator::Not)]), Ok(Some(Integer(-6))));
    assert_eq!(run(&[int(6), int(7), Operator(MathOperator::Equal)]), Ok(Some(Boolean(false))));
    assert_eq!(
        run(&[int(2), Item::Value(Float(2.0)), Operator(MathOperator::Equal)]),
        Ok(Some(Boolean(true)))
    );
    assert_eq!(
        run(&[Item::Value(Float(1.5)), int(2), Operator(MathOperator::Add)]),
        Ok(Some(Float(3.5)))
    );
    assert_eq!(
        run(&[Item::Value(Float(1.5)), int(2), Operator(MathOperator::Mul)]),
        Ok(Some(Float(3.0)))
    );
    assert_eq!(
        run(&[Item::Value(Value::String("a".into())), Item::Value(Value::String("a".into())), Operator(MathOperator::Equal)]),
        Ok(Some(Boolean(true)))
    );
}

#[test]
fn test_math_errors() {
    let mut machine = Machine::new(math);
    assert_eq!(machine.operate(&Operator(MathOperator::Add)), Err(MathError::StackUnderflow));
    assert_eq!(machine.operate(&Operator(MathOperator::Not)), Err(MathError::StackUnderflow));
    assert_eq!(machine.operate(&Item::Value(Integer(1))), Ok(Some(&Integer(1))));
    // The one value is taken before the second is missed.
    assert_eq!(machine.operate(&Operator(MathOperator::Mul)), Err(MathError::StackUnderflow));
    assert_eq!(machine.stack_length(), 0);

    let mut machine = Machine::new(math);
    let result = machine.run_script(&[
        Item::Value(Integer(7)),
        Item::Value(Integer(1)),
        Item::Value(Value::String("one".into())),
        Operator(MathOperator::Add),
        Item::Value(Integer(2)),
    ]);
    assert_eq!(result, Err(MathError::TypeError));
    // The script stopped at the operator: its two values are gone, and the
    // last value was never pushed.
    assert_eq!(machine.stack_length(), 1);

    let mut machine = Machine::new(math);
    let result = machine.run_script(&[
        Item::Value(Value::String("one".into())),
        Operator(MathOperator::Not),
    ]);
    assert_eq!(result, Err(MathError::TypeError));
    assert_eq!(machine.stack_length(), 0);
}

#[test]
fn test_values_in_a_branch_not_taken_are_dropped() {
    let mut machine = Machine::new(flow);
    assert_eq!(machine.operate(&Item::Value(Integer(1))), Ok(Some(&Integer(1))));
    assert_eq!(machine.operate(&Operator(Flow::Never)), Ok(Some(&Integer(1))));
    for i in 0..10 {
        assert_eq!(machine.operate(&Item::Value(Integer(i))), Ok(Some(&Integer(1))));
        assert_eq!(machine.stack_length(), 1);
    }
    assert_eq!(machine.operate(&Operator(Flow::EndIf)), Ok(Some(&Integer(1))));
    assert_eq!(machine.operate(&Item::Value(Integer(2))), Ok(Some(&Integer(2))));
    assert_eq!(machine.stack_length(), 2);
}

#[test]
fn test_nested_conditionals() {
    let run = |first: bool, second: bool| -> Option<Value> {
        let mut machine = Machine::new(flow);
        machine
            .run_script(&[
                Item::Value(Boolean(first)),
                Operator(Flow::If),
                Item::Value(Boolean(second)),
                Operator(Flow::If),
                Item::Value(Integer(11)),
                Operator(Flow::Else),
                Item::Value(Integer(10)),
                Operator(Flow::EndIf),
                Operator(Flow::Else),
                Item::Value(Boolean(second)),
                Operator(Flow::If),
                Item::Value(Integer(1)),
                Operator(Flow::Else),
                Item::Value(Integer(0)),
                Operator(Flow::EndIf),
                Operator(Flow::EndIf),
            ])
            .unwrap()
            .cloned()
    };
    assert_eq!(run(true, true), Some(Integer(11)));
    assert_eq!(run(true, false), Some(Integer(10)));
    assert_eq!(run(false, true), Some(Integer(1)));
    assert_eq!(run(false, false), Some(Integer(0)));
}

#[test]
fn test_script_stops_at_the_first_error() {
    let mut machine = Machine::new(flow);
    let result = machine.run_script(&[
        Item::Value(Integer(1)),
        Operator(Flow::EndIf),
        Item::Value(Integer(2)),
    ]);
    assert_eq!(result, Err("endif without if".to_string()));
    assert_eq!(machine.stack_length(), 1);
}
