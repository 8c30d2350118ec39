//! A sample operator system that doubles as a state machine: put a
//! [`Creature`] into the machine, enter a [`Command`], and watch the creature
//! evolve or devolve.
//!
//! A creature lies on the stack as an integer value: its place in the list
//! of creatures.

use crate::condition_stack::ConditionStack;
use crate::stack::Stack;
use crate::value::Value;
use vstd::prelude::*;

verus! {

/// The first nine creatures.
#[derive(Clone, Copy, Debug, PartialEq, Eq)]
pub enum Creature {
    Bulbasaur,
    Ivysaur,
    Venusaur,
    Charmander,
    Charmaleon,
    Charizard,
    Squirtle,
    Wartortle,
    Blastoise,
}

/// The commands that an evolution machine understands.
#[derive(Clone, Copy, Debug, PartialEq, Eq)]
pub enum Command {
    /// Turn a creature into the next stage of its evolution chart.
    Evolute,
    /// Turn a creature back into the previous stage of its evolution chart.
    Devolute,
    /// Finish operating the machine: the creature leaves it.
    Close,
}

/// Why a command could not be carried out.
#[derive(Clone, Copy, Debug, PartialEq, Eq)]
pub enum PokemonError {
    /// No creature is in the machine.
    StackUnderflow,
    /// The topmost value is no creature. It has left the stack.
    NotACreature,
}

/// The place of a creature in the list of creatures.
pub open spec fn place_of(creature: Creature) -> i128 {
    match creature {
        Creature::Bulbasaur => 0,
        Creature::Ivysaur => 1,
        Creature::Venusaur => 2,
        Creature::Charmander => 3,
        Creature::Charmaleon => 4,
        Creature::Charizard => 5,
        Creature::Squirtle => 6,
        Creature::Wartortle => 7,
        Creature::Blastoise => 8,
    }
}

/// The creature that the value stands for, if it stands for one.
pub open spec fn creature_of(value: Value) -> Option<Creature> {
    match value {
        Value::Integer(0) => Some(Creature::Bulbasaur),
        Value::Integer(1) => Some(Creature::Ivysaur),
        Value::Integer(2) => Some(Creature::Venusaur),
        Value::Integer(3) => Some(Creature::Charmander),
        Value::Integer(4) => Some(Creature::Charmaleon),
        Value::Integer(5) => Some(Creature::Charizard),
        Value::Integer(6) => Some(Creature::Squirtle),
        Value::Integer(7) => Some(Creature::Wartortle),
        Value::Integer(8) => Some(Creature::Blastoise),
        _ => None,
    }
}

/// The next stage of a creature, or the creature itself at its last stage.
pub open spec fn evolved(creature: Creature) -> Creature {
    match creature {
        Creature::Bulbasaur => Creature::Ivysaur,
        Creature::Ivysaur => Creature::Venusaur,
        Creature::Charmander => Creature::Charmaleon,
        Creature::Charmaleon => Creature::Charizard,
        Creature::Squirtle => Creature::Wartortle,
        Creature::Wartortle => Creature::Blastoise,
        any_other => any_other,
    }
}

/// The previous stage of a creature, or the creature itself at its first
/// stage.
pub open spec fn devolved(creature: Creature) -> Creature {
    match creature {
        Creature::Ivysaur => Creature::Bulbasaur,
        Creature::Venusaur => Creature::Ivysaur,
        Creature::Charmaleon => Creature::Charmander,
        Creature::Charizard => Creature::Charmaleon,
        Creature::Wartortle => Creature::Squirtle,
        Creature::Blastoise => Creature::Wartortle,
        any_other => any_other,
    }
}

/// What `command` makes of the `main` sub-stack `main`, and how it ends.
///
/// The command takes the topmost value. On an empty stack it fails with
/// `StackUnderflow`; on a value that is no creature it fails with
/// `NotACreature`, and the value is gone. `Evolute` and `Devolute` push the
/// creature's next or previous stage; `Close` pushes nothing.
pub open spec fn after_command(command: Command, main: Seq<Value>) -> (
    Seq<Value>,
    Result<(), PokemonError>,
) {
    if main.len() == 0 {
        (main, Err(PokemonError::StackUnderflow))
    } else {
        match creature_of(main.last()) {
            None => (main.drop_last(), Err(PokemonError::NotACreature)),
            Some(creature) => match command {
                Command::Evolute => (
                    main.drop_last().push(Value::Integer(place_of(evolved(creature)))),
                    Ok(()),
                ),
                Command::Devolute => (
                    main.drop_last().push(Value::Integer(place_of(devolved(creature)))),
                    Ok(()),
                ),
                Command::Close => (main.drop_last(), Ok(())),
            },
        }
    }
}

impl Creature {
    /// The value that stands for the creature on a stack.
    pub fn to_value(self) -> (v: Value)
        ensures
            v == Value::Integer(place_of(self)),
            creature_of(v) == Some(self),
    {
        Value::Integer(
            match self {
                Creature::Bulbasaur => 0,
                Creature::Ivysaur => 1,
                Creature::Venusaur => 2,
                Creature::Charmander => 3,
                Creature::Charmaleon => 4,
                Creature::Charizard => 5,
                Creature::Squirtle => 6,
                Creature::Wartortle => 7,
                Creature::Blastoise => 8,
            },
        )
    }

    /// The creature that `value` stands for, if it stands for one.
    pub fn from_value(value: &Value) -> (r: Option<Creature>)
        ensures
            r == creature_of(*value),
    {
        match value {
            Value::Integer(0) => Some(Creature::Bulbasaur),
            Value::Integer(1) => Some(Creature::Ivysaur),
            Value::Integer(2) => Some(Creature::Venusaur),
            Value::Integer(3) => Some(Creature::Charmander),
            Value::Integer(4) => Some(Creature::Charmaleon),
            Value::Integer(5) => Some(Creature::Charizard),
            Value::Integer(6) => Some(Creature::Squirtle),
            Value::Integer(7) => Some(Creature::Wartortle),
            Value::Integer(8) => Some(Creature::Blastoise),
            _ => None,
        }
    }

    /// The next stage of the creature, or the creature itself at its last
    /// stage.
    pub fn evolute(self) -> (r: Creature)
        ensures
            r == evolved(self),
    {
        match self {
            Creature::Bulbasaur => Creature::Ivysaur,
            Creature::Ivysaur => Creature::Venusaur,
            Creature::Charmander => Creature::Charmaleon,
            Creature::Charmaleon => Creature::Charizard,
            Creature::Squirtle => Creature::Wartortle,
            Creature::Wartortle => Creature::Blastoise,
            any_other => any_other,
        }
    }

    /// The previous stage of the creature, or the creature itself at its
    /// first stage.
    pub fn devolute(self) -> (r: Creature)
        ensures
            r == devolved(self),
    {
        match self {
            Creature::Ivysaur => Creature::Bulbasaur,
            Creature::Venusaur => Creature::Ivysaur,
            Creature::Charmaleon => Creature::Charmander,
            Creature::Charizard => Creature::Charmaleon,
            Creature::Wartortle => Creature::Squirtle,
            Creature::Blastoise => Creature::Wartortle,
            any_other => any_other,
        }
    }
}

/// Tells which creatures evolve and devolve into which other creatures: the
/// command works on the creature on top of the `main` sub-stack. The `alt`
/// sub-stack and the condition stack stay as they are.
pub fn pokemon_op_sys(stack: &mut Stack, operator: &Command, cond: &mut ConditionStack) -> (r:
    Result<(), PokemonError>)
    ensures
        final(cond).state() == old(cond).state(),
        final(stack).alt_values() == old(stack).alt_values(),
        final(stack).main_values() == after_command(*operator, old(stack).main_values()).0,
        r == after_command(*operator, old(stack).main_values()).1,
{
    let value = match stack.pop() {
        Ok(value) => value,
        Err(_) => {
            return Err(PokemonError::StackUnderflow);
        },
    };
    let last_creature = match Creature::from_value(&value) {
        Some(creature) => creature,
        None => {
            return Err(PokemonError::NotACreature);
        },
    };
    match operator {
        Command::Evolute => stack.push(last_creature.evolute().to_value()),
        Command::Devolute => stack.push(last_creature.devolute().to_value()),
        Command::Close => {},
    }
    Ok(())
}

} // verus!
