//! The driver that evaluates scripts on a stack.
//!
//! A machine owns a stack and a condition stack, and holds the operator
//! system: the function that decides what each operator does to them.

use crate::condition_stack::Compressed;
use crate::condition_stack::ConditionStack;
use crate::item::Item;
use crate::item::ScriptRef;
use crate::stack::Stack;
use crate::value::Value;
use vstd::prelude::*;

verus! {

/// What a machine holds at one moment: the values of the two sub-stacks, the
/// topmost last, and the state of the condition stack.
pub struct Snapshot {
    pub main: Seq<Value>,
    pub alt: Seq<Value>,
    pub conditions: Compressed,
}

/// The snapshot of a stack and a condition stack.
pub open spec fn snapshot_of(stack: Stack, cond: ConditionStack) -> Snapshot {
    Snapshot { main: stack.main_values(), alt: stack.alt_values(), conditions: cond.state() }
}

/// The topmost value of `main`, if there is one.
pub open spec fn top_of(main: Seq<Value>) -> Option<Value> {
    if main.len() == 0 {
        None
    } else {
        Some(main.last())
    }
}

/// The value that `top` refers to, if it refers to one.
pub open spec fn referred(top: Option<&Value>) -> Option<Value> {
    match top {
        Some(value) => Some(*value),
        None => None,
    }
}

/// Whether the result `r` of an evaluation shows the outcome `outcome` of
/// the operator system: success for success, and the same error.
pub open spec fn same_outcome<E>(outcome: Result<(), E>, r: Result<Option<&Value>, E>) -> bool {
    match outcome {
        Ok(_) => r is Ok,
        Err(e) => r == Err::<Option<&Value>, E>(e),
    }
}

/// What evaluating the value `value` does to a machine: the value is pushed
/// onto the `main` sub-stack when every open conditional level is taken, and
/// dropped otherwise.
pub open spec fn after_value(before: Snapshot, value: Value) -> Snapshot {
    if before.conditions.first_false is None {
        Snapshot { main: before.main.push(value), ..before }
    } else {
        before
    }
}

/// While a conditional level is not taken, evaluating a value changes
/// nothing: neither sub-stack, so the length of `main` stays, nor the
/// condition stack.
pub proof fn lemma_value_in_branch_not_taken(before: Snapshot, value: Value)
    requires
        before.conditions.first_false is Some,
    ensures
        after_value(before, value) == before,
        after_value(before, value).main.len() == before.main.len(),
{
}

/// While every open conditional level is taken, evaluating a value pushes
/// it onto the `main` sub-stack and changes nothing else.
pub proof fn lemma_value_in_branch_taken(before: Snapshot, value: Value)
    requires
        before.conditions.first_false is None,
    ensures
        after_value(before, value).main == before.main.push(value),
        after_value(before, value).alt == before.alt,
        after_value(before, value).conditions == before.conditions,
        top_of(after_value(before, value).main) == Some(value),
{
}

/// A stack, a condition stack and the operator system that works on them.
#[verifier::reject_recursive_types(Op)]
#[verifier::reject_recursive_types(F)]
#[verifier::reject_recursive_types(E)]
pub struct Machine<Op, F, E> where F: Fn(&mut Stack, &Op, &mut ConditionStack) -> Result<(), E> {
    op_sys: F,
    stack: Stack,
    if_stack: ConditionStack,
    phantom_op: core::marker::PhantomData<Op>,
    phantom_e: core::marker::PhantomData<E>,
}

impl<Op, F, E> Machine<Op, F, E> where F: Fn(&mut Stack, &Op, &mut ConditionStack) -> Result<(), E> {
    /// The operator system of this machine.
    pub closed spec fn hook(&self) -> F {
        self.op_sys
    }

    /// What this machine holds.
    pub closed spec fn snapshot(&self) -> Snapshot {
        snapshot_of(self.stack, self.if_stack)
    }

    /// Whether the operator system can be called on every stack, operator
    /// and condition stack.
    pub open spec fn hook_is_total(&self) -> bool {
        forall|stack: &mut Stack, op: &Op, cond: &mut ConditionStack|
            call_requires(self.hook(), (stack, op, cond))
    }

    /// Makes a machine around the operator system `op_sys`, with an empty
    /// stack and no open conditional level.
    pub fn new(op_sys: F) -> (r: Self)
        requires
            forall|stack: &mut Stack, op: &Op, cond: &mut ConditionStack|
                call_requires(op_sys, (stack, op, cond)),
        ensures
            r.hook() == op_sys,
            r.hook_is_total(),
            r.snapshot() == (Snapshot {
                main: Seq::empty(),
                alt: Seq::empty(),
                conditions: Compressed { size: 0, first_false: None },
            }),
    {
        Machine {
            op_sys,
            stack: Stack::new(),
            if_stack: ConditionStack::new(),
            phantom_op: core::marker::PhantomData,
            phantom_e: core::marker::PhantomData,
        }
    }

    fn run_hook(&mut self, operator: &Op) -> (r: Result<(), E>)
        requires
            old(self).hook_is_total(),
        ensures
            final(self).hook() == old(self).hook(),
            exists|stack: &mut Stack, cond: &mut ConditionStack|
                snapshot_of(*stack, *cond) == old(self).snapshot() && snapshot_of(
                    *final(stack),
                    *final(cond),
                ) == final(self).snapshot() && #[trigger] call_ensures(
                    old(self).hook(),
                    (stack, operator, cond),
                    r,
                ),
    {
        (self.op_sys)(&mut self.stack, operator, &mut self.if_stack)
    }

    /// Evaluates a single item.
    ///
    /// A value is pushed onto the `main` sub-stack if every open conditional
    /// level is taken, and dropped otherwise. An operator is handed to the
    /// operator system whatever the condition stack shows, so that operators
    /// of control flow can work on it in a branch that is not taken. Returns
    /// the new topmost value, or the error of the operator system.
    pub fn operate(&mut self, item: &Item<Op, Value>) -> (r: Result<Option<&Value>, E>)
        requires
            old(self).hook_is_total(),
        ensures
            final(self).hook() == old(self).hook(),
            r is Ok ==> referred(r->Ok_0) == top_of(final(self).snapshot().main),
            item is Value ==> r is Ok && final(self).snapshot() == after_value(
                old(self).snapshot(),
                item->Value_0,
            ),
            item is Operator ==> exists|
                stack: &mut Stack,
                cond: &mut ConditionStack,
                outcome: Result<(), E>,
            |
                snapshot_of(*stack, *cond) == old(self).snapshot() && snapshot_of(
                    *final(stack),
                    *final(cond),
                ) == final(self).snapshot() && same_outcome(outcome, r) && #[trigger] call_ensures(
                    old(self).hook(),
                    (stack, &item->Operator_0, cond),
                    outcome,
                ),
    {
        match item {
            Item::Operator(operator) => {
                match self.run_hook(operator) {
                    Ok(()) => {
                        let r = Ok(self.stack.topmost());
                        r
                    },
                    Err(e) => {
                        let r = Err(e);
                        r
                    },
                }
            },
            Item::Value(value) => {
                if self.if_stack.all_true() {
                    self.stack.push(value.clone());
                }
                Ok(self.stack.topmost())
            },
        }
    }

    /// Evaluates the items of a script in order.
    ///
    /// Stops at the first item that fails and returns its error; what the
    /// items before it did stays done. On success returns a reference to the
    /// topmost value at the end, if there is one.
    ///
    /// The contract speaks of a trace: the snapshots of the machine before
    /// the first item and after each item that was evaluated with success.
    pub fn run_script(&mut self, script: ScriptRef<Op, Value>) -> (r: Result<Option<&Value>, E>)
        requires
            old(self).hook_is_total(),
        ensures
            final(self).hook() == old(self).hook(),
            r is Ok ==> referred(r->Ok_0) == top_of(final(self).snapshot().main),
            exists|trace: Seq<Snapshot>|
                {
                    &&& 1 <= trace.len() <= script@.len() + 1
                    &&& trace[0] == old(self).snapshot()
                    &&& r is Ok <==> trace.len() == script@.len() + 1
                    &&& r is Ok ==> trace.last() == final(self).snapshot()
                    &&& forall|i: int|
                        0 <= i < trace.len() - 1 ==> match #[trigger] script@[i] {
                            Item::Value(value) => trace[i + 1] == after_value(trace[i], value),
                            Item::Operator(op) => exists|
                                stack: &mut Stack,
                                cond: &mut ConditionStack,
                                outcome: Result<(), E>,
                            |
                                snapshot_of(*stack, *cond) == trace[i] && snapshot_of(
                                    *final(stack),
                                    *final(cond),
                                ) == trace[i + 1] && outcome is Ok && #[trigger] call_ensures(
                                    old(self).hook(),
                                    (stack, &op, cond),
                                    outcome,
                                ),
                        }
                    &&& r is Err ==> script@[trace.len() - 1] is Operator && exists|
                        stack: &mut Stack,
                        cond: &mut ConditionStack,
                    |
                        snapshot_of(*stack, *cond) == trace.last() && snapshot_of(
                            *final(stack),
                            *final(cond),
                        ) == final(self).snapshot() && #[trigger] call_ensures(
                            old(self).hook(),
                            (stack, &script@[trace.len() - 1]->Operator_0, cond),
                            Err::<(), E>(r->Err_0),
                        )
                },
    {
        let ghost mut trace: Seq<Snapshot> = seq![self.snapshot()];
        let mut done: usize = 0;
        while done < script.len()
            invariant
                done <= script@.len(),
                self.hook() == old(self).hook(),
                self.hook_is_total(),
                trace.len() == done + 1,
                trace[0] == old(self).snapshot(),
                trace.last() == self.snapshot(),
                forall|i: int|
                    0 <= i < trace.len() - 1 ==> match #[trigger] script@[i] {
                        Item::Value(value) => trace[i + 1] == after_value(trace[i], value),
                        Item::Operator(op) => exists|
                            stack: &mut Stack,
                            cond: &mut ConditionStack,
                            outcome: Result<(), E>,
                        |
                            snapshot_of(*stack, *cond) == trace[i] && snapshot_of(
                                *final(stack),
                                *final(cond),
                            ) == trace[i + 1] && outcome is Ok && #[trigger] call_ensures(
                                old(self).hook(),
                                (stack, &op, cond),
                                outcome,
                            ),
                    },
            decreases script@.len() - done,
        {
            let ghost before = self.snapshot();
            match self.operate(&script[done]) {
                Ok(_) => {},
                Err(e) => {
                    return Err(e);
                },
            }
            proof {
                let longer = trace.push(self.snapshot());
                assert forall|i: int| 0 <= i < longer.len() - 1 implies match #[trigger] script@[i] {
                    Item::Value(value) => longer[i + 1] == after_value(longer[i], value),
                    Item::Operator(op) => exists|
                        stack: &mut Stack,
                        cond: &mut ConditionStack,
                        outcome: Result<(), E>,
                    |
                        snapshot_of(*stack, *cond) == longer[i] && snapshot_of(
                            *final(stack),
                            *final(cond),
                        ) == longer[i + 1] && outcome is Ok && #[trigger] call_ensures(
                            old(self).hook(),
                            (stack, &op, cond),
                            outcome,
                        ),
                } by {
                    if i < trace.len() - 1 {
                    }
                }
                trace = longer;
            }
            done += 1;
        }
        Ok(self.stack.topmost())
    }

    /// Returns the number of values in the `main` sub-stack.
    pub fn stack_length(&self) -> (n: usize)
        ensures
            n == self.snapshot().main.len(),
    {
        self.stack.length()
    }
}

} // verus!
