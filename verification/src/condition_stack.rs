//! The state of nested conditional blocks, kept in constant space.
//!
//! Conceptually a condition stack is a vector of booleans, one for each level
//! of nested conditionals, telling whether that level is in its taken branch.
//! The booleans cannot be observed one by one: only whether the stack is empty
//! and whether every level is taken. So the vector is never stored. The stack
//! keeps its would-be size and the position of the first `false` in it, which
//! makes every operation constant time however often a script toggles deeply
//! nested branches.

use vstd::prelude::*;

verus! {

/// Marks that no `false` is present.
pub const NO_FALSE: u32 = 0xffff_ffffu32;

/// The compressed condition stack: the size of the would-be vector of
/// booleans and the position of the first `false` in it.
#[derive(Debug)]
pub struct ConditionStack {
    stack_size: u32,
    first_false_pos: u32,
}

/// One step on a condition stack.
pub enum ConditionOp {
    /// Open a level with the given branch status.
    Push(bool),
    /// Close the innermost level.
    Pop,
    /// Flip the innermost level.
    Toggle,
}

/// The two things that can be observed of a condition stack.
pub struct Observed {
    pub is_empty: bool,
    pub all_true: bool,
}

/// The position of the first `false` in `levels`, or `levels.len()` when
/// every level is `true`.
pub open spec fn first_false_of(levels: Seq<bool>) -> nat
    decreases levels.len(),
{
    if levels.len() == 0 {
        0
    } else if !levels[0] {
        0
    } else {
        1 + first_false_of(levels.drop_first())
    }
}

/// Whether every level of `levels` is `true`.
pub open spec fn every_level_taken(levels: Seq<bool>) -> bool {
    forall|i: int| 0 <= i < levels.len() ==> levels[i]
}

/// One step on the plain vector of booleans. Closing or flipping a level of
/// an empty vector leaves it as it is.
pub open spec fn step_levels(levels: Seq<bool>, op: ConditionOp) -> Seq<bool> {
    match op {
        ConditionOp::Push(b) => levels.push(b),
        ConditionOp::Pop => if levels.len() == 0 {
            levels
        } else {
            levels.drop_last()
        },
        ConditionOp::Toggle => if levels.len() == 0 {
            levels
        } else {
            levels.update(levels.len() - 1, !levels.last())
        },
    }
}

/// The plain vector of booleans after all of `ops`, starting from `levels`.
pub open spec fn run_levels(levels: Seq<bool>, ops: Seq<ConditionOp>) -> Seq<bool>
    decreases ops.len(),
{
    if ops.len() == 0 {
        levels
    } else {
        step_levels(run_levels(levels, ops.drop_last()), ops.last())
    }
}

/// What can be observed of the plain vector of booleans.
pub open spec fn observe_levels(levels: Seq<bool>) -> Observed {
    Observed { is_empty: levels.len() == 0, all_true: every_level_taken(levels) }
}

/// The compressed state as a pair: the size, and the position of the first
/// `false` if there is one.
pub struct Compressed {
    pub size: nat,
    pub first_false: Option<nat>,
}

/// One step on the compressed state. Closing or flipping a level of an empty
/// stack leaves it as it is.
pub open spec fn step_compressed(c: Compressed, op: ConditionOp) -> Compressed {
    match op {
        ConditionOp::Push(b) => Compressed {
            size: c.size + 1,
            first_false: if c.first_false is None && !b {
                Some(c.size)
            } else {
                c.first_false
            },
        },
        ConditionOp::Pop => if c.size == 0 {
            c
        } else {
            Compressed {
                size: (c.size - 1) as nat,
                first_false: if c.first_false == Some((c.size - 1) as nat) {
                    None
                } else {
                    c.first_false
                },
            }
        },
        ConditionOp::Toggle => if c.size == 0 {
            c
        } else {
            Compressed {
                size: c.size,
                first_false: if c.first_false is None {
                    Some((c.size - 1) as nat)
                } else if c.first_false == Some((c.size - 1) as nat) {
                    None
                } else {
                    c.first_false
                },
            }
        },
    }
}

/// The compressed state after all of `ops`, starting from `c`.
pub open spec fn run_compressed(c: Compressed, ops: Seq<ConditionOp>) -> Compressed
    decreases ops.len(),
{
    if ops.len() == 0 {
        c
    } else {
        step_compressed(run_compressed(c, ops.drop_last()), ops.last())
    }
}

/// What can be observed of the compressed state.
pub open spec fn observe_compressed(c: Compressed) -> Observed {
    Observed { is_empty: c.size == 0, all_true: c.first_false is None }
}

/// The compressed state that stands for the plain vector `levels`.
pub open spec fn compress(levels: Seq<bool>) -> Compressed {
    Compressed {
        size: levels.len(),
        first_false: if first_false_of(levels) < levels.len() {
            Some(first_false_of(levels))
        } else {
            None
        },
    }
}

/// The first `false` of `levels` lies at `first_false_of(levels)`, and every
/// level before it is `true`.
pub proof fn lemma_first_false(levels: Seq<bool>)
    ensures
        first_false_of(levels) <= levels.len(),
        first_false_of(levels) < levels.len() ==> !levels[first_false_of(levels) as int],
        forall|i: int| 0 <= i < first_false_of(levels) ==> levels[i],
    decreases levels.len(),
{
    if levels.len() > 0 && levels[0] {
        let rest = levels.drop_first();
        lemma_first_false(rest);
        assert forall|i: int| 0 <= i < first_false_of(levels) implies levels[i] by {
            if i > 0 {
                assert(levels[i] == rest[i - 1]);
            }
        }
    }
}

/// A position `k` with a `false` at it, or at the end, and nothing but `true`
/// before it is `first_false_of(levels)`.
pub proof fn lemma_first_false_is(levels: Seq<bool>, k: nat)
    requires
        k <= levels.len(),
        forall|i: int| 0 <= i < k ==> levels[i],
        k < levels.len() ==> !levels[k as int],
    ensures
        first_false_of(levels) == k,
{
    lemma_first_false(levels);
    let f = first_false_of(levels);
    if f < k {
    } else if f > k {
    }
}

/// Compressing the plain vector and then taking a step gives the same state
/// as taking the step on the plain vector and then compressing.
pub proof fn lemma_step_agrees(levels: Seq<bool>, op: ConditionOp)
    ensures
        compress(step_levels(levels, op)) == step_compressed(compress(levels), op),
{
    lemma_first_false(levels);
    let f = first_false_of(levels);
    let next = step_levels(levels, op);
    match op {
        ConditionOp::Push(b) => {
            if f < levels.len() || !b {
                lemma_first_false_is(next, f);
            } else {
                lemma_first_false_is(next, f + 1);
            }
        },
        ConditionOp::Pop => {
            if levels.len() > 0 {
                if f < levels.len() - 1 {
                    lemma_first_false_is(next, f);
                } else {
                    lemma_first_false_is(next, (levels.len() - 1) as nat);
                }
            }
        },
        ConditionOp::Toggle => {
            if levels.len() > 0 {
                let top = (levels.len() - 1) as nat;
                if f < top {
                    lemma_first_false_is(next, f);
                } else if f == top {
                    lemma_first_false_is(next, levels.len());
                } else {
                    lemma_first_false_is(next, top);
                }
            }
        },
    }
}

/// The compressed state shows what the plain vector shows: whether it is
/// empty, and whether every level is taken.
pub proof fn lemma_observed_agrees(levels: Seq<bool>)
    ensures
        observe_compressed(compress(levels)) == observe_levels(levels),
{
    lemma_first_false(levels);
}

/// Running any sequence of steps on the compressed state keeps it in step
/// with the plain vector of booleans that runs the same steps.
pub proof fn lemma_run_agrees(levels: Seq<bool>, ops: Seq<ConditionOp>)
    ensures
        run_compressed(compress(levels), ops) == compress(run_levels(levels, ops)),
    decreases ops.len(),
{
    if ops.len() > 0 {
        lemma_run_agrees(levels, ops.drop_last());
        lemma_step_agrees(run_levels(levels, ops.drop_last()), ops.last());
    }
}

/// For every finite sequence of push, pop and toggle steps applied side by
/// side to a plain vector of booleans and to the compressed state, both
/// starting empty, the two observables agree after the steps. As every prefix
/// of a sequence of steps is such a sequence, they agree after every step.
pub proof fn theorem_observables_agree(ops: Seq<ConditionOp>)
    ensures
        observe_compressed(run_compressed(compress(Seq::empty()), ops)) == observe_levels(
            run_levels(Seq::empty(), ops),
        ),
        forall|k: int|
            0 <= k <= ops.len() ==> observe_compressed(
                run_compressed(compress(Seq::empty()), #[trigger] ops.take(k)),
            ) == observe_levels(run_levels(Seq::empty(), ops.take(k))),
{
    lemma_run_agrees(Seq::empty(), ops);
    lemma_observed_agrees(run_levels(Seq::empty(), ops));
    assert forall|k: int| 0 <= k <= ops.len() implies observe_compressed(
        run_compressed(compress(Seq::empty()), #[trigger] ops.take(k)),
    ) == observe_levels(run_levels(Seq::empty(), ops.take(k))) by {
        lemma_run_agrees(Seq::empty(), ops.take(k));
        lemma_observed_agrees(run_levels(Seq::empty(), ops.take(k)));
    }
}

/// A level that is not taken keeps every value out until it is closed or
/// flipped itself: where the first `false` lies at a level below the
/// innermost one, or the step opens a level, the first `false` stays where
/// it is, and not every level is taken after the step.
pub proof fn lemma_first_false_stays(c: Compressed, op: ConditionOp)
    requires
        c.first_false is Some,
        c.first_false->Some_0 < c.size,
        op is Push || c.first_false->Some_0 + 1 < c.size,
    ensures
        step_compressed(c, op).first_false == c.first_false,
        !observe_compressed(step_compressed(c, op)).all_true,
{
}

/// Opening a level that is not taken leaves a level that is not taken.
pub proof fn lemma_push_false(c: Compressed)
    ensures
        step_compressed(c, ConditionOp::Push(false)).first_false is Some,
        !observe_compressed(step_compressed(c, ConditionOp::Push(false))).all_true,
{
}

impl ConditionStack {
    #[verifier::type_invariant]
    spec fn well_formed(&self) -> bool {
        self.first_false_pos == NO_FALSE || self.first_false_pos < self.stack_size
    }

    /// The compressed state that this stack holds.
    pub closed spec fn state(&self) -> Compressed {
        Compressed {
            size: self.stack_size as nat,
            first_false: if self.first_false_pos == NO_FALSE {
                None
            } else {
                Some(self.first_false_pos as nat)
            },
        }
    }

    /// The number of open levels.
    pub open spec fn depth(&self) -> nat {
        self.state().size
    }

    /// Whether every open level is in its taken branch.
    pub open spec fn spec_all_true(&self) -> bool {
        self.state().first_false is None
    }

    /// A condition stack with no open level.
    pub fn new() -> (r: Self)
        ensures
            r.state() == (Compressed { size: 0, first_false: None }),
    {
        ConditionStack { stack_size: 0, first_false_pos: NO_FALSE }
    }

    /// The number of open levels.
    pub fn size(&self) -> (n: u32)
        ensures
            n == self.depth(),
    {
        self.stack_size
    }

    /// Whether no level is open.
    pub fn is_empty(&self) -> (r: bool)
        ensures
            r == (self.depth() == 0),
            r == observe_compressed(self.state()).is_empty,
    {
        self.stack_size == 0
    }

    /// Whether every open level is in its taken branch.
    pub fn all_true(&self) -> (r: bool)
        ensures
            r == self.spec_all_true(),
            r == observe_compressed(self.state()).all_true,
    {
        self.first_false_pos == NO_FALSE
    }

    /// Opens a level with branch status `b`.
    pub fn push_back(&mut self, b: bool)
        requires
            old(self).depth() < NO_FALSE,
        ensures
            final(self).state() == step_compressed(old(self).state(), ConditionOp::Push(b)),
    {
        proof {
            use_type_invariant(&*self);
        }
        let first_false_pos: u32 = if self.first_false_pos == NO_FALSE && !b {
            // Every level so far is taken, so the first false one is the new level.
            self.stack_size
        } else {
            self.first_false_pos
        };
        *self = ConditionStack { stack_size: self.stack_size + 1, first_false_pos };
    }

    /// Closes the innermost level. Returns `None`, and changes nothing, when
    /// no level is open.
    pub fn pop_back(&mut self) -> (r: Option<()>)
        ensures
            r is Some <==> old(self).depth() > 0,
            final(self).state() == step_compressed(old(self).state(), ConditionOp::Pop),
    {
        proof {
            use_type_invariant(&*self);
        }
        if self.stack_size == 0 {
            return None;
        }
        let stack_size: u32 = self.stack_size - 1;
        let first_false_pos: u32 = if self.first_false_pos == stack_size {
            // The first false level is closed: every level left is taken.
            NO_FALSE
        } else {
            self.first_false_pos
        };
        *self = ConditionStack { stack_size, first_false_pos };
        Some(())
    }

    /// Flips the innermost level. Returns `None`, and changes nothing, when
    /// no level is open.
    pub fn toggle_top(&mut self) -> (r: Option<()>)
        ensures
            r is Some <==> old(self).depth() > 0,
            final(self).state() == step_compressed(old(self).state(), ConditionOp::Toggle),
    {
        proof {
            use_type_invariant(&*self);
        }
        if self.stack_size == 0 {
            return None;
        }
        let top: u32 = self.stack_size - 1;
        let first_false_pos: u32 = if self.first_false_pos == NO_FALSE {
            // Every level is taken: the innermost becomes the first false one.
            top
        } else if self.first_false_pos == top {
            // The innermost level is the first false one: flipping it leaves
            // every level taken.
            NO_FALSE
        } else {
            // A false level lies below the innermost one, and flipping the
            // innermost cannot be observed.
            self.first_false_pos
        };
        *self = ConditionStack { stack_size: self.stack_size, first_false_pos };
        Some(())
    }
}

impl Default for ConditionStack {
    fn default() -> (r: Self)
        ensures
            r.state() == (Compressed { size: 0, first_false: None }),
    {
        ConditionStack::new()
    }
}

} // verus!
