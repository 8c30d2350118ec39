//! An ordered sequence of values that is operated last in, first out.

use crate::value::Value;
use smallvec::SmallVec;
use vstd::prelude::*;

verus! {

/// The buffer of the `main` sub-stack: a small vector that keeps up to 64
/// values inline and moves to the heap when it grows beyond them.
#[verifier::external_body]
#[derive(Debug)]
pub struct MainBuffer {
    inner: SmallVec<[Value; 64]>,
}

/// The buffer of the `alt` sub-stack: a small vector that keeps up to 8
/// values inline and moves to the heap when it grows beyond them.
#[verifier::external_body]
#[derive(Debug)]
pub struct AltBuffer {
    inner: SmallVec<[Value; 8]>,
}

/// The values that a `main` buffer holds, the oldest first.
pub uninterp spec fn main_items(buffer: MainBuffer) -> Seq<Value>;

/// The values that an `alt` buffer holds, the oldest first.
pub uninterp spec fn alt_items(buffer: AltBuffer) -> Seq<Value>;

/// `SmallVec::new`: the new buffer holds nothing.
#[verifier::external_body]
fn main_new() -> (buffer: MainBuffer)
    ensures
        main_items(buffer) == Seq::<Value>::empty(),
{
    MainBuffer { inner: SmallVec::new() }
}

/// `SmallVec::len`: the number of values that the buffer holds.
#[verifier::external_body]
fn main_len(buffer: &MainBuffer) -> (n: usize)
    ensures
        n == main_items(*buffer).len(),
{
    buffer.inner.len()
}

/// `SmallVec::push`: the value is appended after the values held so far.
/// The buffer grows on the heap as `Vec` does, and like `Vec::push` this is
/// taken to succeed: memory runs out long before the capacity overflows.
#[verifier::external_body]
fn main_push(buffer: &mut MainBuffer, value: Value)
    ensures
        main_items(*final(buffer)) == main_items(*old(buffer)).push(value),
{
    buffer.inner.push(value)
}

/// `SmallVec::pop`: the newest value is removed and returned, or `None` when
/// the buffer holds nothing, which then stays as it is.
#[verifier::external_body]
fn main_pop(buffer: &mut MainBuffer) -> (r: Option<Value>)
    ensures
        main_items(*old(buffer)).len() == 0 ==> r is None && main_items(*final(buffer))
            == main_items(*old(buffer)),
        main_items(*old(buffer)).len() > 0 ==> r == Some(main_items(*old(buffer)).last())
            && main_items(*final(buffer)) == main_items(*old(buffer)).drop_last(),
{
    buffer.inner.pop()
}

/// `SmallVec::as_slice`: a slice of all the values that the buffer holds, the
/// oldest first.
#[verifier::external_body]
fn main_slice(buffer: &MainBuffer) -> (s: &[Value])
    ensures
        s@ == main_items(*buffer),
{
    buffer.inner.as_slice()
}

/// `SmallVec::new`: the new buffer holds nothing.
#[verifier::external_body]
fn alt_new() -> (buffer: AltBuffer)
    ensures
        alt_items(buffer) == Seq::<Value>::empty(),
{
    AltBuffer { inner: SmallVec::new() }
}

/// `SmallVec::push`: the value is appended after the values held so far.
/// The buffer grows on the heap as `Vec` does, and like `Vec::push` this is
/// taken to succeed: memory runs out long before the capacity overflows.
#[verifier::external_body]
fn alt_push(buffer: &mut AltBuffer, value: Value)
    ensures
        alt_items(*final(buffer)) == alt_items(*old(buffer)).push(value),
{
    buffer.inner.push(value)
}

/// `SmallVec::pop`: the newest value is removed and returned, or `None` when
/// the buffer holds nothing, which then stays as it is.
#[verifier::external_body]
fn alt_pop(buffer: &mut AltBuffer) -> (r: Option<Value>)
    ensures
        alt_items(*old(buffer)).len() == 0 ==> r is None && alt_items(*final(buffer))
            == alt_items(*old(buffer)),
        alt_items(*old(buffer)).len() > 0 ==> r == Some(alt_items(*old(buffer)).last())
            && alt_items(*final(buffer)) == alt_items(*old(buffer)).drop_last(),
{
    buffer.inner.pop()
}

/// A stack failed to give a value because it holds none.
#[derive(Debug, PartialEq, Eq, Clone, Copy)]
pub struct StackUnderflow;

/// An ordered sequence of values that is operated last in, first out.
///
/// A stack comprises two sequences: the `main` sub-stack, which is the one
/// operated by default, and the `alt` sub-stack, a clipboard that is reached
/// only by moving values between the two.
#[derive(Debug)]
pub struct Stack {
    main: MainBuffer,
    alt: AltBuffer,
}

impl Stack {
    /// The values of the `main` sub-stack, the topmost last.
    pub closed spec fn main_values(&self) -> Seq<Value> {
        main_items(self.main)
    }

    /// The values of the `alt` sub-stack, the topmost last.
    pub closed spec fn alt_values(&self) -> Seq<Value> {
        alt_items(self.alt)
    }

    /// A stack whose two sub-stacks are empty.
    pub fn new() -> (r: Self)
        ensures
            r.main_values() == Seq::<Value>::empty(),
            r.alt_values() == Seq::<Value>::empty(),
    {
        Stack { main: main_new(), alt: alt_new() }
    }

    /// Returns the number of values in the `main` sub-stack.
    pub fn length(&self) -> (n: usize)
        ensures
            n == self.main_values().len(),
    {
        main_len(&self.main)
    }

    /// Puts a value on top of the `main` sub-stack.
    pub fn push(&mut self, item: Value)
        ensures
            final(self).main_values() == old(self).main_values().push(item),
            final(self).alt_values() == old(self).alt_values(),
    {
        main_push(&mut self.main, item)
    }

    /// Removes the topmost value of the `main` sub-stack and returns it.
    /// Fails, and changes nothing, when the `main` sub-stack is empty.
    pub fn pop(&mut self) -> (r: Result<Value, StackUnderflow>)
        ensures
            final(self).alt_values() == old(self).alt_values(),
            r is Ok <==> old(self).main_values().len() > 0,
            r is Ok ==> r->Ok_0 == old(self).main_values().last(),
            r is Ok ==> final(self).main_values() == old(self).main_values().drop_last(),
            r is Err ==> final(self).main_values() == old(self).main_values(),
    {
        match main_pop(&mut self.main) {
            Some(value) => Ok(value),
            None => Err(StackUnderflow),
        }
    }

    /// Moves the topmost value of the `main` sub-stack onto the `alt`
    /// sub-stack. Fails, and changes nothing, when the `main` sub-stack is
    /// empty.
    pub fn pop_into_alt(&mut self) -> (r: Result<(), StackUnderflow>)
        ensures
            r is Ok <==> old(self).main_values().len() > 0,
            r is Ok ==> final(self).main_values() == old(self).main_values().drop_last(),
            r is Ok ==> final(self).alt_values() == old(self).alt_values().push(
                old(self).main_values().last(),
            ),
            r is Err ==> final(self).main_values() == old(self).main_values(),
            r is Err ==> final(self).alt_values() == old(self).alt_values(),
    {
        match main_pop(&mut self.main) {
            Some(value) => {
                alt_push(&mut self.alt, value);
                Ok(())
            },
            None => Err(StackUnderflow),
        }
    }

    /// Moves the topmost value of the `alt` sub-stack onto the `main`
    /// sub-stack. Fails, and changes nothing, when the `alt` sub-stack is
    /// empty.
    pub fn push_from_alt(&mut self) -> (r: Result<(), StackUnderflow>)
        ensures
            r is Ok <==> old(self).alt_values().len() > 0,
            r is Ok ==> final(self).alt_values() == old(self).alt_values().drop_last(),
            r is Ok ==> final(self).main_values() == old(self).main_values().push(
                old(self).alt_values().last(),
            ),
            r is Err ==> final(self).main_values() == old(self).main_values(),
            r is Err ==> final(self).alt_values() == old(self).alt_values(),
    {
        match alt_pop(&mut self.alt) {
            Some(value) => {
                main_push(&mut self.main, value);
                Ok(())
            },
            None => Err(StackUnderflow),
        }
    }

    /// Returns a reference to the topmost value of the `main` sub-stack, or
    /// `None` when it is empty.
    pub fn topmost(&self) -> (r: Option<&Value>)
        ensures
            self.main_values().len() == 0 ==> r is None,
            self.main_values().len() > 0 ==> r == Some(&self.main_values().last()),
    {
        main_slice(&self.main).last()
    }
}

impl Default for Stack {
    fn default() -> (r: Self)
        ensures
            r.main_values() == Seq::<Value>::empty(),
            r.alt_values() == Seq::<Value>::empty(),
    {
        Stack::new()
    }
}

} // verus!
