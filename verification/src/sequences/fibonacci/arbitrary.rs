//! The sequence over `rug::Integer`, which holds every term.
//!
//! Verus does not look inside a `rug::Integer`. What this module knows of one
//! is the integer it holds, `integer_value`, and what the few operations below
//! do to that integer. Their contracts are taken from the documentation and
//! the source of `rug`; they are believed, not proved.

use super::laws::lemma_enumeration_agrees_with_lookup;
use super::series::fib;
use super::{value_of, Cursor, Domain, Fibonacci};
use vstd::prelude::*;

verus! {

/// `rug::Integer`, an integer of any size, as a type without visible fields.
#[verifier::external_type_specification]
#[verifier::external_body]
pub struct ExInteger(rug::Integer);

/// The integer that a `rug::Integer` holds.
pub uninterp spec fn integer_value(x: rug::Integer) -> int;

/// `rug::Integer::new`: a fresh integer, which holds 0.
#[verifier::external_body]
fn integer_zero() -> (zero: rug::Integer)
    ensures
        integer_value(zero) == 0,
{
    rug::Integer::new()
}

/// `Add<u8> for rug::Integer`, the operator `+`: the sum of the two.
#[verifier::external_body]
fn integer_add_u8(x: rug::Integer, y: u8) -> (sum: rug::Integer)
    ensures
        integer_value(sum) == integer_value(x) + y,
{
    x + y
}

/// `Clone for rug::Integer`: a second integer that holds the same. The call
/// has no panic in it.
#[verifier::external_body]
fn integer_clone(x: &rug::Integer) -> (copy: rug::Integer)
    ensures
        integer_value(copy) == integer_value(*x),
    no_unwind
{
    x.clone()
}

/// `AddAssign<&rug::Integer> for rug::Integer`, the operator `+=`: afterwards
/// the left side holds the sum of the two. The call has no panic in it.
#[verifier::external_body]
fn integer_add_assign(x: &mut rug::Integer, y: &rug::Integer)
    ensures
        integer_value(*final(x)) == integer_value(*old(x)) + integer_value(*y),
    no_unwind
{
    *x += y;
}

/// `Neg for rug::Integer`, the operator `-`: the negation.
#[verifier::external_body]
fn integer_neg(x: rug::Integer) -> (neg: rug::Integer)
    ensures
        integer_value(neg) == -integer_value(x),
{
    -x
}

/// `PartialOrd for rug::Integer`, the operator `<`: whether the left side
/// holds the lesser integer.
#[verifier::external_body]
fn integer_lt(x: &rug::Integer, y: &rug::Integer) -> (less: bool)
    ensures
        less == (integer_value(*x) < integer_value(*y)),
{
    x < y
}

/// `rug::Integer::to_usize`: the integer as a `usize` if it fits in one, else
/// `None`.
#[verifier::external_body]
fn integer_to_usize(x: &rug::Integer) -> (index: Option<usize>)
    ensures
        index == if 0 <= integer_value(*x) <= usize::MAX {
            Some(integer_value(*x) as usize)
        } else {
            None
        },
{
    x.to_usize()
}

impl Domain for rug::Integer {
    open spec fn value(&self) -> int {
        integer_value(*self)
    }

    open spec fn admits(v: int) -> bool {
        true
    }

    proof fn lemma_value_admitted(&self) {
    }

    proof fn lemma_admits_between(v: int, w: int) {
    }
}

/// A cursor over the sequence in `rug::Integer`. It never runs out.
///
/// The cursor holds two neighbouring terms and takes turns between them: the
/// one that is due is yielded, and then replaced by the sum of the two, which
/// is the term after the other.
pub struct RugIter {
    a: rug::Integer,
    b: rug::Integer,
    a_next: bool,
    index: Ghost<nat>,
}

impl RugIter {
    /// The term that is due stands at `index`, the other one at `index + 1`.
    #[verifier::type_invariant]
    spec fn well_formed(&self) -> bool {
        if self.a_next {
            &&& integer_value(self.a) == fib(self.index@)
            &&& integer_value(self.b) == fib(self.index@ + 1)
        } else {
            &&& integer_value(self.b) == fib(self.index@)
            &&& integer_value(self.a) == fib(self.index@ + 1)
        }
    }

    /// A cursor at index 0, holding 0 and 1.
    fn new() -> (iter: Self)
        ensures
            iter.position() == 0,
    {
        RugIter {
            a: integer_zero(),
            b: integer_add_u8(integer_zero(), 1u8),
            a_next: true,
            index: Ghost(0),
        }
    }
}

/// One turn of the cursor: yields the term that is due, puts the term two
/// indices on in its place, and hands the turn to the other term.
fn take_turn(
    due: &mut rug::Integer,
    other: &rug::Integer,
    a_next: &mut bool,
    index: &mut Ghost<nat>,
) -> (item: rug::Integer)
    requires
        integer_value(*old(due)) == fib(old(index)@),
        integer_value(*other) == fib(old(index)@ + 1),
    ensures
        integer_value(item) == fib(old(index)@),
        integer_value(*final(due)) == fib(old(index)@ + 2),
        *final(a_next) == !*old(a_next),
        final(index)@ == old(index)@ + 1,
    no_unwind
{
    *a_next = !*a_next;
    let item = integer_clone(due);
    integer_add_assign(due, other);
    proof {
        *index = Ghost(index@ + 1);
    }
    item
}

impl Cursor for RugIter {
    type Item = rug::Integer;

    closed spec fn position(&self) -> nat {
        self.index@
    }

    fn next(&mut self) -> (item: Option<rug::Integer>) {
        proof {
            use_type_invariant(&*self);
        }
        let item = if self.a_next {
            take_turn(&mut self.a, &self.b, &mut self.a_next, &mut self.index)
        } else {
            take_turn(&mut self.b, &self.a, &mut self.a_next, &mut self.index)
        };
        assert(value_of(Some(item)) == Some(integer_value(item)));
        Some(item)
    }
}

impl Fibonacci for rug::Integer {
    type Iter = RugIter;

    fn fibonacci_iter() -> (iter: RugIter) {
        RugIter::new()
    }

    fn nth_fibonacci(n: &rug::Integer) -> (item: Option<rug::Integer>) {
        if integer_lt(n, &integer_zero()) {
            match integer_to_usize(&integer_neg(integer_clone(n))) {
                Some(index) => {
                    proof {
                        lemma_enumeration_agrees_with_lookup::<rug::Integer>(index as nat);
                    }
                    match Self::fibonacci_iter().nth(index) {
                        Some(found) => if index % 2 == 0 {
                            Some(integer_neg(found))
                        } else {
                            Some(found)
                        },
                        None => None,
                    }
                },
                None => None,
            }
        } else {
            match integer_to_usize(n) {
                Some(index) => {
                    proof {
                        lemma_enumeration_agrees_with_lookup::<rug::Integer>(index as nat);
                    }
                    Self::fibonacci_iter().nth(index)
                },
                None => None,
            }
        }
    }
}

} // verus!
