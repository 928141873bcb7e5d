//! The Fibonacci sequence, enumerated and looked up by index.
//!
//! Every integer type of this module offers the same two operations through
//! [`Fibonacci`]: a cursor that yields the sequence from index 0 on, and the
//! term at a signed index. A fixed-width type has the terms that fit in it and
//! no others; `rug::Integer` has them all.

pub mod arbitrary;
pub mod fixed_width;
pub mod laws;
mod sealed;
pub mod series;
pub mod table;

pub use arbitrary::RugIter;
pub use fixed_width::FixedWidth;
pub use table::{FibonacciTable, TableIter};

use series::{fib, fib_at};
use vstd::math::abs;
use vstd::prelude::*;

verus! {

/// An integer representation: which integer a value stands for, and which
/// integers have a value.
pub trait Domain: Sized {
    /// The integer that `self` stands for.
    spec fn value(&self) -> int;

    /// Whether some value of the type stands for `v`.
    spec fn admits(v: int) -> bool;

    /// What a value stands for is an integer that the type admits.
    proof fn lemma_value_admitted(&self)
        ensures
            Self::admits(self.value()),
    ;

    /// The integers that have a value reach from zero outwards without a gap:
    /// whatever lies between zero and one of them is one of them.
    proof fn lemma_admits_between(v: int, w: int)
        requires
            Self::admits(w),
            0 <= v <= w || w <= v <= 0,
        ensures
            Self::admits(v),
    ;
}

/// The integer behind an optional value.
pub open spec fn value_of<T: Domain>(item: Option<T>) -> Option<int> {
    match item {
        Some(v) => Some(v.value()),
        None => None,
    }
}

/// What a cursor over `T` yields when it stands at index `n`: the term there,
/// as long as the type can hold it.
pub open spec fn term_at<T: Domain>(n: nat) -> Option<int> {
    if T::admits(fib(n) as int) {
        Some(fib(n) as int)
    } else {
        None
    }
}

/// Where a cursor over `T` stands after it was asked for a value at index
/// `n`: one further if there was a term, else where it was.
pub open spec fn index_after<T: Domain>(n: nat) -> nat {
    if T::admits(fib(n) as int) {
        n + 1
    } else {
        n
    }
}

/// Where a cursor over `T` that stood at index `n` stands after it was asked
/// for a value `calls` times.
pub open spec fn index_after_calls<T: Domain>(n: nat, calls: nat) -> nat
    decreases calls,
{
    if calls == 0 {
        n
    } else {
        index_after::<T>(index_after_calls::<T>(n, (calls - 1) as nat))
    }
}

/// Whether index `n` is served by a lookup over `T`: the term fits in the
/// type, and the index fits in the machine's word.
pub open spec fn in_range<T: Domain>(n: nat) -> bool {
    T::admits(fib(n) as int) && n <= usize::MAX
}

/// What a lookup over `T` returns for the signed index `n`: the term of the
/// sequence extended to negative indices, if the type can express the index
/// and its magnitude is in range. An unsigned type has no negative index.
pub open spec fn lookup<T: Domain>(n: int) -> Option<int> {
    if T::admits(n) && in_range::<T>(abs(n)) {
        Some(fib_at(n))
    } else {
        None
    }
}

/// Iteration state over the sequence: each call of `next` yields the term at
/// the cursor's index and moves one on, until the type has no further term.
pub trait Cursor: Sized {
    /// The integer type whose sequence is walked.
    type Item: Domain;

    /// The index of the term that the next call of `next` yields.
    spec fn position(&self) -> nat;

    /// Yields the term at the cursor's index and moves to the next index. A
    /// cursor past the last term yields nothing and stays where it is.
    fn next(&mut self) -> (item: Option<Self::Item>)
        ensures
            value_of(item) == term_at::<Self::Item>(old(self).position()),
            final(self).position() == index_after::<Self::Item>(old(self).position()),
    ;

    /// Passes over `n` terms and yields the one after them: what `next`
    /// returns at its call number `n + 1`.
    fn nth(&mut self, n: usize) -> (item: Option<Self::Item>)
        ensures
            value_of(item) == term_at::<Self::Item>(
                index_after_calls::<Self::Item>(old(self).position(), n as nat),
            ),
            final(self).position() == index_after_calls::<Self::Item>(
                old(self).position(),
                n as nat + 1,
            ),
    {
        let ghost start = self.position();
        let mut passed: usize = 0;
        while passed < n
            invariant
                passed <= n,
                start == old(self).position(),
                self.position() == index_after_calls::<Self::Item>(start, passed as nat),
            decreases n - passed,
        {
            let passed_over = self.next();
            if passed_over.is_none() {
                proof {
                    laws::lemma_exhausted_stays::<Self::Item>(start, passed as nat, n as nat);
                    laws::lemma_exhausted_stays::<Self::Item>(start, passed as nat, n as nat + 1);
                }
                return None;
            }
            passed = passed + 1;
        }
        self.next()
    }
}

/// An integer type with the Fibonacci sequence over it.
pub trait Fibonacci: Domain {
    /// The cursor that `fibonacci_iter` returns.
    type Iter: Cursor<Item = Self>;

    /// A fresh cursor, standing at index 0.
    fn fibonacci_iter() -> (iter: Self::Iter)
        ensures
            iter.position() == 0,
    ;

    /// The term at index `n`, negative indices included, or `None` where the
    /// magnitude of `n` is out of range.
    fn nth_fibonacci(n: &Self) -> (item: Option<Self>)
        ensures
            value_of(item) == lookup::<Self>(n.value()),
    ;
}

} // verus!
