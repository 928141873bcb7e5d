//! What holds of enumeration and lookup together, over every integer type.

use super::series::{fib, lemma_fib_at_mirror, lemma_fib_monotonic};
use super::{in_range, index_after_calls, lookup, term_at, Domain};
use vstd::math::abs;
use vstd::prelude::*;

verus! {

/// Exhaustion is final: a cursor that has once yielded nothing yields nothing
/// at every later call, and does not move. Here the cursor started at
/// `start`, and its call number `calls + 1` found no term.
pub proof fn lemma_exhausted_stays<T: Domain>(start: nat, calls: nat, later: nat)
    requires
        term_at::<T>(index_after_calls::<T>(start, calls)) is None,
        calls <= later,
    ensures
        index_after_calls::<T>(start, later) == index_after_calls::<T>(start, calls),
        term_at::<T>(index_after_calls::<T>(start, later)) is None,
    decreases later,
{
    if calls < later {
        lemma_exhausted_stays::<T>(start, calls, (later - 1) as nat);
    }
}

/// A type that holds the term at index `n` holds every term before it.
pub proof fn lemma_terms_are_a_prefix<T: Domain>(k: nat, n: nat)
    requires
        T::admits(fib(n) as int),
        k <= n,
    ensures
        T::admits(fib(k) as int),
{
    lemma_fib_monotonic(k, n);
    T::lemma_admits_between(fib(k) as int, fib(n) as int);
}

/// A cursor that started at index 0 stands at index `n` after `n` calls, if
/// the type holds the term at index `n`, or at least the one before.
pub proof fn lemma_enumeration_reaches<T: Domain>(n: nat)
    requires
        n == 0 || T::admits(fib((n - 1) as nat) as int),
    ensures
        index_after_calls::<T>(0, n) == n,
    decreases n,
{
    if n > 0 {
        if n > 1 {
            lemma_terms_are_a_prefix::<T>((n - 2) as nat, (n - 1) as nat);
        }
        lemma_enumeration_reaches::<T>((n - 1) as nat);
    }
}

/// Enumeration and lookup agree: for an index in range that the type can
/// express, what a fresh cursor yields at its call number `n + 1` is what the
/// lookup of `n` returns.
pub proof fn lemma_enumeration_agrees_with_lookup<T: Domain>(n: nat)
    requires
        T::admits(n as int),
        in_range::<T>(n),
    ensures
        term_at::<T>(index_after_calls::<T>(0, n)) == lookup::<T>(n as int),
        lookup::<T>(n as int) == Some(fib(n) as int),
{
    if n > 0 {
        lemma_terms_are_a_prefix::<T>((n - 1) as nat, n);
    }
    lemma_enumeration_reaches::<T>(n);
}

/// The sign rule of negative indices: where the lookup of `n` returns a term
/// and the type can express `-n`, the lookup of `-n` returns the same term if
/// `n` is odd, and its negation if `n` is even.
pub proof fn lemma_lookup_mirror<T: Domain>(n: int)
    requires
        lookup::<T>(n) is Some,
        T::admits(-n),
    ensures
        n % 2 != 0 ==> lookup::<T>(-n) == lookup::<T>(n),
        n % 2 == 0 ==> lookup::<T>(-n) == Some(-lookup::<T>(n)->0),
{
    assert(abs(-n) == abs(n));
    lemma_fib_at_mirror(n);
}

/// The range of a lookup ends once and for all: from the first index out of
/// range on, on both sides of zero, no lookup returns a term.
pub proof fn lemma_lookup_past_range<T: Domain>(first: nat, n: int)
    requires
        !in_range::<T>(first),
        abs(n) >= first,
    ensures
        lookup::<T>(n) is None,
{
    if T::admits(fib(abs(n)) as int) {
        lemma_terms_are_a_prefix::<T>(first, abs(n));
    }
}

/// The boundary of a lookup: where `last` is in range and the index after it
/// is not, the lookup of `last` returns a term, and so does that of `-last`
/// where the type can express it; those of `last + 1` and `-(last + 1)`
/// return none.
pub proof fn lemma_lookup_boundary<T: Domain>(last: nat)
    requires
        T::admits(last as int),
        in_range::<T>(last),
        !in_range::<T>((last + 1) as nat),
    ensures
        lookup::<T>(last as int) is Some,
        T::admits(-(last as int)) ==> lookup::<T>(-(last as int)) is Some,
        lookup::<T>(last as int + 1) is None,
        lookup::<T>(-(last as int + 1)) is None,
{
    assert(abs(-(last as int)) == last);
    assert(abs(-(last as int + 1)) == last + 1);
    assert(abs(last as int + 1) == last + 1);
}

} // verus!
