//! The mathematical Fibonacci sequence that every contract of this module
//! speaks of, and the facts about it that the proofs rest on.

use vstd::math::abs;
use vstd::prelude::*;

verus! {

/// The Fibonacci numbers over the naturals: `fib(0) = 0`, `fib(1) = 1`, and
/// every later term is the sum of the two before it.
pub open spec fn fib(n: nat) -> nat
    decreases n,
{
    if n == 0 {
        0
    } else if n == 1 {
        1
    } else {
        fib((n - 2) as nat) + fib((n - 1) as nat)
    }
}

/// The sequence extended to every integer index: `F(n) = (-1)^(n+1) * F(-n)`
/// for negative `n`. A negative index keeps the magnitude of its mirror image
/// and flips the sign exactly when the index is even.
pub open spec fn fib_at(n: int) -> int {
    if n >= 0 {
        fib(n as nat) as int
    } else if n % 2 == 0 {
        -(fib(abs(n)) as int)
    } else {
        fib(abs(n)) as int
    }
}

/// Whether `terms` is the table of the Fibonacci numbers up to `max`: entry
/// `i` is `fib(i)`, and an index lies inside the table exactly when its
/// Fibonacci number does not exceed `max`.
pub open spec fn is_table(terms: Seq<int>, max: int) -> bool {
    &&& forall|i: int| 0 <= i < terms.len() ==> #[trigger] terms[i] == fib(i as nat)
    &&& forall|n: nat| n < terms.len() <==> #[trigger] fib(n) <= max
}

/// The sequence never decreases.
pub proof fn lemma_fib_monotonic(i: nat, j: nat)
    requires
        i <= j,
    ensures
        fib(i) <= fib(j),
    decreases j,
{
    if i < j {
        if j >= 2 {
            lemma_fib_monotonic(i, (j - 1) as nat);
        }
    }
}

/// A term is never more than one below its index, so the terms that fit under
/// a bound are finitely many.
pub proof fn lemma_fib_lower_bound(n: nat)
    ensures
        n <= fib(n) + 1,
    decreases n,
{
    if n >= 3 {
        lemma_fib_lower_bound((n - 1) as nat);
        lemma_fib_lower_bound((n - 2) as nat);
        lemma_fib_monotonic(1, (n - 2) as nat);
    } else if n == 2 {
        assert(fib(2) == 1) by {
            reveal_with_fuel(fib, 3);
        }
    }
}

/// The extension to negative indices continues the recurrence in both
/// directions: every term, at whatever index, is the sum of the two before it.
pub proof fn lemma_fib_at_recurrence(n: int)
    ensures
        fib_at(n + 2) == fib_at(n + 1) + fib_at(n),
{
    if n >= 0 {
    } else if n == -1 {
        assert(fib(1) == 1);
        assert(fib(0) == 0);
    } else if n == -2 {
        assert(fib(2) == 1) by {
            reveal_with_fuel(fib, 3);
        }
    } else {
        let m = abs(n);
        assert(m >= 3);
        assert(abs(n + 1) == m - 1);
        assert(abs(n + 2) == m - 2);
        assert(fib(m) == fib((m - 2) as nat) + fib((m - 1) as nat));
    }
}

/// Mirroring an index keeps the term when the index is odd and negates it
/// when the index is even.
pub proof fn lemma_fib_at_mirror(n: int)
    ensures
        n % 2 != 0 ==> fib_at(-n) == fib_at(n),
        n % 2 == 0 ==> fib_at(-n) == -fib_at(n),
{
    if n == 0 {
    } else {
        assert(abs(-n) == abs(n));
        assert((-n) % 2 == n % 2);
    }
}

/// At most one table exists for a bound.
pub proof fn lemma_table_unique(first: Seq<int>, second: Seq<int>, max: int)
    requires
        is_table(first, max),
        is_table(second, max),
    ensures
        first == second,
{
    if first.len() < second.len() {
        let n = first.len();
        assert(fib(n) <= max);
    }
    if second.len() < first.len() {
        let n = second.len();
        assert(fib(n) <= max);
    }
    assert(first =~= second);
}

/// A table over a bound of at least one starts `0, 1`, continues by adding
/// the two entries before, and ends where the next sum would pass the bound.
pub proof fn lemma_table_recurrence(terms: Seq<int>, max: int)
    requires
        is_table(terms, max),
        max >= 1,
    ensures
        terms.len() >= 3,
        terms[0] == 0,
        terms[1] == 1,
        forall|i: int| 2 <= i < terms.len() ==> #[trigger] terms[i] == terms[i - 1] + terms[i - 2],
        forall|i: int| 0 <= i < terms.len() ==> 0 <= #[trigger] terms[i] <= max,
        terms[terms.len() - 1] + terms[terms.len() - 2] > max,
{
    assert(fib(2) == 1) by {
        reveal_with_fuel(fib, 3);
    }
    assert(fib(0) <= max);
    assert(fib(1) <= max);
    assert(fib(2) <= max);
    let len = terms.len();
    assert(!(fib(len) <= max));
    assert(fib(len) == fib((len - 2) as nat) + fib((len - 1) as nat));
    assert(terms[len - 1] == fib((len - 1) as nat));
    assert(terms[len - 2] == fib((len - 2) as nat));
    assert forall|i: int| 2 <= i < terms.len() implies #[trigger] terms[i] == terms[i - 1]
        + terms[i - 2] by {
        assert(terms[i - 1] == fib((i - 1) as nat));
        assert(terms[i - 2] == fib((i - 2) as nat));
        assert(fib(i as nat) == fib((i - 2) as nat) + fib((i - 1) as nat));
    }
    assert forall|i: int| 0 <= i < terms.len() implies 0 <= #[trigger] terms[i] <= max by {
        assert(fib(i as nat) <= max);
    }
}

} // verus!
