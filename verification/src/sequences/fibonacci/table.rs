//! The table of a fixed-width type: every Fibonacci number that fits in it,
//! found by adding until the addition overflows; the cursor that walks the
//! table; and the lookup by signed index.

use super::fixed_width::FixedWidth;
use super::series::{
    fib, is_table, lemma_fib_lower_bound, lemma_fib_monotonic, lemma_table_recurrence,
};
use super::{lookup, term_at, value_of, Cursor, Domain, Fibonacci};
use vstd::prelude::*;

verus! {

/// A fixed-width type stands for the integers between its two limits.
impl<T: FixedWidth> Domain for T {
    open spec fn value(&self) -> int {
        self.as_int()
    }

    open spec fn admits(v: int) -> bool {
        T::min_int() <= v <= T::max_int()
    }

    proof fn lemma_value_admitted(&self) {
        self.lemma_range();
    }

    proof fn lemma_admits_between(v: int, w: int) {
        T::lemma_limits();
    }
}

/// Over a fixed-width type the integer behind a result decides the result:
/// the contracts of this module, which speak of that integer, fix the value
/// that is returned.
pub proof fn lemma_value_decides<T: FixedWidth>(first: Option<T>, second: Option<T>)
    requires
        value_of(first) == value_of(second),
    ensures
        first == second,
{
    if first is Some {
        first->0.lemma_distinct(second->0);
    }
}

/// The table of every fixed-width type starts `0, 1`, continues by adding the
/// two entries before, holds no entry outside the type, and ends where the
/// sum of its last two entries overflows the type.
pub proof fn lemma_table_of_type<T: FixedWidth>(terms: Seq<int>)
    requires
        is_table(terms, T::max_int()),
    ensures
        terms.len() >= 3,
        terms[0] == 0,
        terms[1] == 1,
        forall|i: int| 2 <= i < terms.len() ==> #[trigger] terms[i] == terms[i - 1] + terms[i - 2],
        forall|i: int| 0 <= i < terms.len() ==> T::admits(#[trigger] terms[i]),
        !T::admits(terms[terms.len() - 1] + terms[terms.len() - 2]),
{
    T::lemma_limits();
    lemma_table_recurrence(terms, T::max_int());
}

/// The Fibonacci numbers that fit in `T`, in index order.
pub struct FibonacciTable<T: FixedWidth> {
    terms: Vec<T>,
}

impl<T: FixedWidth> View for FibonacciTable<T> {
    type V = Seq<int>;

    /// The integers that the entries stand for.
    closed spec fn view(&self) -> Seq<int> {
        Seq::new(self.terms@.len(), |i: int| self.terms@[i].as_int())
    }
}

impl<T: FixedWidth> FibonacciTable<T> {
    /// The entries are the table of the type's greatest integer.
    #[verifier::type_invariant]
    spec fn well_formed(&self) -> bool {
        is_table(self@, T::max_int())
    }

    /// Builds the table from 0 and 1 by checked addition alone: a term enters
    /// the table when the type holds it, and the first sum that overflows ends
    /// the table.
    pub fn new() -> (table: Self)
        ensures
            is_table(table@, T::max_int()),
    {
        let mut terms: Vec<T> = Vec::new();
        let mut a: Option<T> = Some(T::zero());
        let mut b: Option<T> = Some(T::one());
        proof {
            T::lemma_limits();
        }
        while a.is_some()
            invariant
                T::min_int() <= 0,
                forall|i: int| 0 <= i < terms@.len() ==> #[trigger] terms@[i].as_int() == fib(i as nat),
                forall|n: nat| n < terms@.len() ==> #[trigger] fib(n) <= T::max_int(),
                match a {
                    Some(x) => x.as_int() == fib(terms@.len()),
                    None => fib(terms@.len()) > T::max_int(),
                },
                match b {
                    Some(y) => a.is_some() && y.as_int() == fib(terms@.len() + 1),
                    None => fib(terms@.len() + 1) > T::max_int(),
                },
            decreases
                if a.is_some() { T::max_int() + 2 - terms@.len() } else { 0 },
        {
            let ghost count = terms@.len();
            let x = a.unwrap();
            proof {
                x.lemma_range();
                lemma_fib_lower_bound(count);
                lemma_fib_monotonic(count + 1, count + 2);
            }
            terms.push(x);
            let next = match b {
                Some(y) => x.checked_add(y),
                None => None,
            };
            a = b;
            b = next;
            proof {
                if a.is_some() {
                    a.unwrap().lemma_range();
                }
            }
        }
        proof {
            let len = terms@.len();
            let view = Seq::new(len, |i: int| terms@[i].as_int());
            assert forall|n: nat| n < len <==> #[trigger] fib(n) <= T::max_int() by {
                if n >= len {
                    lemma_fib_monotonic(len, n);
                }
            }
            assert forall|i: int| 0 <= i < len implies #[trigger] view[i] == fib(i as nat) by {
                assert(terms@[i].as_int() == fib(i as nat));
            }
            assert(is_table(view, T::max_int()));
        }
        FibonacciTable { terms }
    }

    /// Entry `i` stands for `fib(i)`, which the type holds.
    proof fn lemma_entry(&self, i: int)
        requires
            self.well_formed(),
            0 <= i < self.terms@.len(),
        ensures
            self.terms@[i].as_int() == fib(i as nat),
            T::admits(fib(i as nat) as int),
    {
        T::lemma_limits();
        assert(self@[i] == fib(i as nat));
        assert(fib(i as nat) <= T::max_int());
    }

    /// No index from the table's length on has a term that the type holds.
    proof fn lemma_past_end(&self, n: nat)
        requires
            self.well_formed(),
            n >= self.terms@.len(),
        ensures
            !T::admits(fib(n) as int),
    {
        assert(!(fib(n) <= T::max_int()));
    }

    /// The number of terms that fit in `T`.
    pub fn len(&self) -> (len: usize)
        ensures
            len == self@.len(),
            is_table(self@, T::max_int()),
    {
        proof {
            use_type_invariant(self);
        }
        self.terms.len()
    }

    /// The term at `index`, or `None` past the end of the table.
    pub fn get(&self, index: usize) -> (item: Option<T>)
        ensures
            value_of(item) == if index < self@.len() {
                Some(self@[index as int])
            } else {
                None
            },
            value_of(item) == term_at::<T>(index as nat),
            is_table(self@, T::max_int()),
    {
        proof {
            use_type_invariant(self);
            T::lemma_limits();
        }
        if index < self.terms.len() {
            proof {
                self.lemma_entry(index as int);
            }
            Some(self.terms[index])
        } else {
            proof {
                self.lemma_past_end(index as nat);
            }
            None
        }
    }

    /// The term at the signed index `n`: the table's entry at the magnitude
    /// of `n`, negated where `n` is negative and even; `None` where the
    /// magnitude lies past the end of the table.
    pub fn nth(&self, n: T) -> (item: Option<T>)
        ensures
            value_of(item) == lookup::<T>(n.value()),
    {
        proof {
            use_type_invariant(self);
            T::lemma_limits();
            n.lemma_range();
        }
        let magnitude: u128 = n.magnitude();
        let len: usize = self.terms.len();
        if magnitude < len as u128 {
            proof {
                self.lemma_entry(magnitude as int);
            }
            let found: T = self.terms[magnitude as usize];
            if n.is_negative() && magnitude % 2 == 0 {
                found.checked_neg()
            } else {
                Some(found)
            }
        } else {
            proof {
                self.lemma_past_end(magnitude as nat);
            }
            None
        }
    }

    /// A cursor over the table, standing at index 0.
    pub fn into_iter(self) -> (iter: TableIter<T>)
        ensures
            iter.position() == 0,
    {
        proof {
            use_type_invariant(&self);
        }
        TableIter { table: self, index: 0 }
    }
}

/// A cursor over the table of `T`.
pub struct TableIter<T: FixedWidth> {
    table: FibonacciTable<T>,
    index: usize,
}

impl<T: FixedWidth> TableIter<T> {
    /// The cursor stands inside its table, or just past its end.
    #[verifier::type_invariant]
    spec fn well_formed(&self) -> bool {
        &&& is_table(self.table@, T::max_int())
        &&& self.index <= self.table@.len()
    }
}

impl<T: FixedWidth> Cursor for TableIter<T> {
    type Item = T;

    closed spec fn position(&self) -> nat {
        self.index as nat
    }

    fn next(&mut self) -> (item: Option<T>) {
        proof {
            use_type_invariant(&*self);
            T::lemma_limits();
        }
        if self.index < self.table.terms.len() {
            proof {
                self.table.lemma_entry(self.index as int);
            }
            let found: T = self.table.terms[self.index];
            self.index = self.index + 1;
            Some(found)
        } else {
            proof {
                self.table.lemma_past_end(self.index as nat);
            }
            None
        }
    }
}

/// Every fixed-width type has the sequence. Each call builds the table of the
/// type anew; a caller with many lookups keeps a [`FibonacciTable`] and asks
/// that.
impl<T: FixedWidth> Fibonacci for T {
    type Iter = TableIter<T>;

    fn fibonacci_iter() -> (iter: TableIter<T>) {
        FibonacciTable::new().into_iter()
    }

    fn nth_fibonacci(n: &T) -> (item: Option<T>) {
        FibonacciTable::new().nth(*n)
    }
}

} // verus!
