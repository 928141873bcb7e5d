//! The fixed-width integer types, seen through the few operations that the
//! sequence needs: zero, one, an addition that reports overflow, and the sign
//! and magnitude of a value read as an index.

use super::sealed::Sealed;
use vstd::math::abs;
use vstd::prelude::*;

verus! {

/// A fixed-width integer type: its values stand for the integers from
/// `min_int()` to `max_int()`.
///
/// The trait is implemented for the twelve primitive integer types, and it is
/// closed: the table of a type is only as sound as the addition behind it.
pub trait FixedWidth: Copy + Sealed {
    /// The integer that `self` stands for.
    spec fn as_int(self) -> int;

    /// The least integer that the type holds.
    spec fn min_int() -> int;

    /// The greatest integer that the type holds.
    spec fn max_int() -> int;

    /// Every value lies between the two limits.
    proof fn lemma_range(self)
        ensures
            Self::min_int() <= self.as_int() <= Self::max_int(),
    ;

    /// No two values stand for the same integer.
    proof fn lemma_distinct(self, other: Self)
        requires
            self.as_int() == other.as_int(),
        ensures
            self == other,
    ;

    /// The type holds 0 and 1, and where it holds a negative number at all it
    /// holds the negation of each of its positive numbers.
    proof fn lemma_limits()
        ensures
            Self::min_int() <= 0,
            Self::max_int() >= 1,
            Self::min_int() < 0 ==> Self::min_int() <= -Self::max_int(),
    ;

    /// The value 0.
    fn zero() -> (r: Self)
        ensures
            r.as_int() == 0,
    ;

    /// The value 1.
    fn one() -> (r: Self)
        ensures
            r.as_int() == 1,
    ;

    /// The sum of two values, or `None` where the type cannot hold it.
    fn checked_add(self, rhs: Self) -> (sum: Option<Self>)
        ensures
            match sum {
                Some(s) => s.as_int() == self.as_int() + rhs.as_int(),
                None => !(Self::min_int() <= self.as_int() + rhs.as_int() <= Self::max_int()),
            },
    ;

    /// The negation of a value, or `None` where the type cannot hold it.
    fn checked_neg(self) -> (neg: Option<Self>)
        ensures
            match neg {
                Some(s) => s.as_int() == -self.as_int(),
                None => !(Self::min_int() <= -self.as_int() <= Self::max_int()),
            },
    ;

    /// Whether the value is below zero.
    fn is_negative(self) -> (r: bool)
        ensures
            r == (self.as_int() < 0),
    ;

    /// The distance of the value from zero.
    fn magnitude(self) -> (r: u128)
        ensures
            r == abs(self.as_int()),
    ;
}

impl FixedWidth for i8 {
    open spec fn as_int(self) -> int {
        self as int
    }

    open spec fn min_int() -> int {
        i8::MIN as int
    }

    open spec fn max_int() -> int {
        i8::MAX as int
    }

    proof fn lemma_range(self) {
    }

    proof fn lemma_distinct(self, other: Self) {
    }

    proof fn lemma_limits() {
    }

    fn zero() -> (r: i8) {
        0
    }

    fn one() -> (r: i8) {
        1
    }

    fn checked_add(self, rhs: i8) -> (sum: Option<i8>) {
        i8::checked_add(self, rhs)
    }

    fn checked_neg(self) -> (neg: Option<i8>) {
        if self == i8::MIN {
            None
        } else {
            Some(-self)
        }
    }

    fn is_negative(self) -> (r: bool) {
        self < 0
    }

    fn magnitude(self) -> (r: u128) {
        if self < 0 {
            (-(self as i128)) as u128
        } else {
            self as u128
        }
    }
}

impl FixedWidth for u8 {
    open spec fn as_int(self) -> int {
        self as int
    }

    open spec fn min_int() -> int {
        0
    }

    open spec fn max_int() -> int {
        u8::MAX as int
    }

    proof fn lemma_range(self) {
    }

    proof fn lemma_distinct(self, other: Self) {
    }

    proof fn lemma_limits() {
    }

    fn zero() -> (r: u8) {
        0
    }

    fn one() -> (r: u8) {
        1
    }

    fn checked_add(self, rhs: u8) -> (sum: Option<u8>) {
        u8::checked_add(self, rhs)
    }

    fn checked_neg(self) -> (neg: Option<u8>) {
        if self == 0 {
            Some(0)
        } else {
            None
        }
    }

    fn is_negative(self) -> (r: bool) {
        false
    }

    fn magnitude(self) -> (r: u128) {
        self as u128
    }
}

impl FixedWidth for i16 {
    open spec fn as_int(self) -> int {
        self as int
    }

    open spec fn min_int() -> int {
        i16::MIN as int
    }

    open spec fn max_int() -> int {
        i16::MAX as int
    }

    proof fn lemma_range(self) {
    }

    proof fn lemma_distinct(self, other: Self) {
    }

    proof fn lemma_limits() {
    }

    fn zero() -> (r: i16) {
        0
    }

    fn one() -> (r: i16) {
        1
    }

    fn checked_add(self, rhs: i16) -> (sum: Option<i16>) {
        i16::checked_add(self, rhs)
    }

    fn checked_neg(self) -> (neg: Option<i16>) {
        if self == i16::MIN {
            None
        } else {
            Some(-self)
        }
    }

    fn is_negative(self) -> (r: bool) {
        self < 0
    }

    fn magnitude(self) -> (r: u128) {
        if self < 0 {
            (-(self as i128)) as u128
        } else {
            self as u128
        }
    }
}

impl FixedWidth for u16 {
    open spec fn as_int(self) -> int {
        self as int
    }

    open spec fn min_int() -> int {
        0
    }

    open spec fn max_int() -> int {
        u16::MAX as int
    }

    proof fn lemma_range(self) {
    }

    proof fn lemma_distinct(self, other: Self) {
    }

    proof fn lemma_limits() {
    }

    fn zero() -> (r: u16) {
        0
    }

    fn one() -> (r: u16) {
        1
    }

    fn checked_add(self, rhs: u16) -> (sum: Option<u16>) {
        u16::checked_add(self, rhs)
    }

    fn checked_neg(self) -> (neg: Option<u16>) {
        if self == 0 {
            Some(0)
        } else {
            None
        }
    }

    fn is_negative(self) -> (r: bool) {
        false
    }

    fn magnitude(self) -> (r: u128) {
        self as u128
    }
}

impl FixedWidth for i32 {
    open spec fn as_int(self) -> int {
        self as int
    }

    open spec fn min_int() -> int {
        i32::MIN as int
    }

    open spec fn max_int() -> int {
        i32::MAX as int
    }

    proof fn lemma_range(self) {
    }

    proof fn lemma_distinct(self, other: Self) {
    }

    proof fn lemma_limits() {
    }

    fn zero() -> (r: i32) {
        0
    }

    fn one() -> (r: i32) {
        1
    }

    fn checked_add(self, rhs: i32) -> (sum: Option<i32>) {
        i32::checked_add(self, rhs)
    }

    fn checked_neg(self) -> (neg: Option<i32>) {
        if self == i32::MIN {
            None
        } else {
            Some(-self)
        }
    }

    fn is_negative(self) -> (r: bool) {
        self < 0
    }

    fn magnitude(self) -> (r: u128) {
        if self < 0 {
            (-(self as i128)) as u128
        } else {
            self as u128
        }
    }
}

impl FixedWidth for u32 {
    open spec fn as_int(self) -> int {
        self as int
    }

    open spec fn min_int() -> int {
        0
    }

    open spec fn max_int() -> int {
        u32::MAX as int
    }

    proof fn lemma_range(self) {
    }

    proof fn lemma_distinct(self, other: Self) {
    }

    proof fn lemma_limits() {
    }

    fn zero() -> (r: u32) {
        0
    }

    fn one() -> (r: u32) {
        1
    }

    fn checked_add(self, rhs: u32) -> (sum: Option<u32>) {
        u32::checked_add(self, rhs)
    }

    fn checked_neg(self) -> (neg: Option<u32>) {
        if self == 0 {
            Some(0)
        } else {
            None
        }
    }

    fn is_negative(self) -> (r: bool) {
        false
    }

    fn magnitude(self) -> (r: u128) {
        self as u128
    }
}

impl FixedWidth for i64 {
    open spec fn as_int(self) -> int {
        self as int
    }

    open spec fn min_int() -> int {
        i64::MIN as int
    }

    open spec fn max_int() -> int {
        i64::MAX as int
    }

    proof fn lemma_range(self) {
    }

    proof fn lemma_distinct(self, other: Self) {
    }

    proof fn lemma_limits() {
    }

    fn zero() -> (r: i64) {
        0
    }

    fn one() -> (r: i64) {
        1
    }

    fn checked_add(self, rhs: i64) -> (sum: Option<i64>) {
        i64::checked_add(self, rhs)
    }

    fn checked_neg(self) -> (neg: Option<i64>) {
        if self == i64::MIN {
            None
        } else {
            Some(-self)
        }
    }

    fn is_negative(self) -> (r: bool) {
        self < 0
    }

    fn magnitude(self) -> (r: u128) {
        if self < 0 {
            (-(self as i128)) as u128
        } else {
            self as u128
        }
    }
}

impl FixedWidth for u64 {
    open spec fn as_int(self) -> int {
        self as int
    }

    open spec fn min_int() -> int {
        0
    }

    open spec fn max_int() -> int {
        u64::MAX as int
    }

    proof fn lemma_range(self) {
    }

    proof fn lemma_distinct(self, other: Self) {
    }

    proof fn lemma_limits() {
    }

    fn zero() -> (r: u64) {
        0
    }

    fn one() -> (r: u64) {
        1
    }

    fn checked_add(self, rhs: u64) -> (sum: Option<u64>) {
        u64::checked_add(self, rhs)
    }

    fn checked_neg(self) -> (neg: Option<u64>) {
        if self == 0 {
            Some(0)
        } else {
            None
        }
    }

    fn is_negative(self) -> (r: bool) {
        false
    }

    fn magnitude(self) -> (r: u128) {
        self as u128
    }
}

impl FixedWidth for i128 {
    open spec fn as_int(self) -> int {
        self as int
    }

    open spec fn min_int() -> int {
        i128::MIN as int
    }

    open spec fn max_int() -> int {
        i128::MAX as int
    }

    proof fn lemma_range(self) {
    }

    proof fn lemma_distinct(self, other: Self) {
    }

    proof fn lemma_limits() {
    }

    fn zero() -> (r: i128) {
        0
    }

    fn one() -> (r: i128) {
        1
    }

    fn checked_add(self, rhs: i128) -> (sum: Option<i128>) {
        i128::checked_add(self, rhs)
    }

    fn checked_neg(self) -> (neg: Option<i128>) {
        if self == i128::MIN {
            None
        } else {
            Some(-self)
        }
    }

    fn is_negative(self) -> (r: bool) {
        self < 0
    }

    fn magnitude(self) -> (r: u128) {
        if self >= 0 {
            self as u128
        } else if self == i128::MIN {
            0x8000_0000_0000_0000_0000_0000_0000_0000u128
        } else {
            (-self) as u128
        }
    }
}

impl FixedWidth for u128 {
    open spec fn as_int(self) -> int {
        self as int
    }

    open spec fn min_int() -> int {
        0
    }

    open spec fn max_int() -> int {
        u128::MAX as int
    }

    proof fn lemma_range(self) {
    }

    proof fn lemma_distinct(self, other: Self) {
    }

    proof fn lemma_limits() {
    }

    fn zero() -> (r: u128) {
        0
    }

    fn one() -> (r: u128) {
        1
    }

    fn checked_add(self, rhs: u128) -> (sum: Option<u128>) {
        u128::checked_add(self, rhs)
    }

    fn checked_neg(self) -> (neg: Option<u128>) {
        if self == 0 {
            Some(0)
        } else {
            None
        }
    }

    fn is_negative(self) -> (r: bool) {
        false
    }

    fn magnitude(self) -> (r: u128) {
        self as u128
    }
}

impl FixedWidth for isize {
    open spec fn as_int(self) -> int {
        self as int
    }

    open spec fn min_int() -> int {
        isize::MIN as int
    }

    open spec fn max_int() -> int {
        isize::MAX as int
    }

    proof fn lemma_range(self) {
    }

    proof fn lemma_distinct(self, other: Self) {
    }

    proof fn lemma_limits() {
    }

    fn zero() -> (r: isize) {
        0
    }

    fn one() -> (r: isize) {
        1
    }

    fn checked_add(self, rhs: isize) -> (sum: Option<isize>) {
        isize::checked_add(self, rhs)
    }

    fn checked_neg(self) -> (neg: Option<isize>) {
        if self == isize::MIN {
            None
        } else {
            Some(-self)
        }
    }

    fn is_negative(self) -> (r: bool) {
        self < 0
    }

    fn magnitude(self) -> (r: u128) {
        if self < 0 {
            (-(self as i128)) as u128
        } else {
            self as u128
        }
    }
}

impl FixedWidth for usize {
    open spec fn as_int(self) -> int {
        self as int
    }

    open spec fn min_int() -> int {
        0
    }

    open spec fn max_int() -> int {
        usize::MAX as int
    }

    proof fn lemma_range(self) {
    }

    proof fn lemma_distinct(self, other: Self) {
    }

    proof fn lemma_limits() {
    }

    fn zero() -> (r: usize) {
        0
    }

    fn one() -> (r: usize) {
        1
    }

    fn checked_add(self, rhs: usize) -> (sum: Option<usize>) {
        usize::checked_add(self, rhs)
    }

    fn checked_neg(self) -> (neg: Option<usize>) {
        if self == 0 {
            Some(0)
        } else {
            None
        }
    }

    fn is_negative(self) -> (r: bool) {
        false
    }

    fn magnitude(self) -> (r: u128) {
        self as u128
    }
}

} // verus!
