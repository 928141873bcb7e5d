use mathematical::sequences::fibonacci::{Cursor, Fibonacci};

#[test]
fn i8_enumerates_twelve_terms_then_ends() {
    let expected: [i8; 12] = [0, 1, 1, 2, 3, 5, 8, 13, 21, 34, 55, 89];
    let mut iter = i8::fibonacci_iter();
    for term in expected {
        assert_eq!(iter.next(), Some(term));
    }
    assert_eq!(iter.next(), None);
}

#[test]
fn i8_lookup_by_signed_index() {
    assert_eq!(i8::nth_fibonacci(&10), Some(55));
    assert_eq!(i8::nth_fibonacci(&-10), Some(-55));
    assert_eq!(i8::nth_fibonacci(&12), None);
}

#[test]
fn i32_lookup_stops_before_the_fiftieth_term() {
    assert_eq!(i32::nth_fibonacci(&10), Some(55));
    assert_eq!(i32::nth_fibonacci(&50), None);
}

#[test]
fn integer_lookup_by_signed_index() {
    let ten = rug::Integer::from(10);
    assert_eq!(rug::Integer::nth_fibonacci(&ten), Some(rug::Integer::from(55)));
    let minus_ten = rug::Integer::from(-10);
    assert_eq!(rug::Integer::nth_fibonacci(&minus_ten), Some(rug::Integer::from(-55)));
    let minus_nine = rug::Integer::from(-9);
    assert_eq!(rug::Integer::nth_fibonacci(&minus_nine), Some(rug::Integer::from(34)));
}
