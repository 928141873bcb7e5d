use mathematical::sequences::fibonacci::{Cursor, Fibonacci, FibonacciTable};

#[test]
fn table_lengths_of_the_sized_types() {
    assert_eq!(FibonacciTable::<i8>::new().len(), 12);
    assert_eq!(FibonacciTable::<u8>::new().len(), 14);
    assert_eq!(FibonacciTable::<i16>::new().len(), 24);
    assert_eq!(FibonacciTable::<u16>::new().len(), 25);
    assert_eq!(FibonacciTable::<i32>::new().len(), 47);
    assert_eq!(FibonacciTable::<u32>::new().len(), 48);
    assert_eq!(FibonacciTable::<i64>::new().len(), 93);
    assert_eq!(FibonacciTable::<u64>::new().len(), 94);
    assert_eq!(FibonacciTable::<i128>::new().len(), 185);
    assert_eq!(FibonacciTable::<u128>::new().len(), 187);
}

#[test]
fn table_lengths_of_the_word_types() {
    let signed = FibonacciTable::<isize>::new().len();
    let unsigned = FibonacciTable::<usize>::new().len();
    if usize::BITS == 64 {
        assert_eq!(signed, 93);
        assert_eq!(unsigned, 94);
    } else if usize::BITS == 32 {
        assert_eq!(signed, 47);
        assert_eq!(unsigned, 48);
    } else {
        assert_eq!(signed, 24);
        assert_eq!(unsigned, 25);
    }
}

#[test]
fn last_terms_of_the_sized_types() {
    assert_eq!(FibonacciTable::<i8>::new().get(11), Some(89));
    assert_eq!(FibonacciTable::<u8>::new().get(13), Some(233));
    assert_eq!(FibonacciTable::<i16>::new().get(23), Some(28657));
    assert_eq!(FibonacciTable::<u16>::new().get(24), Some(46368));
    assert_eq!(FibonacciTable::<i32>::new().get(46), Some(1836311903));
    assert_eq!(FibonacciTable::<u32>::new().get(47), Some(2971215073));
    assert_eq!(FibonacciTable::<i64>::new().get(92), Some(7540113804746346429));
    assert_eq!(FibonacciTable::<u64>::new().get(93), Some(12200160415121876738));
    assert_eq!(
        FibonacciTable::<i128>::new().get(184),
        Some(127127879743834334146972278486287885163)
    );
    assert_eq!(
        FibonacciTable::<u128>::new().get(186),
        Some(332825110087067562321196029789634457848)
    );
}

#[test]
fn get_past_the_end_is_none() {
    assert_eq!(FibonacciTable::<i8>::new().get(12), None);
    assert_eq!(FibonacciTable::<u8>::new().get(14), None);
    assert_eq!(FibonacciTable::<u128>::new().get(187), None);
    assert_eq!(FibonacciTable::<u128>::new().get(usize::MAX), None);
}

#[test]
fn smallest_unsigned_table_holds_one_twice() {
    let table = FibonacciTable::<u8>::new();
    assert_eq!(table.get(0), Some(0));
    assert_eq!(table.get(1), Some(1));
    assert_eq!(table.get(2), Some(1));
    assert_eq!(table.get(3), Some(2));
}

#[test]
fn table_entries_follow_the_recurrence() {
    let table = FibonacciTable::<u64>::new();
    let len = table.len();
    assert_eq!(table.get(0), Some(0));
    assert_eq!(table.get(1), Some(1));
    for i in 2..len {
        let before = table.get(i - 1).unwrap();
        let before_that = table.get(i - 2).unwrap();
        assert_eq!(table.get(i), Some(before + before_that));
    }
    let last = table.get(len - 1).unwrap();
    let second_last = table.get(len - 2).unwrap();
    assert_eq!(last.checked_add(second_last), None);
}

#[test]
fn one_table_serves_many_lookups() {
    let table = FibonacciTable::<i32>::new();
    assert_eq!(table.nth(0), Some(0));
    assert_eq!(table.nth(10), Some(55));
    assert_eq!(table.nth(-10), Some(-55));
    assert_eq!(table.nth(-9), Some(34));
    assert_eq!(table.nth(46), Some(1836311903));
    assert_eq!(table.nth(-46), Some(-1836311903));
    assert_eq!(table.nth(47), None);
    assert_eq!(table.nth(-47), None);
    assert_eq!(table.nth(i32::MAX), None);
    assert_eq!(table.nth(i32::MIN), None);
}

#[test]
fn table_lookup_agrees_with_the_trait() {
    let table = FibonacciTable::<i16>::new();
    for n in -30i16..=30 {
        assert_eq!(table.nth(n), i16::nth_fibonacci(&n));
    }
}

#[test]
fn table_cursor_walks_the_table() {
    let table = FibonacciTable::<u16>::new();
    let len = table.len();
    let reference = FibonacciTable::<u16>::new();
    let mut iter = table.into_iter();
    for i in 0..len {
        assert_eq!(iter.next(), reference.get(i));
    }
    assert_eq!(iter.next(), None);
}
