use mathematical::sequences::fibonacci::{Cursor, Fibonacci};

#[test]
fn lookup_of_zero_is_zero() {
    assert_eq!(i8::nth_fibonacci(&0), Some(0));
    assert_eq!(u8::nth_fibonacci(&0), Some(0));
    assert_eq!(i128::nth_fibonacci(&0), Some(0));
    assert_eq!(usize::nth_fibonacci(&0), Some(0));
}

#[test]
fn lookup_at_the_positive_boundary() {
    assert_eq!(i8::nth_fibonacci(&11), Some(89));
    assert_eq!(i8::nth_fibonacci(&12), None);
    assert_eq!(u8::nth_fibonacci(&13), Some(233));
    assert_eq!(u8::nth_fibonacci(&14), None);
    assert_eq!(i16::nth_fibonacci(&23), Some(28657));
    assert_eq!(i16::nth_fibonacci(&24), None);
    assert_eq!(u16::nth_fibonacci(&24), Some(46368));
    assert_eq!(u16::nth_fibonacci(&25), None);
    assert_eq!(i32::nth_fibonacci(&46), Some(1836311903));
    assert_eq!(i32::nth_fibonacci(&47), None);
    assert_eq!(u32::nth_fibonacci(&47), Some(2971215073));
    assert_eq!(u32::nth_fibonacci(&48), None);
    assert_eq!(i64::nth_fibonacci(&92), Some(7540113804746346429));
    assert_eq!(i64::nth_fibonacci(&93), None);
    assert_eq!(u64::nth_fibonacci(&93), Some(12200160415121876738));
    assert_eq!(u64::nth_fibonacci(&94), None);
    assert_eq!(
        i128::nth_fibonacci(&184),
        Some(127127879743834334146972278486287885163)
    );
    assert_eq!(i128::nth_fibonacci(&185), None);
    assert_eq!(
        u128::nth_fibonacci(&186),
        Some(332825110087067562321196029789634457848)
    );
    assert_eq!(u128::nth_fibonacci(&187), None);
}

#[test]
fn lookup_at_the_negative_boundary() {
    assert_eq!(i8::nth_fibonacci(&-11), Some(89));
    assert_eq!(i8::nth_fibonacci(&-12), None);
    assert_eq!(i16::nth_fibonacci(&-23), Some(28657));
    assert_eq!(i16::nth_fibonacci(&-24), None);
    assert_eq!(i32::nth_fibonacci(&-46), Some(-1836311903));
    assert_eq!(i32::nth_fibonacci(&-47), None);
    assert_eq!(i64::nth_fibonacci(&-92), Some(-7540113804746346429));
    assert_eq!(i64::nth_fibonacci(&-93), None);
    assert_eq!(
        i128::nth_fibonacci(&-184),
        Some(-127127879743834334146972278486287885163)
    );
    assert_eq!(i128::nth_fibonacci(&-185), None);
}

#[test]
fn lookup_at_the_limits_of_the_type_is_none() {
    assert_eq!(i8::nth_fibonacci(&i8::MAX), None);
    assert_eq!(i8::nth_fibonacci(&i8::MIN), None);
    assert_eq!(u8::nth_fibonacci(&u8::MAX), None);
    assert_eq!(i16::nth_fibonacci(&i16::MIN), None);
    assert_eq!(i32::nth_fibonacci(&i32::MIN), None);
    assert_eq!(i64::nth_fibonacci(&i64::MAX), None);
    assert_eq!(i64::nth_fibonacci(&i64::MIN), None);
    assert_eq!(u64::nth_fibonacci(&u64::MAX), None);
    assert_eq!(i128::nth_fibonacci(&i128::MAX), None);
    assert_eq!(i128::nth_fibonacci(&i128::MIN), None);
    assert_eq!(u128::nth_fibonacci(&u128::MAX), None);
    assert_eq!(isize::nth_fibonacci(&isize::MIN), None);
    assert_eq!(usize::nth_fibonacci(&usize::MAX), None);
}

#[test]
fn lookup_of_an_index_wider_than_the_word_is_none() {
    let past_64_bits: u128 = 1u128 << 64;
    assert_eq!(u128::nth_fibonacci(&past_64_bits), None);
    assert_eq!(u128::nth_fibonacci(&(past_64_bits + 10)), None);
    let past_32_bits: u128 = 1u128 << 32;
    assert_eq!(u128::nth_fibonacci(&past_32_bits), None);
    let signed: i128 = 1i128 << 64;
    assert_eq!(i128::nth_fibonacci(&signed), None);
    assert_eq!(i128::nth_fibonacci(&-signed), None);
    assert_eq!(i128::nth_fibonacci(&(-signed - 10)), None);
}

#[test]
fn negative_index_keeps_odd_terms_and_negates_even_ones() {
    let mut n: i64 = 1;
    while n <= 92 {
        let forward = i64::nth_fibonacci(&n).unwrap();
        let backward = i64::nth_fibonacci(&-n).unwrap();
        if n % 2 == 1 {
            assert_eq!(backward, forward);
        } else {
            assert_eq!(backward, -forward);
        }
        n += 1;
    }
}

#[test]
fn negative_indices_continue_the_recurrence() {
    let mut n: i32 = -44;
    while n <= 44 {
        let low = i32::nth_fibonacci(&n).unwrap();
        let middle = i32::nth_fibonacci(&(n + 1)).unwrap();
        let high = i32::nth_fibonacci(&(n + 2)).unwrap();
        assert_eq!(high, middle + low);
        n += 1;
    }
}

#[test]
fn first_negative_terms() {
    let expected: [i16; 9] = [0, 1, -1, 2, -3, 5, -8, 13, -21];
    let mut n: i16 = 0;
    for term in expected {
        assert_eq!(i16::nth_fibonacci(&n), Some(term));
        n -= 1;
    }
}

#[test]
fn enumeration_agrees_with_lookup() {
    let mut iter = i64::fibonacci_iter();
    let mut n: i64 = 0;
    loop {
        let yielded = iter.next();
        assert_eq!(yielded, i64::nth_fibonacci(&n));
        if yielded.is_none() {
            break;
        }
        n += 1;
    }
    assert_eq!(n, 93);
}

#[test]
fn enumeration_agrees_with_lookup_unsigned() {
    let mut iter = u128::fibonacci_iter();
    let mut n: u128 = 0;
    loop {
        let yielded = iter.next();
        assert_eq!(yielded, u128::nth_fibonacci(&n));
        if yielded.is_none() {
            break;
        }
        n += 1;
    }
    assert_eq!(n, 187);
}
