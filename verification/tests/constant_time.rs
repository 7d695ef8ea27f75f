use core::cmp::Ordering;

use ctcore::{Choice, ConditionalMove, ConditionalMoveEq, CtEq, CtOption, Limb};
use ctcore::{is_nonzero_u8, is_nonzero_u64};

#[test]
fn normalize_u8_exhaustive() {
    for v in 0..=255u8 {
        let r = is_nonzero_u8(v);
        assert!(r == 0 || r == 1);
        assert_eq!(r == 0, v == 0);
    }
}

#[test]
fn normalize_u64_sampled() {
    let samples: Vec<u64> = vec![0, 1, 2, 200, 0xffff, 1 << 32, 1 << 63, u64::MAX];
    for v in samples {
        let r = is_nonzero_u64(v);
        assert!(r == 0 || r == 1);
        assert_eq!(r == 0, v == 0);
    }
}

#[test]
fn is_nonzero_concrete_scenario() {
    assert_eq!(is_nonzero_u8(0), 0);
    assert_eq!(is_nonzero_u8(200), 1);
}

#[test]
fn conditional_move_zero_concrete_scenario() {
    let mut a = 5u64;
    a.conditional_move_zero(&9u64, 0);
    assert_eq!(a, 9);

    let mut b = 5u64;
    b.conditional_move_zero(&9u64, 3);
    assert_eq!(b, 5);
}

#[test]
fn conditional_move_unsigned_widths() {
    let conditions = [0u8, 1, 3, 127, 128, 255];
    for &c in &conditions {
        let mut a = 0xa5u8;
        a.conditional_move_zero(&0x5au8, c);
        assert_eq!(a, if c == 0 { 0x5a } else { 0xa5 });
        let mut a = 0xa5u8;
        a.conditional_move_nonzero(&0x5au8, c);
        assert_eq!(a, if c != 0 { 0x5a } else { 0xa5 });

        let mut a = 0xa5a5u16;
        a.conditional_move_zero(&0x5a5au16, c);
        assert_eq!(a, if c == 0 { 0x5a5a } else { 0xa5a5 });
        let mut a = 0xa5a5u16;
        a.conditional_move_nonzero(&0x5a5au16, c);
        assert_eq!(a, if c != 0 { 0x5a5a } else { 0xa5a5 });

        let mut a = 0xdead_beefu32;
        a.conditional_move_zero(&0x1234_5678u32, c);
        assert_eq!(a, if c == 0 { 0x1234_5678 } else { 0xdead_beef });
        let mut a = 0xdead_beefu32;
        a.conditional_move_nonzero(&0x1234_5678u32, c);
        assert_eq!(a, if c != 0 { 0x1234_5678 } else { 0xdead_beef });

        let mut a = u64::MAX;
        a.conditional_move_zero(&7u64, c);
        assert_eq!(a, if c == 0 { 7 } else { u64::MAX });
        let mut a = u64::MAX;
        a.conditional_move_nonzero(&7u64, c);
        assert_eq!(a, if c != 0 { 7 } else { u64::MAX });

        let x = 0x0123_4567_89ab_cdef_fedc_ba98_7654_3210u128;
        let y = u128::MAX - 12345;
        let mut a = x;
        a.conditional_move_zero(&y, c);
        assert_eq!(a, if c == 0 { y } else { x });
        let mut a = x;
        a.conditional_move_nonzero(&y, c);
        assert_eq!(a, if c != 0 { y } else { x });
    }
}

#[test]
fn conditional_move_signed_widths() {
    let conditions = [0u8, 5, 255];
    for &c in &conditions {
        let mut a = -7i8;
        a.conditional_move_zero(&100i8, c);
        assert_eq!(a, if c == 0 { 100 } else { -7 });

        let mut a = -30000i16;
        a.conditional_move_nonzero(&12345i16, c);
        assert_eq!(a, if c != 0 { 12345 } else { -30000 });

        let mut a = i32::MIN;
        a.conditional_move_zero(&-1i32, c);
        assert_eq!(a, if c == 0 { -1 } else { i32::MIN });

        let mut a = i64::MIN;
        a.conditional_move_nonzero(&i64::MAX, c);
        assert_eq!(a, if c != 0 { i64::MAX } else { i64::MIN });

        let mut a = -1i128;
        a.conditional_move_zero(&i128::MIN, c);
        assert_eq!(a, if c == 0 { i128::MIN } else { -1 });
    }
}

#[test]
fn conditional_move_eq_writes_on_equality() {
    let mut out = 0u8;
    5u64.conditional_move_eq(&5u64, 1, &mut out);
    assert_eq!(out, 1);

    let mut out = 0u8;
    5u64.conditional_move_eq(&6u64, 1, &mut out);
    assert_eq!(out, 0);

    let mut out = 7u8;
    9u8.conditional_move_ne(&9u8, 1, &mut out);
    assert_eq!(out, 7);

    let mut out = 7u8;
    9u8.conditional_move_ne(&10u8, 1, &mut out);
    assert_eq!(out, 1);
}

#[test]
fn conditional_move_eq_u128_halves() {
    let hi_differs = 1u128 << 100;
    let mut out = 0u8;
    hi_differs.conditional_move_eq(&0u128, 1, &mut out);
    assert_eq!(out, 0);

    let mut out = 0u8;
    hi_differs.conditional_move_eq(&hi_differs, 1, &mut out);
    assert_eq!(out, 1);

    let mut out = 0u8;
    hi_differs.conditional_move_ne(&0u128, 1, &mut out);
    assert_eq!(out, 1);

    let lo_differs = 3u128;
    let mut out = 0u8;
    lo_differs.conditional_move_ne(&5u128, 1, &mut out);
    assert_eq!(out, 1);

    let mut out = 0u8;
    lo_differs.conditional_move_ne(&lo_differs, 1, &mut out);
    assert_eq!(out, 0);
}

#[test]
fn conditional_move_eq_slices() {
    let a: &[u64] = &[1, 2, 3];
    let b: &[u64] = &[1, 2, 3];
    let c: &[u64] = &[1, 2, 4];
    let short: &[u64] = &[1, 2];

    let mut out = 0u8;
    a.conditional_move_eq(b, 1, &mut out);
    assert_eq!(out, 1);

    let mut out = 0u8;
    a.conditional_move_eq(c, 1, &mut out);
    assert_eq!(out, 0);

    let mut out = 0u8;
    a.conditional_move_ne(c, 1, &mut out);
    assert_eq!(out, 1);

    let mut out = 0u8;
    a.conditional_move_ne(short, 1, &mut out);
    assert_eq!(out, 1);
}

#[test]
fn flag_roundtrip_exhaustive() {
    for v in 0..=255u8 {
        assert_eq!(Choice::from_u8(v).to_u8(), v & 1);
    }
}

#[test]
fn flag_from_wider_widths() {
    assert_eq!(Choice::from_u16(0x0100).to_u8(), 0);
    assert_eq!(Choice::from_u16(0x0101).to_u8(), 1);
    assert_eq!(Choice::from_u32(4).to_u8(), 0);
    assert_eq!(Choice::from_u32(5).to_u8(), 1);
    assert_eq!(Choice::from_u64(u64::MAX).to_u8(), 1);
    assert_eq!(Choice::from_u64(u64::MAX - 1).to_u8(), 0);
    assert_eq!(Choice::from_u128(u128::MAX).to_u8(), 1);
    assert_eq!(Choice::from_u128(2).to_u8(), 0);
}

#[test]
fn flag_algebra_truth_tables() {
    for a in 0..=1u8 {
        for b in 0..=1u8 {
            let x = Choice::from_u8(a);
            let y = Choice::from_u8(b);
            assert_eq!(x.and(y).to_u8(), a & b);
            assert_eq!(x.or(y).to_u8(), a | b);
            assert_eq!(x.xor(y).to_u8(), a ^ b);
            assert_eq!(x.ne(y).to_u8(), a ^ b);
            assert_eq!(x.eq(y).to_u8(), (a ^ b) ^ 1);
        }
        let x = Choice::from_u8(a);
        assert_eq!(x.not().to_u8(), a ^ 1);
        assert_eq!(x.to_bool(), a != 0);
        assert_eq!(x.vt_to_u8(), a);
        assert_eq!(x.vt_to_bool(), a != 0);
    }
    assert_eq!(Choice::true_value().to_u8(), 1);
    assert_eq!(Choice::false_value().to_u8(), 0);
}

#[test]
fn ct_eq_reflexive_and_symmetric_samples() {
    let us = [0u64, 1, 42, u64::MAX];
    for &a in &us {
        assert_eq!(a.ct_eq(&a).to_u8(), 1);
        for &b in &us {
            assert_eq!(a.ct_eq(&b).to_u8(), b.ct_eq(&a).to_u8());
        }
    }
    let is = [i32::MIN, -1, 0, 7, i32::MAX];
    for &a in &is {
        assert_eq!(a.ct_eq(&a).to_u8(), 1);
        for &b in &is {
            assert_eq!(a.ct_eq(&b).to_u8(), b.ct_eq(&a).to_u8());
        }
    }
}

#[test]
fn ct_eq_scalar_widths() {
    assert_eq!(3u8.ct_eq(&3u8).to_u8(), 1);
    assert_eq!(3u8.ct_eq(&4u8).to_u8(), 0);
    assert_eq!(300u16.ct_eq(&300u16).to_u8(), 1);
    assert_eq!(300u16.ct_eq(&301u16).to_u8(), 0);
    assert_eq!(70000u32.ct_eq(&70000u32).to_u8(), 1);
    assert_eq!(70000u32.ct_eq(&70001u32).to_u8(), 0);
    assert_eq!(u64::MAX.ct_eq(&u64::MAX).to_u8(), 1);
    assert_eq!(u64::MAX.ct_eq(&0u64).to_u8(), 0);
    let big = 1u128 << 100;
    assert_eq!(big.ct_eq(&big).to_u8(), 1);
    assert_eq!(big.ct_eq(&(big + 1)).to_u8(), 0);
    assert_eq!((-5i8).ct_eq(&-5i8).to_u8(), 1);
    assert_eq!((-5i8).ct_eq(&5i8).to_u8(), 0);
    assert_eq!((-5i128).ct_eq(&-5i128).to_u8(), 1);
    assert_eq!((-5i128).ct_eq(&5i128).to_u8(), 0);
    assert_eq!(7usize.ct_eq(&7usize).to_u8(), 1);
    assert_eq!(7usize.ct_eq(&8usize).to_u8(), 0);
    assert_eq!((-7isize).ct_eq(&-7isize).to_u8(), 1);
    assert_eq!((-7isize).ct_eq(&7isize).to_u8(), 0);
}

#[test]
fn ct_eq_ordering() {
    assert_eq!(Ordering::Less.ct_eq(&Ordering::Less).to_u8(), 1);
    assert_eq!(Ordering::Less.ct_eq(&Ordering::Greater).to_u8(), 0);
    assert_eq!(Ordering::Equal.ct_eq(&Ordering::Equal).to_u8(), 1);
    assert_eq!(Ordering::Equal.ct_eq(&Ordering::Greater).to_u8(), 0);
}

#[test]
fn ct_eq_sequences() {
    let a = [1u8, 2, 3];
    let b = [1u8, 2, 3];
    let c = [1u8, 2, 4];
    assert_eq!(a.ct_eq(&b).to_u8(), 1);
    assert_eq!(a.ct_eq(&c).to_u8(), 0);

    let s2: &[u8] = &[1, 2];
    let s3: &[u8] = &[1, 2, 3];
    assert_eq!(s2.ct_eq(s3).to_u8(), 0);
    assert_eq!(s3.ct_eq(s3).to_u8(), 1);

    let empty: &[u8] = &[];
    assert_eq!(empty.ct_eq(empty).to_u8(), 1);
    assert_eq!(empty.ct_eq(s2).to_u8(), 0);
}

#[test]
fn ct_ne_complements_ct_eq() {
    assert_eq!(5u64.ct_ne(&5u64).to_u8(), 0);
    assert_eq!(5u64.ct_ne(&6u64).to_u8(), 1);
    let a = [9u32, 8];
    let b = [9u32, 7];
    assert_eq!(a.ct_ne(&b).to_u8(), 1);
    assert_eq!(a.ct_ne(&a).to_u8(), 0);
}

#[test]
fn option_some_none_roundtrip() {
    assert_eq!(CtOption::some(17u32).into_option(), Some(17));
    assert_eq!(CtOption::<u32>::none().into_option(), None);
    assert_eq!(CtOption::some(17u32).into_option_copied(), Some(17));
    assert_eq!(CtOption::<u32>::none().into_option_copied(), None);
}

#[test]
fn option_validity_flags() {
    assert_eq!(CtOption::some(1u8).is_some().to_u8(), 1);
    assert_eq!(CtOption::some(1u8).is_none().to_u8(), 0);
    assert_eq!(CtOption::<u8>::none().is_some().to_u8(), 0);
    assert_eq!(CtOption::<u8>::none().is_none().to_u8(), 1);
    let flagged = CtOption::new(9u8, Choice::from_u8(0));
    assert_eq!(flagged.is_some().to_u8(), 0);
    assert_eq!(flagged.to_value(), 9);
    assert_eq!(*flagged.to_ref(), 9);
}

#[test]
fn option_and_combinator() {
    let r = CtOption::some(1u8).and(CtOption::some(9u16));
    assert_eq!(r.is_some().to_u8(), 1);
    assert_eq!(r.to_value(), 9);

    let r = CtOption::<u8>::none().and(CtOption::some(9u16));
    assert_eq!(r.is_some().to_u8(), 0);

    let r = CtOption::some(1u8).and(CtOption::<u16>::none());
    assert_eq!(r.is_some().to_u8(), 0);

    let r = CtOption::<u8>::none().and(CtOption::<u16>::none());
    assert_eq!(r.is_some().to_u8(), 0);
}

#[test]
fn option_and_then_combinator() {
    let r = CtOption::some(4u32).and_then(|v| CtOption::some(v + 1));
    assert_eq!(r.into_option(), Some(5));

    let r = CtOption::<u32>::none().and_then(|v| CtOption::some(v + 1));
    assert_eq!(r.into_option(), None);

    let r = CtOption::some(4u32).and_then(|_v| CtOption::<u32>::none());
    assert_eq!(r.into_option(), None);
}

#[test]
fn option_filter_combinators() {
    let even = |v: &u32| Choice::from_u8(if *v % 2 == 0 { 1 } else { 0 });
    assert_eq!(CtOption::some(4u32).filter(even).is_some().to_u8(), 1);
    assert_eq!(CtOption::some(5u32).filter(even).is_some().to_u8(), 0);
    assert_eq!(CtOption::<u32>::none().filter(even).is_some().to_u8(), 0);

    let opt = CtOption::some(4u32);
    assert_eq!(opt.filter_by(Choice::from_u8(1)).is_some().to_u8(), 1);
    let opt = CtOption::some(4u32);
    assert_eq!(opt.filter_by(Choice::from_u8(0)).is_some().to_u8(), 0);
}

#[test]
fn option_map_preserves_validity() {
    for bit in 0..=1u8 {
        let flag = Choice::from_u8(bit);
        let mapped = CtOption::new(6u32, flag).map(|v| v * 2);
        assert_eq!(mapped.is_some().to_u8(), flag.to_u8());
        assert_eq!(mapped.to_value(), 12);
    }
}

#[test]
fn option_zip_concrete_scenario() {
    let r = CtOption::some(42u32).zip(CtOption::<u8>::none());
    assert_eq!(r.is_some().to_u8(), 0);

    let r = CtOption::some(42u32).zip(CtOption::some(7u8));
    assert_eq!(r.is_some().to_u8(), 1);
    assert_eq!(r.to_value(), (42, 7));
}

#[test]
fn option_zip_with_combinator() {
    let r = CtOption::some(40u32).zip_with(CtOption::some(2u32), |a, b| a + b);
    assert_eq!(r.into_option(), Some(42));

    let r = CtOption::some(40u32).zip_with(CtOption::<u32>::none(), |a, b| a + b);
    assert_eq!(r.into_option(), None);
}

#[test]
fn option_expect_family() {
    let opt = CtOption::some(11u32);
    assert_eq!(*opt.expect_ref("present"), 11);
    assert_eq!(opt.expect_copied("present"), 11);
    assert_eq!(opt.expect("present"), 11);
}

#[test]
fn option_ok_or_family() {
    assert_eq!(CtOption::some(3u32).ok_or("gone"), Ok(3));
    assert_eq!(CtOption::<u32>::none().ok_or("gone"), Err("gone"));
    assert_eq!(CtOption::some(3u32).ok_or_else(|| "gone"), Ok(3));
    assert_eq!(CtOption::<u32>::none().ok_or_else(|| "gone"), Err("gone"));
}

#[test]
fn option_as_ref_and_default() {
    let opt = CtOption::some(5u64);
    let r = opt.as_ref();
    assert_eq!(r.is_some().to_u8(), 1);
    assert_eq!(**r.to_ref(), 5);

    let d: CtOption<u64> = Default::default();
    assert_eq!(d.is_some().to_u8(), 0);
}

#[test]
fn option_as_mut() {
    let mut opt = CtOption::some(5u64);
    *opt.as_mut().expect("valid") = 9;
    assert_eq!(opt.to_value(), 9);
    assert_eq!(opt.is_some().to_u8(), 1);
}

#[test]
fn limb_word_algebra() {
    let a = Limb(0xff00_ff00_ff00_ff00);
    let b = Limb(0x0ff0_0ff0_0ff0_0ff0);
    assert_eq!(a.bitand(b).0, 0x0f00_0f00_0f00_0f00);
    assert_eq!(a.bitor(b).0, 0xfff0_fff0_fff0_fff0);
    assert_eq!(a.bitxor(b).0, 0xf0f0_f0f0_f0f0_f0f0);
    assert_eq!(a.not().0, 0x00ff_00ff_00ff_00ff);
}

#[test]
fn subtle_flag_adapter_roundtrip() {
    for bit in 0..=1u8 {
        let ours = Choice::from_subtle(subtle::Choice::from(bit));
        assert_eq!(ours.to_u8(), bit);
        let theirs = Choice::from_u8(bit).into_subtle();
        assert_eq!(theirs.unwrap_u8(), bit);
    }
}

#[test]
fn subtle_option_adapter() {
    let theirs = CtOption::some(27u32).into_subtle();
    assert_eq!(theirs.is_some().unwrap_u8(), 1);
    assert_eq!(theirs.unwrap(), 27);

    let theirs = CtOption::<u32>::none().into_subtle();
    assert_eq!(theirs.is_some().unwrap_u8(), 0);
}
