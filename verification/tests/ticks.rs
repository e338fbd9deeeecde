use hil_time::{Ticks, Ticks16, Ticks24, Ticks32, Ticks64};

fn t16(value: u16) -> Ticks16 {
    Ticks16::from(value)
}

fn t24(value: u32) -> Ticks24 {
    Ticks24::from(value)
}

fn t32(value: u32) -> Ticks32 {
    Ticks32::from(value)
}

fn t64(value: u64) -> Ticks64 {
    Ticks64::from(value)
}

#[test]
fn max_value_is_all_ones() {
    assert_eq!(Ticks16::max_value().into_u16(), 0xFFFF);
    assert_eq!(Ticks24::max_value().into_u32(), 0x00FF_FFFF);
    assert_eq!(Ticks32::max_value().into_u32(), 0xFFFF_FFFF);
    assert_eq!(Ticks64::max_value().into_u64(), 0xFFFF_FFFF_FFFF_FFFF);
}

#[test]
fn max_plus_one_is_zero() {
    assert_eq!(Ticks16::max_value().wrapping_add(t16(1)).into_u16(), 0);
    assert_eq!(Ticks24::max_value().wrapping_add(t24(1)).into_u32(), 0);
    assert_eq!(Ticks32::max_value().wrapping_add(t32(1)).into_u32(), 0);
    assert_eq!(Ticks64::max_value().wrapping_add(t64(1)).into_u64(), 0);
}

#[test]
fn zero_minus_one_is_max() {
    assert_eq!(t16(0).wrapping_sub(t16(1)), Ticks16::max_value());
    assert_eq!(t24(0).wrapping_sub(t24(1)), Ticks24::max_value());
    assert_eq!(t32(0).wrapping_sub(t32(1)), Ticks32::max_value());
    assert_eq!(t64(0).wrapping_sub(t64(1)), Ticks64::max_value());
}

#[test]
fn wrapping_add_exact_values() {
    assert_eq!(t16(5).wrapping_add(t16(0xFFFF)).into_u16(), 4);
    assert_eq!(t16(0x8000).wrapping_add(t16(0x8000)).into_u16(), 0);
    assert_eq!(t24(0x00FF_FFF0).wrapping_add(t24(0x20)).into_u32(), 0x10);
    assert_eq!(t24(0x0080_0000).wrapping_add(t24(0x0080_0001)).into_u32(), 1);
    assert_eq!(t32(0xFFFF_FFF0).wrapping_add(t32(0x20)).into_u32(), 0x10);
    assert_eq!(t64(0xFFFF_FFFF_FFFF_FFF0).wrapping_add(t64(0x20)).into_u64(), 0x10);
    assert_eq!(t32(3).wrapping_add(t32(4)).into_u32(), 7);
}

#[test]
fn wrapping_sub_exact_values() {
    assert_eq!(t16(5).wrapping_sub(t16(0xFFFF)).into_u16(), 6);
    assert_eq!(t24(0x10).wrapping_sub(t24(0x20)).into_u32(), 0x00FF_FFF0);
    assert_eq!(t32(0x10).wrapping_sub(t32(0x20)).into_u32(), 0xFFFF_FFF0);
    assert_eq!(t64(0x10).wrapping_sub(t64(0x20)).into_u64(), 0xFFFF_FFFF_FFFF_FFF0);
    assert_eq!(t24(9).wrapping_sub(t24(4)).into_u32(), 5);
}

#[test]
fn add_and_sub_are_inverses_16() {
    let samples = [0u16, 1, 2, 0x7FFF, 0x8000, 0xFFFE, 0xFFFF, 1234, 54321];
    for a in samples {
        for b in samples {
            assert_eq!(t16(a).wrapping_add(t16(b)).wrapping_sub(t16(b)), t16(a));
            assert_eq!(t16(a).wrapping_sub(t16(b)).wrapping_add(t16(b)), t16(a));
        }
    }
}

#[test]
fn add_and_sub_are_inverses_24() {
    let samples = [0u32, 1, 0x007F_FFFF, 0x0080_0000, 0x00FF_FFFE, 0x00FF_FFFF, 77_777];
    for a in samples {
        for b in samples {
            assert_eq!(t24(a).wrapping_add(t24(b)).wrapping_sub(t24(b)), t24(a));
            assert_eq!(t24(a).wrapping_sub(t24(b)).wrapping_add(t24(b)), t24(a));
        }
    }
}

#[test]
fn add_and_sub_are_inverses_32_and_64() {
    let samples = [0u32, 1, 0x7FFF_FFFF, 0x8000_0000, 0xFFFF_FFFE, 0xFFFF_FFFF, 99];
    for a in samples {
        for b in samples {
            assert_eq!(t32(a).wrapping_add(t32(b)).wrapping_sub(t32(b)), t32(a));
            assert_eq!(t32(a).wrapping_sub(t32(b)).wrapping_add(t32(b)), t32(a));
            let wide_a = (a as u64) << 32 | b as u64;
            let wide_b = (b as u64) << 32 | a as u64;
            assert_eq!(t64(wide_a).wrapping_add(t64(wide_b)).wrapping_sub(t64(wide_b)), t64(wide_a));
            assert_eq!(t64(wide_a).wrapping_sub(t64(wide_b)).wrapping_add(t64(wide_b)), t64(wide_a));
        }
    }
}

#[test]
fn within_range_plain_window() {
    assert!(t32(10).within_range(t32(10), t32(20)));
    assert!(t32(19).within_range(t32(10), t32(20)));
    assert!(!t32(20).within_range(t32(10), t32(20)));
    assert!(!t32(9).within_range(t32(10), t32(20)));
    assert!(!t32(0xFFFF_FFFF).within_range(t32(10), t32(20)));
}

#[test]
fn within_range_window_across_zero() {
    assert!(t16(0xFFF0).within_range(t16(0xFFF0), t16(0x0010)));
    assert!(t16(0xFFFF).within_range(t16(0xFFF0), t16(0x0010)));
    assert!(t16(0).within_range(t16(0xFFF0), t16(0x0010)));
    assert!(t16(0x000F).within_range(t16(0xFFF0), t16(0x0010)));
    assert!(!t16(0x0010).within_range(t16(0xFFF0), t16(0x0010)));
    assert!(!t16(0xFFEF).within_range(t16(0xFFF0), t16(0x0010)));
    assert!(!t16(0x8000).within_range(t16(0xFFF0), t16(0x0010)));

    assert!(t24(2).within_range(t24(0x00FF_FFF0), t24(0x10)));
    assert!(!t24(0x10).within_range(t24(0x00FF_FFF0), t24(0x10)));
    assert!(!t24(0x00FF_FFEF).within_range(t24(0x00FF_FFF0), t24(0x10)));

    assert!(t32(2).within_range(t32(0xFFFF_FFF0), t32(0x10)));
    assert!(!t32(0x10).within_range(t32(0xFFFF_FFF0), t32(0x10)));

    assert!(t64(2).within_range(t64(0xFFFF_FFFF_FFFF_FFF0), t64(0x10)));
    assert!(!t64(0x10).within_range(t64(0xFFFF_FFFF_FFFF_FFF0), t64(0x10)));
}

#[test]
fn within_range_empty_window_holds_nothing() {
    for value in [0u16, 1, 41, 42, 43, 0xFFFF] {
        assert!(!t16(value).within_range(t16(42), t16(42)));
    }
}

#[test]
fn within_range_matches_modular_distance() {
    let samples = [0u16, 1, 2, 0x00FF, 0x7FFF, 0x8000, 0x8001, 0xFFF0, 0xFFFE, 0xFFFF];
    for value in samples {
        for start in samples {
            for end in samples {
                let expected = value.wrapping_sub(start) < end.wrapping_sub(start);
                assert_eq!(t16(value).within_range(t16(start), t16(end)), expected);
            }
        }
    }
}

#[test]
fn within_range_matches_modular_distance_24() {
    let modulus: u32 = 0x0100_0000;
    let samples = [0u32, 1, 0x007F_FFFF, 0x0080_0000, 0x00FF_FFF0, 0x00FF_FFFF];
    for value in samples {
        for start in samples {
            for end in samples {
                let expected =
                    (value + modulus - start) % modulus < (end + modulus - start) % modulus;
                assert_eq!(t24(value).within_range(t24(start), t24(end)), expected);
            }
        }
    }
}

#[test]
fn from_u32_keeps_the_low_bits() {
    assert_eq!(Ticks16::from(0x0012_3456u32).into_u16(), 0x3456);
    assert_eq!(Ticks24::from(0x1234_5678u32).into_u32(), 0x0034_5678);
    assert_eq!(Ticks32::from(0x1234_5678u32).into_u32(), 0x1234_5678);
    assert_eq!(Ticks64::from(0x1234_5678u32).into_u64(), 0x1234_5678);
}

#[test]
fn ticks24_stays_in_range() {
    let high = Ticks24::from(0xFFFF_FFFFu32);
    assert_eq!(high, Ticks24::max_value());
    assert_eq!(high.wrapping_add(t24(2)).into_u32(), 1);
    assert_eq!(high.wrapping_add(high).into_u32(), 0x00FF_FFFE);
}

#[test]
fn into_u32_and_into_usize() {
    assert_eq!(t16(0xABCD).into_u32(), 0xABCD);
    assert_eq!(t16(0xABCD).into_usize(), 0xABCD);
    assert_eq!(t24(0x00AB_CDEF).into_u32(), 0x00AB_CDEF);
    assert_eq!(t24(0x00AB_CDEF).into_usize(), 0x00AB_CDEF);
    assert_eq!(t32(0xABCD_EF01).into_u32(), 0xABCD_EF01);
    assert_eq!(t32(0xABCD_EF01).into_usize(), 0xABCD_EF01);
    assert_eq!(t64(0x0123_4567_89AB_CDEF).into_u32(), 0x89AB_CDEF);
    assert_eq!(t64(0x0123_4567_89AB_CDEF).into_usize(), 0x0123_4567_89AB_CDEF_u64 as usize);
}

#[test]
fn into_u16_and_into_u64() {
    assert_eq!(t16(0).into_u16(), 0);
    assert_eq!(t16(0xBEEF).into_u16(), 0xBEEF);
    assert_eq!(t64(0).into_u64(), 0);
    assert_eq!(t64(0xDEAD_BEEF_0000_0001).into_u64(), 0xDEAD_BEEF_0000_0001);
}

#[test]
fn from_or_max_saturates() {
    assert_eq!(Ticks16::from_or_max(0xFFFF).into_u16(), 0xFFFF);
    assert_eq!(Ticks16::from_or_max(0x1_0000).into_u16(), 0xFFFF);
    assert_eq!(Ticks16::from_or_max(0x1_4240).into_u16(), 0xFFFF);
    assert_eq!(Ticks16::from_or_max(17).into_u16(), 17);
    assert_eq!(Ticks24::from_or_max(0x00FF_FFFF).into_u32(), 0x00FF_FFFF);
    assert_eq!(Ticks24::from_or_max(0x0100_0000).into_u32(), 0x00FF_FFFF);
    assert_eq!(Ticks32::from_or_max(0xFFFF_FFFF).into_u32(), 0xFFFF_FFFF);
    assert_eq!(Ticks32::from_or_max(0x1_0000_0000).into_u32(), 0xFFFF_FFFF);
    assert_eq!(Ticks64::from_or_max(0x1_0000_0000).into_u64(), 0x1_0000_0000);
    assert_eq!(Ticks64::from_or_max(u64::MAX).into_u64(), u64::MAX);
}

#[test]
fn equality_is_by_reading() {
    assert_eq!(t16(7), t16(7));
    assert_ne!(t16(7), t16(8));
    assert_eq!(Ticks24::from(0x0100_0007u32), t24(7));
    assert_ne!(t32(0), t32(0xFFFF_FFFF));
    assert_eq!(t64(1 << 40), t64(1 << 40));
}

#[test]
fn order_is_by_magnitude() {
    assert!(t16(1) < t16(2));
    assert!(t16(0xFFFF) > t16(0));
    assert!(t24(0x00FF_FFFF) > t24(0x0080_0000));
    assert!(t32(5) <= t32(5));
    assert!(t64(1 << 40) > t64(u32::MAX as u64));
    assert_eq!(t16(3).partial_cmp(&t16(4)), Some(std::cmp::Ordering::Less));
    assert_eq!(t16(4).partial_cmp(&t16(4)), Some(std::cmp::Ordering::Equal));
    assert_eq!(t16(5).partial_cmp(&t16(4)), Some(std::cmp::Ordering::Greater));
    assert_eq!(t24(5).cmp(&t24(4)), std::cmp::Ordering::Greater);
    assert_eq!(t32(3).max(t32(9)), t32(9));
    assert_eq!(t64(3).min(t64(9)), t64(3));
}

#[test]
fn magnitude_is_not_temporal_order() {
    // Just after a wrap the later reading is the smaller one; only the window test sees that
    // 0x0002 comes after 0xFFFE.
    let before = t16(0xFFFE);
    let after = t16(0x0002);
    assert!(after < before);
    assert!(after.within_range(before, before.wrapping_add(t16(0x10))));
}

#[test]
fn ticks_are_copy_and_debug() {
    let a = t32(5);
    let b = a;
    assert_eq!(a, b);
    assert_eq!(format!("{:?}", a), "Ticks32(5)");
    assert_eq!(format!("{:?}", t16(9)), "Ticks16(9)");
    assert_eq!(format!("{:?}", t24(9)), "Ticks24(9)");
    assert_eq!(format!("{:?}", t64(9)), "Ticks64(9)");
}
