use mint_spl_token::amounts::{
    checked_native_amount, native_amount, split_allocation, tge_amount, ten_pow,
};

#[test]
fn ten_pow_values() {
    assert_eq!(ten_pow(0), 1);
    assert_eq!(ten_pow(1), 10);
    assert_eq!(ten_pow(9), 1_000_000_000);
    assert_eq!(ten_pow(19), 10_000_000_000_000_000_000);
}

#[test]
fn native_amount_scales_by_decimals() {
    assert_eq!(native_amount(5, 9), 5_000_000_000);
    assert_eq!(native_amount(0, 19), 0);
    assert_eq!(native_amount(1234, 0), 1234);
    assert_eq!(native_amount(1, 19), 10_000_000_000_000_000_000);
}

#[test]
fn checked_native_amount_detects_overflow() {
    assert_eq!(checked_native_amount(2, 9), Some(2_000_000_000));
    assert_eq!(checked_native_amount(0, 20), None);
    assert_eq!(checked_native_amount(1, 20), None);
    assert_eq!(checked_native_amount(u64::MAX, 1), None);
    assert_eq!(checked_native_amount(18_446_744_073, 9), Some(18_446_744_073_000_000_000));
    assert_eq!(checked_native_amount(18_446_744_074, 9), None);
    assert_eq!(checked_native_amount(u64::MAX, 0), Some(u64::MAX));
}

#[test]
fn tge_amount_is_rounded_down_basis_points() {
    assert_eq!(tge_amount(1_000_000, 2500), 250_000);
    assert_eq!(tge_amount(999, 3333), 332);
    assert_eq!(tge_amount(123_456_789, 777), 9_592_592);
    assert_eq!(tge_amount(1000, 0), 0);
    assert_eq!(tge_amount(1000, 10000), 1000);
    assert_eq!(tge_amount(9999, 1), 0);
}

#[test]
fn tge_amount_wraps_like_a_cast() {
    // (u64::MAX * 65535 / 10000) does not fit in 64 bits and is cut to them.
    assert_eq!(tge_amount(u64::MAX, 65535), 10_210_272_844_798_236_812);
}

#[test]
fn split_allocation_parts_add_up() {
    assert_eq!(split_allocation(1_000_000_000, 1000), Some((100_000_000, 900_000_000)));
    assert_eq!(split_allocation(1000, 10000), Some((1000, 0)));
    assert_eq!(split_allocation(1000, 0), Some((0, 1000)));
    assert_eq!(split_allocation(0, 65535), Some((0, 0)));
}

#[test]
fn split_allocation_refuses_share_above_total() {
    assert_eq!(split_allocation(1_000_000, 10001), None);
    assert_eq!(split_allocation(1000, 20000), None);
    // Rounding down keeps a share just above 100% within the total here.
    assert_eq!(split_allocation(1000, 10001), Some((1000, 0)));
}

#[test]
fn split_allocation_after_wrapping_share() {
    assert_eq!(
        split_allocation(u64::MAX, 65535),
        Some((10_210_272_844_798_236_812, 8_236_471_228_911_314_803))
    );
}
