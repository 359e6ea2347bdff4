use mint_spl_token::pubkey::Pubkey;
use mint_spl_token::schedule::vested_amount;
use mint_spl_token::state::VestingAccount;

fn account(total: u64, start: i64, duration: u64) -> VestingAccount {
    VestingAccount {
        beneficiary: Pubkey([1u8; 32]),
        mint: Pubkey([2u8; 32]),
        token_account: Pubkey([3u8; 32]),
        total_amount: total,
        start_time: start,
        duration,
        released_amount: 0,
        tge_amount: 0,
    }
}

#[test]
fn nothing_vested_before_or_at_start() {
    let a = account(1000, 100, 1000);
    assert_eq!(vested_amount(&a, 50), 0);
    assert_eq!(vested_amount(&a, 100), 0);
    assert_eq!(vested_amount(&a, i64::MIN + 100), 0);
}

#[test]
fn vests_linearly() {
    let a = account(1000, 100, 1000);
    assert_eq!(vested_amount(&a, 101), 1);
    assert_eq!(vested_amount(&a, 599), 499);
    assert_eq!(vested_amount(&a, 600), 500);
    assert_eq!(vested_amount(&a, 1099), 999);
}

#[test]
fn everything_vested_after_end() {
    let a = account(1000, 100, 1000);
    assert_eq!(vested_amount(&a, 1100), 1000);
    assert_eq!(vested_amount(&a, 5000), 1000);
    assert_eq!(vested_amount(&a, i64::MAX), 1000);
}

#[test]
fn zero_duration_vests_nothing() {
    let a = account(1000, 100, 0);
    assert_eq!(vested_amount(&a, 100_000), 0);
}

#[test]
fn duration_above_i64_max_vests_at_once() {
    let a = account(1000, 100, u64::MAX);
    assert_eq!(vested_amount(&a, 101), 1000);
    assert_eq!(vested_amount(&a, 100), 0);
    let b = account(1000, 100, (i64::MAX as u64) + 1);
    assert_eq!(vested_amount(&b, 101), 1000);
}

#[test]
fn overflowing_elapsed_time_counts_as_zero() {
    let a = account(1000, i64::MIN, 10);
    assert_eq!(vested_amount(&a, i64::MAX), 0);
    let b = account(1000, -10, 10);
    assert_eq!(vested_amount(&b, -5), 500);
}

#[test]
fn large_totals_do_not_overflow() {
    let a = account(u64::MAX, 0, 4);
    assert_eq!(vested_amount(&a, 1), u64::MAX / 4);
    assert_eq!(vested_amount(&a, 3), (u64::MAX as u128 * 3 / 4) as u64);
}

#[test]
fn vested_amount_is_monotone_on_samples() {
    let a = account(777_777, 1_000, 12_345);
    let mut last = 0u64;
    let mut t = 0i64;
    while t < 20_000 {
        let v = vested_amount(&a, t);
        assert!(v >= last);
        assert!(v <= 777_777);
        last = v;
        t += 37;
    }
}
