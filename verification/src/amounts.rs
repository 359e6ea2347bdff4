use vstd::prelude::*;

verus! {

/// Ten to the power `n`.
pub open spec fn pow10(n: nat) -> nat
    decreases n,
{
    if n == 0 {
        1
    } else {
        10 * pow10((n - 1) as nat)
    }
}

/// `pow10` grows with its exponent.
pub proof fn lemma_pow10_monotone(a: nat, b: nat)
    requires
        a <= b,
    ensures
        1 <= pow10(a) <= pow10(b),
    decreases b,
{
    if b > 0 {
        if a < b {
            lemma_pow10_monotone(a, (b - 1) as nat);
        } else {
            lemma_pow10_monotone((a - 1) as nat, (b - 1) as nat);
        }
    }
}

/// Ten to the power 19 is the largest power of ten that fits in a `u64`.
pub proof fn lemma_pow10_u64_limit()
    ensures
        pow10(19) <= u64::MAX,
        pow10(20) > u64::MAX,
{
    reveal_with_fuel(pow10, 21);
}

/// Whether `amount` whole tokens, scaled by `10^decimals`, can be counted in
/// a `u64` (both the power of ten and the product must fit).
pub open spec fn native_amount_fits(amount: u64, decimals: u8) -> bool {
    &&& pow10(decimals as nat) <= u64::MAX
    &&& amount * pow10(decimals as nat) <= u64::MAX
}

/// The allocation, in the mint's smallest unit, of `total_amount` whole
/// tokens.
pub open spec fn native_total(total_amount: u64, decimals: u8) -> u64 {
    (total_amount * pow10(decimals as nat)) as u64
}

/// `10^decimals`, where it fits in a `u64`.
pub fn ten_pow(decimals: u8) -> (r: u64)
    requires
        pow10(decimals as nat) <= u64::MAX,
    ensures
        r == pow10(decimals as nat),
{
    let mut r: u64 = 1;
    let mut i: u8 = 0;
    while i < decimals
        invariant
            i <= decimals,
            r == pow10(i as nat),
            pow10(decimals as nat) <= u64::MAX,
        decreases decimals - i,
    {
        proof {
            lemma_pow10_monotone((i + 1) as nat, decimals as nat);
        }
        r = r * 10;
        i = i + 1;
    }
    r
}

/// A whole-token amount in the mint's smallest unit: `amount * 10^decimals`.
pub fn native_amount(amount: u64, decimals: u8) -> (r: u64)
    requires
        native_amount_fits(amount, decimals),
    ensures
        r == amount * pow10(decimals as nat),
{
    let p = ten_pow(decimals);
    amount * p
}

/// `native_amount` where it fits, `None` where the scaling overflows.
pub fn checked_native_amount(amount: u64, decimals: u8) -> (r: Option<u64>)
    ensures
        r is Some <==> native_amount_fits(amount, decimals),
        r matches Some(v) ==> v == amount * pow10(decimals as nat),
{
    proof {
        lemma_pow10_u64_limit();
    }
    if decimals > 19 {
        proof {
            lemma_pow10_monotone(20, decimals as nat);
        }
        return None;
    }
    proof {
        lemma_pow10_monotone(decimals as nat, 19);
    }
    let p = ten_pow(decimals);
    amount.checked_mul(p)
}

/// One more than `u64::MAX`: casting to `u64` keeps a value modulo this.
pub open spec fn u64_modulus() -> int {
    0x1_0000_0000_0000_0000
}

/// The amount released at the token generation event: `tge_percentage` basis
/// points (1% = 100 bps) of `total_native`, rounded down, then cut to 64
/// bits as a cast to `u64` does.
pub open spec fn tge_amount_spec(total_native: u64, tge_percentage: u16) -> int {
    (total_native * tge_percentage / 10000) % u64_modulus()
}

/// Computes the TGE share of an allocation (see `tge_amount_spec`).
pub fn tge_amount(total_native: u64, tge_percentage: u16) -> (r: u64)
    ensures
        r == tge_amount_spec(total_native, tge_percentage),
{
    let t: u128 = total_native as u128;
    let b: u128 = tge_percentage as u128;
    assert(t * b <= 0xffff_ffff_ffff_ffff * 0xffff) by (nonlinear_arith)
        requires
            t <= 0xffff_ffff_ffff_ffff,
            b <= 0xffff,
    ;
    let product: u128 = t * b;
    let share: u128 = product / 10000;
    (share % 0x1_0000_0000_0000_0000u128) as u64
}

/// How an allocation of `total_native` splits into the part released at
/// once and the part left to vest: `None` where the TGE share exceeds the
/// total (possible only above 10000 bps).
pub open spec fn allocation_spec(total_native: u64, tge_percentage: u16) -> Option<(u64, u64)> {
    let tge = tge_amount_spec(total_native, tge_percentage);
    if tge <= total_native {
        Some((tge as u64, (total_native - tge) as u64))
    } else {
        None
    }
}

/// Splits an allocation into its TGE part and its vesting part.
pub fn split_allocation(total_native: u64, tge_percentage: u16) -> (r: Option<(u64, u64)>)
    ensures
        r == allocation_spec(total_native, tge_percentage),
{
    let tge = tge_amount(total_native, tge_percentage);
    match total_native.checked_sub(tge) {
        Some(vesting) => Some((tge, vesting)),
        None => None,
    }
}

/// Up to 100% (10000 bps), the split never fails, the TGE part is the
/// rounded-down share with nothing cut off, and the two parts add up to the
/// whole allocation.
pub proof fn lemma_allocation_within_full_percentage(total_native: u64, tge_percentage: u16)
    requires
        tge_percentage <= 10000,
    ensures
        allocation_spec(total_native, tge_percentage) matches Some((tge, vesting)) && tge
            == total_native * tge_percentage / 10000 && tge + vesting == total_native,
{
    let share = total_native * tge_percentage / 10000;
    assert(0 <= share <= total_native) by (nonlinear_arith)
        requires
            share == total_native * tge_percentage / 10000,
            0 <= tge_percentage <= 10000,
            0 <= total_native,
    ;
    vstd::arithmetic::div_mod::lemma_small_mod(share as nat, u64_modulus() as nat);
}

/// Whenever the split succeeds, the two parts add up to the whole allocation.
pub proof fn lemma_allocation_conserves(total_native: u64, tge_percentage: u16)
    ensures
        allocation_spec(total_native, tge_percentage) matches Some((tge, vesting)) ==> tge
            + vesting == total_native,
{
}

} // verus!
