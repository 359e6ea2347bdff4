use vstd::prelude::*;

use crate::state::VestingAccount;

verus! {

/// Seconds elapsed since `start`, as the program counts them: the signed
/// difference, or 0 where that difference does not fit in an `i64`.
pub open spec fn elapsed_spec(now: i64, start: i64) -> int {
    let d = now - start;
    if i64::MIN <= d <= i64::MAX {
        d
    } else {
        0
    }
}

/// The duration read as an `i64`, as a cast does: values above `i64::MAX`
/// wrap to negative numbers.
pub open spec fn signed_duration(duration: u64) -> int {
    if duration <= i64::MAX {
        duration as int
    } else {
        duration - 0x1_0000_0000_0000_0000
    }
}

/// The amount of a linear schedule vested at time `now`: nothing before the
/// start or for a zero duration, everything once the duration has passed,
/// and the proportional share (rounded down) in between.
pub open spec fn vested_amount_spec(total: u64, start: i64, duration: u64, now: i64) -> int {
    let e = elapsed_spec(now, start);
    if e <= 0 || duration == 0 {
        0
    } else if e >= signed_duration(duration) {
        total as int
    } else {
        total * e / duration as int
    }
}

/// The amount of the account's schedule vested at `now`.
pub open spec fn vested_of(account: VestingAccount, now: i64) -> int {
    vested_amount_spec(account.total_amount, account.start_time, account.duration, now)
}

/// The proportional share `total * e / d` stays below `total` while `e < d`.
proof fn lemma_share_below_total(total: int, e: int, d: int)
    requires
        0 <= total,
        0 < e < d,
    ensures
        0 <= total * e / d <= total,
        total > 0 ==> total * e / d < total,
{
    assert(0 <= total * e) by (nonlinear_arith)
        requires
            0 <= total,
            0 < e,
    ;
    assert(total * e <= total * d) by (nonlinear_arith)
        requires
            0 <= total,
            e < d,
    ;
    vstd::arithmetic::div_mod::lemma_div_pos_is_pos(total * e, d);
    if total > 0 {
        assert(total * e < d * total) by (nonlinear_arith)
            requires
                0 < total,
                e < d,
        ;
        vstd::arithmetic::div_mod::lemma_multiply_divide_lt(total * e, d, total);
    } else {
        assert(total * e == 0);
    }
}

/// The vested amount is never negative and never more than the total.
pub proof fn lemma_vested_bounded(total: u64, start: i64, duration: u64, now: i64)
    ensures
        0 <= vested_amount_spec(total, start, duration, now) <= total,
{
    let e = elapsed_spec(now, start);
    if !(e <= 0 || duration == 0) && e < signed_duration(duration) {
        lemma_share_below_total(total as int, e, duration as int);
    }
}

/// Computes how much of the account's schedule has vested at
/// `current_timestamp`.
pub fn vested_amount(account: &VestingAccount, current_timestamp: i64) -> (v: u64)
    ensures
        v == vested_of(*account, current_timestamp),
{
    let elapsed_time: i64 = match current_timestamp.checked_sub(account.start_time) {
        Some(e) => e,
        None => 0,
    };
    if elapsed_time <= 0 || account.duration == 0 {
        0
    } else if account.duration > 0x7fff_ffff_ffff_ffff || elapsed_time as u64 >= account.duration {
        // A duration above i64::MAX reads as a negative i64, which every
        // positive elapsed time exceeds.
        account.total_amount
    } else {
        let total: u128 = account.total_amount as u128;
        let e: u128 = elapsed_time as u128;
        assert(total * e <= 0xffff_ffff_ffff_ffff * 0x7fff_ffff_ffff_ffff) by (nonlinear_arith)
            requires
                total <= 0xffff_ffff_ffff_ffff,
                e <= 0x7fff_ffff_ffff_ffff,
        ;
        let share: u128 = total * e / (account.duration as u128);
        proof {
            lemma_share_below_total(total as int, e as int, account.duration as int);
        }
        share as u64
    }
}

/// Before the start (or with a zero duration) nothing has vested.
pub proof fn lemma_nothing_vested_before_start(total: u64, start: i64, duration: u64, now: i64)
    requires
        now <= start || duration == 0,
    ensures
        vested_amount_spec(total, start, duration, now) == 0,
{
}

/// Once the whole duration has passed, everything has vested.
pub proof fn lemma_all_vested_after_end(total: u64, start: i64, duration: u64, now: i64)
    requires
        0 < duration <= i64::MAX,
        start + duration <= now,
        now - start <= i64::MAX,
    ensures
        vested_amount_spec(total, start, duration, now) == total,
{
}

/// Vesting never goes backwards: a later time has at least as much vested,
/// as long as neither elapsed time overflows an `i64`.
pub proof fn lemma_vested_monotone(total: u64, start: i64, duration: u64, t1: i64, t2: i64)
    requires
        t1 <= t2,
        i64::MIN <= t1 - start,
        t2 - start <= i64::MAX,
    ensures
        vested_amount_spec(total, start, duration, t1) <= vested_amount_spec(
            total,
            start,
            duration,
            t2,
        ),
{
    let e1 = elapsed_spec(t1, start);
    let e2 = elapsed_spec(t2, start);
    assert(e1 == t1 - start && e2 == t2 - start);
    lemma_vested_bounded(total, start, duration, t1);
    lemma_vested_bounded(total, start, duration, t2);
    if e1 > 0 && duration != 0 && e2 < signed_duration(duration) {
        let d = duration as int;
        assert(total * e1 <= total * e2) by (nonlinear_arith)
            requires
                0 <= total,
                e1 <= e2,
        ;
        vstd::arithmetic::div_mod::lemma_div_is_ordered(total * e1, total * e2, d);
    }
}

/// Strictly between the start and the end of a schedule, the vested amount
/// is the total times the elapsed seconds over the duration, rounded down.
pub proof fn lemma_vested_linear(total: u64, start: i64, duration: u64, now: i64)
    requires
        duration <= i64::MAX,
        start < now,
        now - start < duration,
    ensures
        vested_amount_spec(total, start, duration, now) == total * (now - start) / (
        duration as int),
{
}

/// What a record has vested at `now`, in terms of its fields: nothing up to
/// its start (or with a zero duration), everything once its duration has
/// passed, and `total * elapsed / duration` (rounded down) in between.
pub proof fn lemma_vested_of_account(account: VestingAccount, now: i64)
    ensures
        (now <= account.start_time || account.duration == 0) ==> vested_of(account, now) == 0,
        (0 < account.duration <= i64::MAX && account.start_time < now && now - account.start_time
            < account.duration) ==> vested_of(account, now) == account.total_amount * (now
            - account.start_time) / (account.duration as int),
        (0 < account.duration <= i64::MAX && account.start_time + account.duration <= now && now
            - account.start_time <= i64::MAX) ==> vested_of(account, now) == account.total_amount,
{
}

} // verus!
