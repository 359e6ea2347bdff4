use vstd::prelude::*;

use crate::operations::{Signer, TokenOperation};
use crate::pubkey::Pubkey;
use crate::schedule::{lemma_vested_bounded, vested_amount, vested_of};
use crate::state::VestingAccount;

verus! {

/// What a claim reads: the signing beneficiary, the vesting record, and the
/// vault accounts the tokens move between.
#[derive(Clone, Copy, Debug, PartialEq, Eq)]
pub struct ClaimVestedTokens {
    /// The key of the account that signed the claim.
    pub beneficiary: Pubkey,
    /// The vesting record, as stored before the claim.
    pub vesting_account: VestingAccount,
    /// The program-derived authority of the vesting vault.
    pub vault_authority: Pubkey,
    /// The bump seed of `vault_authority`.
    pub vault_authority_bump: u8,
    /// The vault that holds the locked tokens.
    pub vesting_vault: Pubkey,
    /// The beneficiary's token account for the vested mint.
    pub beneficiary_token_account: Pubkey,
}

/// Why a claim is refused.
#[derive(Clone, Copy, Debug, PartialEq, Eq, Structural)]
pub enum ClaimRefusal {
    /// The signer is not the record's beneficiary.
    BeneficiaryNotFound,
    /// More is recorded as released than has vested.
    AmountCalculationError,
    /// Nothing new has vested since the last claim.
    NothingToClaim,
}

/// The outcome of a claim at `now` by `signer` on `account`: the amount to
/// transfer, or why the claim is refused (checked in this order).
pub open spec fn claim_outcome(account: VestingAccount, signer: Pubkey, now: i64) -> Result<
    u64,
    ClaimRefusal,
> {
    let vested = vested_of(account, now);
    if account.beneficiary@ != signer@ {
        Err(ClaimRefusal::BeneficiaryNotFound)
    } else if account.released_amount > vested {
        Err(ClaimRefusal::AmountCalculationError)
    } else if account.released_amount == vested {
        Err(ClaimRefusal::NothingToClaim)
    } else {
        Ok((vested - account.released_amount) as u64)
    }
}

/// The transfer of `amount` from the vesting vault to the beneficiary,
/// signed by the vault authority.
pub open spec fn claim_transfer(ctx: ClaimVestedTokens, amount: u64) -> TokenOperation {
    TokenOperation::Transfer {
        from: ctx.vesting_vault,
        to: ctx.beneficiary_token_account,
        authority: ctx.vault_authority,
        amount: amount,
        signer: Signer::VaultAuthority {
            beneficiary: ctx.vesting_account.beneficiary,
            mint: ctx.vesting_account.mint,
            bump: ctx.vault_authority_bump,
        },
    }
}

/// The claim context after `amount` more has been released.
pub open spec fn after_release(ctx: ClaimVestedTokens, amount: u64) -> ClaimVestedTokens {
    ClaimVestedTokens {
        vesting_account: VestingAccount {
            released_amount: (ctx.vesting_account.released_amount + amount) as u64,
            ..ctx.vesting_account
        },
        ..ctx
    }
}

/// Decides a claim at `current_timestamp`: on success, records the newly
/// vested amount as released and returns the transfer that pays it out.
pub fn claim(ctx: &mut ClaimVestedTokens, current_timestamp: i64) -> (r: Result<
    TokenOperation,
    ClaimRefusal,
>)
    ensures
        match claim_outcome(old(ctx).vesting_account, old(ctx).beneficiary, current_timestamp) {
            Ok(amount) => r == Ok::<TokenOperation, ClaimRefusal>(claim_transfer(*old(ctx), amount))
                && *final(ctx) == after_release(*old(ctx), amount),
            Err(e) => r == Err::<TokenOperation, ClaimRefusal>(e) && *final(ctx) == *old(ctx),
        },
{
    if ctx.vesting_account.beneficiary != ctx.beneficiary {
        return Err(ClaimRefusal::BeneficiaryNotFound);
    }
    let vested = vested_amount(&ctx.vesting_account, current_timestamp);
    let claimable = match vested.checked_sub(ctx.vesting_account.released_amount) {
        Some(c) => c,
        None => {
            return Err(ClaimRefusal::AmountCalculationError);
        },
    };
    if claimable == 0 {
        return Err(ClaimRefusal::NothingToClaim);
    }
    let op = TokenOperation::Transfer {
        from: ctx.vesting_vault,
        to: ctx.beneficiary_token_account,
        authority: ctx.vault_authority,
        amount: claimable,
        signer: Signer::VaultAuthority {
            beneficiary: ctx.vesting_account.beneficiary,
            mint: ctx.vesting_account.mint,
            bump: ctx.vault_authority_bump,
        },
    };
    let released = match ctx.vesting_account.released_amount.checked_add(claimable) {
        Some(v) => v,
        None => {
            return Err(ClaimRefusal::AmountCalculationError);
        },
    };
    ctx.vesting_account.released_amount = released;
    Ok(op)
}

/// A successful claim pays out a positive amount and afterwards the record
/// counts exactly the vested amount as released.
pub proof fn lemma_claim_releases_vested(account: VestingAccount, signer: Pubkey, now: i64)
    ensures
        claim_outcome(account, signer, now) matches Ok(amount) ==> amount > 0
            && account.released_amount + amount == vested_of(account, now),
{
    lemma_vested_bounded(account.total_amount, account.start_time, account.duration, now);
}

/// A claim never records more as released than the schedule's total, so a
/// well-formed record stays well-formed.
pub proof fn lemma_claim_preserves_wf(ctx: ClaimVestedTokens, now: i64)
    requires
        ctx.vesting_account.wf(),
    ensures
        claim_outcome(ctx.vesting_account, ctx.beneficiary, now) matches Ok(amount)
            ==> after_release(ctx, amount).vesting_account.wf(),
{
    lemma_vested_bounded(
        ctx.vesting_account.total_amount,
        ctx.vesting_account.start_time,
        ctx.vesting_account.duration,
        now,
    );
}

/// After a successful claim, claiming again at the same time finds nothing
/// to claim.
pub proof fn lemma_claim_twice_same_time(ctx: ClaimVestedTokens, now: i64)
    ensures
        claim_outcome(ctx.vesting_account, ctx.beneficiary, now) matches Ok(amount)
            ==> claim_outcome(after_release(ctx, amount).vesting_account, ctx.beneficiary, now)
            == Err::<u64, ClaimRefusal>(ClaimRefusal::NothingToClaim),
{
    let a = ctx.vesting_account;
    lemma_vested_bounded(a.total_amount, a.start_time, a.duration, now);
}

/// Two successful claims at times `t1` and then `t2` pay out together
/// exactly what vested by `t2`, less what had been released before.
pub proof fn lemma_claims_add_up(ctx: ClaimVestedTokens, t1: i64, t2: i64)
    ensures
        claim_outcome(ctx.vesting_account, ctx.beneficiary, t1) matches Ok(a1) ==> (claim_outcome(
            after_release(ctx, a1).vesting_account,
            ctx.beneficiary,
            t2,
        ) matches Ok(a2) ==> ctx.vesting_account.released_amount + a1 + a2 == vested_of(
            ctx.vesting_account,
            t2,
        )),
{
    let a = ctx.vesting_account;
    lemma_vested_bounded(a.total_amount, a.start_time, a.duration, t1);
    lemma_vested_bounded(a.total_amount, a.start_time, a.duration, t2);
}

/// A signer other than the beneficiary is refused.
pub proof fn lemma_claim_only_beneficiary(account: VestingAccount, signer: Pubkey, now: i64)
    requires
        account.beneficiary@ != signer@,
    ensures
        claim_outcome(account, signer, now) == Err::<u64, ClaimRefusal>(
            ClaimRefusal::BeneficiaryNotFound,
        ),
{
}

/// Whenever the beneficiary signs and more has vested than was released,
/// the claim succeeds and pays exactly the difference, however small.
pub proof fn lemma_claim_pays_any_vested_surplus(account: VestingAccount, signer: Pubkey, now: i64)
    requires
        account.beneficiary@ == signer@,
        account.released_amount < vested_of(account, now),
    ensures
        claim_outcome(account, signer, now) == Ok::<u64, ClaimRefusal>(
            (vested_of(account, now) - account.released_amount) as u64,
        ),
        0 < vested_of(account, now) - account.released_amount <= u64::MAX,
{
    lemma_vested_bounded(account.total_amount, account.start_time, account.duration, now);
}

/// Each refusal happens only in its own situation: a foreign signer; more
/// released than vested; or nothing vested beyond what was released. A
/// successful claim always has the beneficiary as signer.
pub proof fn lemma_claim_refusal_reasons(account: VestingAccount, signer: Pubkey, now: i64)
    ensures
        claim_outcome(account, signer, now) == Err::<u64, ClaimRefusal>(
            ClaimRefusal::BeneficiaryNotFound,
        ) <==> account.beneficiary@ != signer@,
        claim_outcome(account, signer, now) == Err::<u64, ClaimRefusal>(
            ClaimRefusal::AmountCalculationError,
        ) <==> (account.beneficiary@ == signer@ && account.released_amount > vested_of(
            account,
            now,
        )),
        claim_outcome(account, signer, now) == Err::<u64, ClaimRefusal>(
            ClaimRefusal::NothingToClaim,
        ) <==> (account.beneficiary@ == signer@ && account.released_amount == vested_of(
            account,
            now,
        )),
        claim_outcome(account, signer, now) is Ok ==> account.beneficiary@ == signer@,
{
    lemma_vested_bounded(account.total_amount, account.start_time, account.duration, now);
}

/// The claim's transfer moves exactly `amount` from the vesting vault to the
/// beneficiary's token account, signed by the vault authority derived from
/// the record's beneficiary and mint with the context's bump.
pub proof fn lemma_claim_transfer_route(ctx: ClaimVestedTokens, amount: u64)
    ensures
        claim_transfer(ctx, amount) matches TokenOperation::Transfer {
            from,
            to,
            authority,
            amount: paid,
            signer,
        } && from == ctx.vesting_vault && to == ctx.beneficiary_token_account && authority
            == ctx.vault_authority && paid == amount && signer == (Signer::VaultAuthority {
            beneficiary: ctx.vesting_account.beneficiary,
            mint: ctx.vesting_account.mint,
            bump: ctx.vault_authority_bump,
        }),
{
}

/// A successful claim changes nothing but the released amount, which grows
/// by exactly the amount paid.
pub proof fn lemma_claim_changes_only_released(ctx: ClaimVestedTokens, now: i64)
    ensures
        claim_outcome(ctx.vesting_account, ctx.beneficiary, now) matches Ok(amount) ==> {
            let after = after_release(ctx, amount);
            &&& after.vesting_account.released_amount == ctx.vesting_account.released_amount
                + amount
            &&& after.vesting_account.beneficiary == ctx.vesting_account.beneficiary
            &&& after.vesting_account.mint == ctx.vesting_account.mint
            &&& after.vesting_account.token_account == ctx.vesting_account.token_account
            &&& after.vesting_account.total_amount == ctx.vesting_account.total_amount
            &&& after.vesting_account.start_time == ctx.vesting_account.start_time
            &&& after.vesting_account.duration == ctx.vesting_account.duration
            &&& after.vesting_account.tge_amount == ctx.vesting_account.tge_amount
            &&& after.beneficiary == ctx.beneficiary
            &&& after.vault_authority == ctx.vault_authority
            &&& after.vault_authority_bump == ctx.vault_authority_bump
            &&& after.vesting_vault == ctx.vesting_vault
            &&& after.beneficiary_token_account == ctx.beneficiary_token_account
        },
{
    let a = ctx.vesting_account;
    lemma_vested_bounded(a.total_amount, a.start_time, a.duration, now);
}

} // verus!
