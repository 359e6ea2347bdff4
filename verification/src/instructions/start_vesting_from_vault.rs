use vstd::prelude::*;

use crate::amounts::{
    allocation_spec,
    lemma_allocation_conserves,
    native_amount,
    native_amount_fits,
    native_total,
    pow10,
    split_allocation,
};
use crate::instructions::claim::{after_release, claim, claim_outcome, claim_transfer, ClaimRefusal};
use crate::operations::{
    main_vault_authority_seeds,
    main_vault_authority_seeds_spec,
    transferred_from,
    transferred_to,
    Signer,
    TokenOperation,
};
use crate::pubkey::{program_address, try_find_program_address, Pubkey};
use crate::state::new_vesting_account;

pub use crate::instructions::claim::ClaimVestedTokens;
pub use crate::state::VestingAccount;

verus! {

/// The errors of the vault-funded vesting instructions.
#[derive(Clone, Copy, Debug, PartialEq, Eq, Structural)]
pub enum ErrorCode {
    NftAccountEmptyOrWrongAmount,
    AmountOverflow,
    AmountCalculationError,
    NothingToClaim,
    BeneficiaryNotFound,
    InsufficientFundsInMainVault,
    BumpSeedNotFound,
}

impl ErrorCode {
    /// The error number the program reports: 6000 plus the variant's index.
    pub fn code(&self) -> (c: u32)
        ensures
            c == 6000 + match *self {
                ErrorCode::NftAccountEmptyOrWrongAmount => 0int,
                ErrorCode::AmountOverflow => 1,
                ErrorCode::AmountCalculationError => 2,
                ErrorCode::NothingToClaim => 3,
                ErrorCode::BeneficiaryNotFound => 4,
                ErrorCode::InsufficientFundsInMainVault => 5,
                ErrorCode::BumpSeedNotFound => 6,
            },
    {
        match self {
            ErrorCode::NftAccountEmptyOrWrongAmount => 6000,
            ErrorCode::AmountOverflow => 6001,
            ErrorCode::AmountCalculationError => 6002,
            ErrorCode::NothingToClaim => 6003,
            ErrorCode::BeneficiaryNotFound => 6004,
            ErrorCode::InsufficientFundsInMainVault => 6005,
            ErrorCode::BumpSeedNotFound => 6006,
        }
    }

    /// The message the program reports with the error.
    pub fn message(&self) -> (m: &'static str)
        ensures
            m@ == match *self {
                ErrorCode::NftAccountEmptyOrWrongAmount =>
                    "NFT token account is empty or does not hold exactly one NFT."@,
                ErrorCode::AmountOverflow => "Amount calculation overflowed."@,
                ErrorCode::AmountCalculationError => "Amount calculation error."@,
                ErrorCode::NothingToClaim => "Nothing to claim."@,
                ErrorCode::BeneficiaryNotFound => "Beneficiary not found."@,
                ErrorCode::InsufficientFundsInMainVault => "Insufficient funds in main vault."@,
                ErrorCode::BumpSeedNotFound => "Bump seed not found in context."@,
            },
    {
        match self {
            ErrorCode::NftAccountEmptyOrWrongAmount =>
                "NFT token account is empty or does not hold exactly one NFT.",
            ErrorCode::AmountOverflow => "Amount calculation overflowed.",
            ErrorCode::AmountCalculationError => "Amount calculation error.",
            ErrorCode::NothingToClaim => "Nothing to claim.",
            ErrorCode::BeneficiaryNotFound => "Beneficiary not found.",
            ErrorCode::InsufficientFundsInMainVault => "Insufficient funds in main vault.",
            ErrorCode::BumpSeedNotFound => "Bump seed not found in context.",
        }
    }
}

/// The error a refused claim is reported with.
pub open spec fn claim_error(refusal: ClaimRefusal) -> ErrorCode {
    match refusal {
        ClaimRefusal::BeneficiaryNotFound => ErrorCode::BeneficiaryNotFound,
        ClaimRefusal::AmountCalculationError => ErrorCode::AmountCalculationError,
        ClaimRefusal::NothingToClaim => ErrorCode::NothingToClaim,
    }
}

/// What the vault-funded vesting instruction reads.
#[derive(Clone, Copy, Debug, PartialEq, Eq)]
pub struct StartVestingFromVault {
    /// The id of this program, under which its authorities are derived.
    pub program_id: Pubkey,
    /// The fungible token's mint.
    pub fungible_mint: Pubkey,
    /// The fungible mint's number of decimals.
    pub fungible_mint_decimals: u8,
    /// The investor, who signs and receives the tokens.
    pub investor: Pubkey,
    /// The investor's token account for the fungible mint.
    pub associated_token_account: Pubkey,
    /// The program's main vault of the fungible token.
    pub main_token_vault: Pubkey,
    /// The balance of the main vault.
    pub main_token_vault_amount: u64,
    /// The program-derived authority of the main vault.
    pub main_vault_authority: Pubkey,
    /// The investor's vesting record.
    pub vesting_account: VestingAccount,
    /// The program-derived authority of the vesting vault.
    pub vault_authority: Pubkey,
    /// The vault that will hold the locked tokens.
    pub vesting_vault: Pubkey,
}

/// The outcome of a vault-funded vesting, given the bump seed that the
/// search for the main vault authority found: the TGE part, the vesting part
/// and the bump, or the error (checked in this order).
pub open spec fn start_vesting_outcome(
    ctx: StartVestingFromVault,
    total_amount: u64,
    tge_percentage: u16,
    authority_bump: Option<u8>,
) -> Result<(u64, u64, u8), ErrorCode> {
    let total = native_total(total_amount, ctx.fungible_mint_decimals);
    match allocation_spec(total, tge_percentage) {
        None => Err(ErrorCode::AmountCalculationError),
        Some((tge, vesting)) => if ctx.main_token_vault_amount < total {
            Err(ErrorCode::InsufficientFundsInMainVault)
        } else {
            match authority_bump {
                None => Err(ErrorCode::BumpSeedNotFound),
                Some(bump) => Ok((tge, vesting, bump)),
            }
        },
    }
}

/// The transfers of a vault-funded vesting: the TGE part to the investor and
/// the vesting part to the vesting vault (each only when positive), both
/// signed by the main vault authority.
pub open spec fn start_vesting_ops(ctx: StartVestingFromVault, tge: u64, vesting: u64, bump: u8) -> Seq<
    TokenOperation,
> {
    let signer = Signer::MainVaultAuthority { mint: ctx.fungible_mint, bump: bump };
    (if tge > 0 {
        seq![
            TokenOperation::Transfer {
                from: ctx.main_token_vault,
                to: ctx.associated_token_account,
                authority: ctx.main_vault_authority,
                amount: tge,
                signer: signer,
            },
        ]
    } else {
        Seq::empty()
    }) + (if vesting > 0 {
        seq![
            TokenOperation::Transfer {
                from: ctx.main_token_vault,
                to: ctx.vesting_vault,
                authority: ctx.main_vault_authority,
                amount: vesting,
                signer: signer,
            },
        ]
    } else {
        Seq::empty()
    })
}

/// The context after the instruction wrote the new vesting record.
pub open spec fn start_vesting_after(
    ctx: StartVestingFromVault,
    tge: u64,
    vesting: u64,
    start: i64,
    duration: u64,
) -> StartVestingFromVault {
    StartVestingFromVault {
        vesting_account: new_vesting_account(
            ctx.investor,
            ctx.fungible_mint,
            ctx.vesting_vault,
            tge,
            vesting,
            start,
            duration,
        ),
        ..ctx
    }
}

/// The bump seed of a found program-derived address.
pub open spec fn found_bump(found: Option<(Seq<u8>, u8)>) -> Option<u8> {
    match found {
        Some((_, bump)) => Some(bump),
        None => None,
    }
}

/// Starts a vesting schedule funded from the main vault, given the bump seed
/// of the main vault authority (`None` where no address was found): the TGE
/// part moves to the investor at once, the rest moves to the vesting vault
/// and vests linearly over `vesting_duration` seconds from
/// `current_timestamp`.
pub fn start_vesting_from_vault_with_bump(
    ctx: &mut StartVestingFromVault,
    total_amount: u64,
    vesting_duration: u64,
    tge_percentage: u16,
    current_timestamp: i64,
    authority_bump: Option<u8>,
) -> (r: Result<Vec<TokenOperation>, ErrorCode>)
    requires
        native_amount_fits(total_amount, old(ctx).fungible_mint_decimals),
    ensures
        match start_vesting_outcome(*old(ctx), total_amount, tge_percentage, authority_bump) {
            Ok((tge, vesting, bump)) => r matches Ok(ops) && ops@ == start_vesting_ops(
                *old(ctx),
                tge,
                vesting,
                bump,
            ) && *final(ctx) == start_vesting_after(
                *old(ctx),
                tge,
                vesting,
                current_timestamp,
                vesting_duration,
            ),
            Err(e) => r == Err::<Vec<TokenOperation>, ErrorCode>(e) && *final(ctx) == *old(ctx),
        },
{
    let total_amount_native = native_amount(total_amount, ctx.fungible_mint_decimals);
    let (tge_amount_native, vesting_amount_native) = match split_allocation(
        total_amount_native,
        tge_percentage,
    ) {
        Some(parts) => parts,
        None => {
            return Err(ErrorCode::AmountCalculationError);
        },
    };
    if ctx.main_token_vault_amount < total_amount_native {
        return Err(ErrorCode::InsufficientFundsInMainVault);
    }
    let bump = match authority_bump {
        Some(b) => b,
        None => {
            return Err(ErrorCode::BumpSeedNotFound);
        },
    };
    let signer = Signer::MainVaultAuthority { mint: ctx.fungible_mint, bump: bump };
    let mut ops: Vec<TokenOperation> = Vec::new();
    if tge_amount_native > 0 {
        ops.push(
            TokenOperation::Transfer {
                from: ctx.main_token_vault,
                to: ctx.associated_token_account,
                authority: ctx.main_vault_authority,
                amount: tge_amount_native,
                signer: signer,
            },
        );
    }
    if vesting_amount_native > 0 {
        ops.push(
            TokenOperation::Transfer {
                from: ctx.main_token_vault,
                to: ctx.vesting_vault,
                authority: ctx.main_vault_authority,
                amount: vesting_amount_native,
                signer: signer,
            },
        );
    }
    ctx.vesting_account = VestingAccount {
        beneficiary: ctx.investor,
        mint: ctx.fungible_mint,
        token_account: ctx.vesting_vault,
        total_amount: vesting_amount_native,
        start_time: current_timestamp,
        duration: vesting_duration,
        released_amount: 0,
        tge_amount: tge_amount_native,
    };
    assert(ops@ =~= start_vesting_ops(*old(ctx), tge_amount_native, vesting_amount_native, bump));
    Ok(ops)
}

/// Starts a vesting schedule funded from the main vault (see
/// `start_vesting_from_vault_with_bump`), with the bump seed that the search
/// for the main vault authority of the mint under `ctx.program_id` finds.
pub fn start_vesting_from_vault(
    ctx: &mut StartVestingFromVault,
    total_amount: u64,
    vesting_duration: u64,
    tge_percentage: u16,
    current_timestamp: i64,
) -> (r: Result<Vec<TokenOperation>, ErrorCode>)
    requires
        native_amount_fits(total_amount, old(ctx).fungible_mint_decimals),
    ensures
        match start_vesting_outcome(
            *old(ctx),
            total_amount,
            tge_percentage,
            found_bump(
                program_address(
                    main_vault_authority_seeds_spec(old(ctx).fungible_mint),
                    old(ctx).program_id@,
                ),
            ),
        ) {
            Ok((tge, vesting, bump)) => r matches Ok(ops) && ops@ == start_vesting_ops(
                *old(ctx),
                tge,
                vesting,
                bump,
            ) && *final(ctx) == start_vesting_after(
                *old(ctx),
                tge,
                vesting,
                current_timestamp,
                vesting_duration,
            ),
            Err(e) => r == Err::<Vec<TokenOperation>, ErrorCode>(e) && *final(ctx) == *old(ctx),
        },
{
    let seeds = main_vault_authority_seeds(&ctx.fungible_mint);
    let found = try_find_program_address(&seeds, &ctx.program_id);
    let authority_bump = match found {
        Some((_, bump)) => Some(bump),
        None => None,
    };
    start_vesting_from_vault_with_bump(
        ctx,
        total_amount,
        vesting_duration,
        tge_percentage,
        current_timestamp,
        authority_bump,
    )
}

/// Claims what has vested of the beneficiary's schedule at
/// `current_timestamp` (see `claim_outcome`).
pub fn claim_vested_tokens(ctx: &mut ClaimVestedTokens, current_timestamp: i64) -> (r: Result<
    TokenOperation,
    ErrorCode,
>)
    ensures
        match claim_outcome(old(ctx).vesting_account, old(ctx).beneficiary, current_timestamp) {
            Ok(amount) => r == Ok::<TokenOperation, ErrorCode>(claim_transfer(*old(ctx), amount))
                && *final(ctx) == after_release(*old(ctx), amount),
            Err(e) => r == Err::<TokenOperation, ErrorCode>(claim_error(e)) && *final(ctx)
                == *old(ctx),
        },
{
    match claim(ctx, current_timestamp) {
        Ok(op) => Ok(op),
        Err(ClaimRefusal::BeneficiaryNotFound) => Err(ErrorCode::BeneficiaryNotFound),
        Err(ClaimRefusal::AmountCalculationError) => Err(ErrorCode::AmountCalculationError),
        Err(ClaimRefusal::NothingToClaim) => Err(ErrorCode::NothingToClaim),
    }
}

/// A successful vault-funded vesting moves out of the main vault exactly the
/// whole allocation, which the vault held, and starts a well-formed schedule
/// with nothing released whose TGE and vesting parts add up to the allocation.
pub proof fn lemma_start_vesting_moves_allocation(
    ctx: StartVestingFromVault,
    total_amount: u64,
    vesting_duration: u64,
    tge_percentage: u16,
    now: i64,
    authority_bump: Option<u8>,
)
    requires
        native_amount_fits(total_amount, ctx.fungible_mint_decimals),
    ensures
        start_vesting_outcome(ctx, total_amount, tge_percentage, authority_bump) matches Ok(
            (tge, vesting, bump),
        ) ==> {
            &&& transferred_from(start_vesting_ops(ctx, tge, vesting, bump), ctx.main_token_vault)
                == native_total(total_amount, ctx.fungible_mint_decimals)
            &&& native_total(total_amount, ctx.fungible_mint_decimals)
                <= ctx.main_token_vault_amount
            &&& start_vesting_after(
                ctx,
                tge,
                vesting,
                now,
                vesting_duration,
            ).vesting_account.wf()
            &&& start_vesting_after(
                ctx,
                tge,
                vesting,
                now,
                vesting_duration,
            ).vesting_account.released_amount == 0
            &&& start_vesting_after(
                ctx,
                tge,
                vesting,
                now,
                vesting_duration,
            ).vesting_account.tge_amount + start_vesting_after(
                ctx,
                tge,
                vesting,
                now,
                vesting_duration,
            ).vesting_account.total_amount == native_total(total_amount, ctx.fungible_mint_decimals)
        },
{
    if let Ok((tge, vesting, bump)) = start_vesting_outcome(
        ctx,
        total_amount,
        tge_percentage,
        authority_bump,
    ) {
        let ops = start_vesting_ops(ctx, tge, vesting, bump);
        let signer = Signer::MainVaultAuthority { mint: ctx.fungible_mint, bump: bump };
        let first: Seq<TokenOperation> = if tge > 0 {
            seq![
                TokenOperation::Transfer {
                    from: ctx.main_token_vault,
                    to: ctx.associated_token_account,
                    authority: ctx.main_vault_authority,
                    amount: tge,
                    signer: signer,
                },
            ]
        } else {
            Seq::empty()
        };
        assert(transferred_from(Seq::<TokenOperation>::empty(), ctx.main_token_vault) == 0);
        if tge > 0 {
            assert(first.drop_last() =~= Seq::<TokenOperation>::empty());
        }
        assert(transferred_from(first, ctx.main_token_vault) == tge);
        if vesting > 0 {
            assert(ops.drop_last() =~= first);
        } else {
            assert(ops =~= first);
        }
    }
}

/// When a vault-funded vesting succeeds and when it fails, in terms of its
/// inputs: with `n = total_amount * 10^decimals` and TGE share
/// `t = (n * tge_percentage / 10000) mod 2^64`, it fails with
/// `AmountCalculationError` when `t > n`, else with
/// `InsufficientFundsInMainVault` when the vault holds less than `n`, else
/// with `BumpSeedNotFound` when no bump was found; otherwise it succeeds with
/// TGE part `t`, vesting part `n - t` and the found bump.
pub proof fn lemma_start_vesting_outcome(
    ctx: StartVestingFromVault,
    total_amount: u64,
    tge_percentage: u16,
    authority_bump: Option<u8>,
)
    requires
        native_amount_fits(total_amount, ctx.fungible_mint_decimals),
    ensures
        ({
            let n = total_amount * pow10(ctx.fungible_mint_decimals as nat);
            let t = (n * tge_percentage / 10000) % 0x1_0000_0000_0000_0000;
            let outcome = start_vesting_outcome(ctx, total_amount, tge_percentage, authority_bump);
            &&& t > n ==> outcome == Err::<(u64, u64, u8), ErrorCode>(
                ErrorCode::AmountCalculationError,
            )
            &&& (t <= n && ctx.main_token_vault_amount < n) ==> outcome == Err::<
                (u64, u64, u8),
                ErrorCode,
            >(ErrorCode::InsufficientFundsInMainVault)
            &&& (t <= n && n <= ctx.main_token_vault_amount && authority_bump is None)
                ==> outcome == Err::<(u64, u64, u8), ErrorCode>(ErrorCode::BumpSeedNotFound)
            &&& (t <= n && n <= ctx.main_token_vault_amount && authority_bump is Some) ==> (
            outcome matches Ok((tge, vesting, bump)) && tge == t && vesting == n - t && Some(bump)
                == authority_bump)
        }),
{
    lemma_allocation_conserves(native_total(total_amount, ctx.fungible_mint_decimals), tge_percentage);
}

/// The record a successful vault-funded vesting writes: the investor as
/// beneficiary, the fungible mint, the vesting vault, the current time as
/// start, the requested duration, nothing released, and the TGE and vesting
/// parts; every other account of the context is left as it was.
pub proof fn lemma_start_vesting_record(
    ctx: StartVestingFromVault,
    total_amount: u64,
    vesting_duration: u64,
    tge_percentage: u16,
    now: i64,
    authority_bump: Option<u8>,
)
    ensures
        start_vesting_outcome(ctx, total_amount, tge_percentage, authority_bump) matches Ok(
            (tge, vesting, bump),
        ) ==> {
            let after = start_vesting_after(ctx, tge, vesting, now, vesting_duration);
            &&& after.vesting_account.beneficiary == ctx.investor
            &&& after.vesting_account.mint == ctx.fungible_mint
            &&& after.vesting_account.token_account == ctx.vesting_vault
            &&& after.vesting_account.start_time == now
            &&& after.vesting_account.duration == vesting_duration
            &&& after.vesting_account.released_amount == 0
            &&& after.vesting_account.tge_amount == tge
            &&& after.vesting_account.total_amount == vesting
            &&& (StartVestingFromVault { vesting_account: ctx.vesting_account, ..after }) == ctx
        },
{
}

/// Every operation of a vault-funded vesting is a positive transfer out of
/// the main vault, by the main vault authority, signed with the seeds of the
/// fungible mint's main vault authority and the found bump; the investor's
/// account receives the TGE part and the vesting vault the vesting part.
pub proof fn lemma_start_vesting_transfers(ctx: StartVestingFromVault, tge: u64, vesting: u64, bump: u8)
    ensures
        forall|i: int|
            0 <= i < start_vesting_ops(ctx, tge, vesting, bump).len() ==> (#[trigger] start_vesting_ops(
                ctx,
                tge,
                vesting,
                bump,
            )[i] matches TokenOperation::Transfer { from, authority, amount, signer, .. } && from
                == ctx.main_token_vault && authority == ctx.main_vault_authority && amount > 0
                && signer == (Signer::MainVaultAuthority { mint: ctx.fungible_mint, bump: bump })),
        ctx.associated_token_account != ctx.vesting_vault ==> transferred_to(
            start_vesting_ops(ctx, tge, vesting, bump),
            ctx.associated_token_account,
        ) == tge && transferred_to(start_vesting_ops(ctx, tge, vesting, bump), ctx.vesting_vault)
            == vesting,
{
    let ops = start_vesting_ops(ctx, tge, vesting, bump);
    let signer = Signer::MainVaultAuthority { mint: ctx.fungible_mint, bump: bump };
    let first: Seq<TokenOperation> = if tge > 0 {
        seq![
            TokenOperation::Transfer {
                from: ctx.main_token_vault,
                to: ctx.associated_token_account,
                authority: ctx.main_vault_authority,
                amount: tge,
                signer: signer,
            },
        ]
    } else {
        Seq::empty()
    };
    assert(transferred_to(Seq::<TokenOperation>::empty(), ctx.associated_token_account) == 0);
    assert(transferred_to(Seq::<TokenOperation>::empty(), ctx.vesting_vault) == 0);
    if tge > 0 {
        assert(first.drop_last() =~= Seq::<TokenOperation>::empty());
    }
    assert(transferred_to(first, ctx.vesting_vault) == 0 || ctx.associated_token_account
        == ctx.vesting_vault);
    assert(transferred_to(first, ctx.associated_token_account) == tge);
    if vesting > 0 {
        assert(ops.drop_last() =~= first);
    } else {
        assert(ops =~= first);
    }
}

} // verus!
