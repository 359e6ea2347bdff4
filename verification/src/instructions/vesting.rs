use vstd::prelude::*;

use crate::amounts::{
    allocation_spec,
    lemma_allocation_conserves,
    native_amount,
    native_amount_fits,
    native_total,
    pow10,
    split_allocation,
};
use crate::instructions::claim::{claim, claim_outcome, claim_transfer, after_release, ClaimRefusal};
use crate::operations::{burned_total, minted_to, minted_total, TokenOperation};
use crate::pubkey::Pubkey;

pub use crate::instructions::claim::ClaimVestedTokens;
pub use crate::state::VestingAccount;
use crate::state::new_vesting_account;

verus! {

/// The errors of the minting-and-vesting instructions.
#[derive(Clone, Copy, Debug, PartialEq, Eq, Structural)]
pub enum ErrorCode {
    NftAccountEmptyOrWrongAmount,
    AmountOverflow,
    AmountCalculationError,
    NothingToClaim,
    BeneficiaryNotFound,
}

impl ErrorCode {
    /// The error number the program reports: 6000 plus the variant's index.
    pub fn code(&self) -> (c: u32)
        ensures
            c == 6000 + match *self {
                ErrorCode::NftAccountEmptyOrWrongAmount => 0int,
                ErrorCode::AmountOverflow => 1,
                ErrorCode::AmountCalculationError => 2,
                ErrorCode::NothingToClaim => 3,
                ErrorCode::BeneficiaryNotFound => 4,
            },
    {
        match self {
            ErrorCode::NftAccountEmptyOrWrongAmount => 6000,
            ErrorCode::AmountOverflow => 6001,
            ErrorCode::AmountCalculationError => 6002,
            ErrorCode::NothingToClaim => 6003,
            ErrorCode::BeneficiaryNotFound => 6004,
        }
    }

    /// The message the program reports with the error.
    pub fn message(&self) -> (m: &'static str)
        ensures
            m@ == match *self {
                ErrorCode::NftAccountEmptyOrWrongAmount =>
                    "NFT token account is empty or does not hold exactly one NFT."@,
                ErrorCode::AmountOverflow => "Amount calculation overflowed."@,
                ErrorCode::AmountCalculationError => "Amount calculation error."@,
                ErrorCode::NothingToClaim => "Nothing to claim."@,
                ErrorCode::BeneficiaryNotFound => "Beneficiary not found."@,
            },
    {
        match self {
            ErrorCode::NftAccountEmptyOrWrongAmount =>
                "NFT token account is empty or does not hold exactly one NFT.",
            ErrorCode::AmountOverflow => "Amount calculation overflowed.",
            ErrorCode::AmountCalculationError => "Amount calculation error.",
            ErrorCode::NothingToClaim => "Nothing to claim.",
            ErrorCode::BeneficiaryNotFound => "Beneficiary not found.",
        }
    }
}

/// The error a refused claim is reported with.
pub open spec fn claim_error(refusal: ClaimRefusal) -> ErrorCode {
    match refusal {
        ClaimRefusal::BeneficiaryNotFound => ErrorCode::BeneficiaryNotFound,
        ClaimRefusal::AmountCalculationError => ErrorCode::AmountCalculationError,
        ClaimRefusal::NothingToClaim => ErrorCode::NothingToClaim,
    }
}

/// What the investor vesting instruction reads.
#[derive(Clone, Copy, Debug, PartialEq, Eq)]
pub struct InvestorVestingTokens {
    /// The signer allowed to mint the fungible token.
    pub mint_authority: Pubkey,
    /// The fungible token's mint.
    pub fungible_mint: Pubkey,
    /// The fungible mint's number of decimals.
    pub fungible_mint_decimals: u8,
    /// The investor, who signs and receives the tokens.
    pub investor: Pubkey,
    /// The investor's token account for the fungible mint.
    pub associated_token_account: Pubkey,
    /// The mint of the investor's NFT.
    pub nft_mint: Pubkey,
    /// The investor's token account holding the NFT.
    pub nft_token_account: Pubkey,
    /// The investor's vesting record.
    pub vesting_account: VestingAccount,
    /// The program-derived authority of the vesting vault.
    pub vault_authority: Pubkey,
    /// The vault that will hold the locked tokens.
    pub vesting_vault: Pubkey,
}

/// The operations of the investor vesting instruction: burn the NFT, mint
/// the TGE part to the investor and the vesting part to the vault (each
/// only when positive).
pub open spec fn investor_vesting_ops(ctx: InvestorVestingTokens, tge: u64, vesting: u64) -> Seq<
    TokenOperation,
> {
    seq![
        TokenOperation::Burn {
            mint: ctx.nft_mint,
            from: ctx.nft_token_account,
            authority: ctx.investor,
            amount: 1,
        },
    ] + (if tge > 0 {
        seq![
            TokenOperation::MintTo {
                mint: ctx.fungible_mint,
                to: ctx.associated_token_account,
                authority: ctx.mint_authority,
                amount: tge,
            },
        ]
    } else {
        Seq::empty()
    }) + (if vesting > 0 {
        seq![
            TokenOperation::MintTo {
                mint: ctx.fungible_mint,
                to: ctx.vesting_vault,
                authority: ctx.mint_authority,
                amount: vesting,
            },
        ]
    } else {
        Seq::empty()
    })
}

/// The context after the instruction wrote the new vesting record.
pub open spec fn investor_vesting_after(
    ctx: InvestorVestingTokens,
    tge: u64,
    vesting: u64,
    start: i64,
    duration: u64,
) -> InvestorVestingTokens {
    InvestorVestingTokens {
        vesting_account: new_vesting_account(
            ctx.investor,
            ctx.fungible_mint,
            ctx.vesting_vault,
            tge,
            vesting,
            start,
            duration,
        ),
        ..ctx
    }
}

/// Exchanges the investor's NFT for a vesting allocation of `total_amount`
/// whole tokens: `tge_percentage` basis points of it are minted to the
/// investor at once, the rest is minted to the vesting vault and vests
/// linearly over `vesting_duration` seconds from `current_timestamp`.
pub fn investor_vesting_tokens(
    ctx: &mut InvestorVestingTokens,
    total_amount: u64,
    vesting_duration: u64,
    tge_percentage: u16,
    current_timestamp: i64,
) -> (r: Result<Vec<TokenOperation>, ErrorCode>)
    requires
        native_amount_fits(total_amount, old(ctx).fungible_mint_decimals),
    ensures
        match allocation_spec(
            native_total(total_amount, old(ctx).fungible_mint_decimals),
            tge_percentage,
        ) {
            Some((tge, vesting)) => r matches Ok(ops) && ops@ == investor_vesting_ops(
                *old(ctx),
                tge,
                vesting,
            ) && *final(ctx) == investor_vesting_after(
                *old(ctx),
                tge,
                vesting,
                current_timestamp,
                vesting_duration,
            ),
            None => r == Err::<Vec<TokenOperation>, ErrorCode>(ErrorCode::AmountCalculationError)
                && *final(ctx) == *old(ctx),
        },
{
    let total_amount_native = native_amount(total_amount, ctx.fungible_mint_decimals);
    let (tge_amount_native, vesting_amount_native) = match split_allocation(
        total_amount_native,
        tge_percentage,
    ) {
        Some(parts) => parts,
        None => {
            return Err(ErrorCode::AmountCalculationError);
        },
    };
    let mut ops: Vec<TokenOperation> = Vec::new();
    ops.push(
        TokenOperation::Burn {
            mint: ctx.nft_mint,
            from: ctx.nft_token_account,
            authority: ctx.investor,
            amount: 1,
        },
    );
    if tge_amount_native > 0 {
        ops.push(
            TokenOperation::MintTo {
                mint: ctx.fungible_mint,
                to: ctx.associated_token_account,
                authority: ctx.mint_authority,
                amount: tge_amount_native,
            },
        );
    }
    if vesting_amount_native > 0 {
        ops.push(
            TokenOperation::MintTo {
                mint: ctx.fungible_mint,
                to: ctx.vesting_vault,
                authority: ctx.mint_authority,
                amount: vesting_amount_native,
            },
        );
    }
    ctx.vesting_account = VestingAccount {
        beneficiary: ctx.investor,
        mint: ctx.fungible_mint,
        token_account: ctx.vesting_vault,
        total_amount: vesting_amount_native,
        start_time: current_timestamp,
        duration: vesting_duration,
        released_amount: 0,
        tge_amount: tge_amount_native,
    };
    assert(ops@ =~= investor_vesting_ops(*old(ctx), tge_amount_native, vesting_amount_native));
    Ok(ops)
}

/// Claims what has vested of the beneficiary's schedule at
/// `current_timestamp` (see `claim_outcome`).
pub fn claim_vested_tokens(ctx: &mut ClaimVestedTokens, current_timestamp: i64) -> (r: Result<
    TokenOperation,
    ErrorCode,
>)
    ensures
        match claim_outcome(old(ctx).vesting_account, old(ctx).beneficiary, current_timestamp) {
            Ok(amount) => r == Ok::<TokenOperation, ErrorCode>(claim_transfer(*old(ctx), amount))
                && *final(ctx) == after_release(*old(ctx), amount),
            Err(e) => r == Err::<TokenOperation, ErrorCode>(claim_error(e)) && *final(ctx)
                == *old(ctx),
        },
{
    match claim(ctx, current_timestamp) {
        Ok(op) => Ok(op),
        Err(ClaimRefusal::BeneficiaryNotFound) => Err(ErrorCode::BeneficiaryNotFound),
        Err(ClaimRefusal::AmountCalculationError) => Err(ErrorCode::AmountCalculationError),
        Err(ClaimRefusal::NothingToClaim) => Err(ErrorCode::NothingToClaim),
    }
}

/// A successful investor vesting mints exactly the whole allocation, burns
/// exactly one NFT, and starts a well-formed schedule with nothing released
/// whose TGE and vesting parts add up to the allocation.
pub proof fn lemma_investor_vesting_mints_allocation(
    ctx: InvestorVestingTokens,
    total_amount: u64,
    vesting_duration: u64,
    tge_percentage: u16,
    now: i64,
)
    requires
        native_amount_fits(total_amount, ctx.fungible_mint_decimals),
    ensures
        allocation_spec(native_total(total_amount, ctx.fungible_mint_decimals), tge_percentage)
            matches Some((tge, vesting)) ==> {
            &&& minted_total(investor_vesting_ops(ctx, tge, vesting)) == native_total(
                total_amount,
                ctx.fungible_mint_decimals,
            )
            &&& burned_total(investor_vesting_ops(ctx, tge, vesting), ctx.nft_mint) == 1
            &&& investor_vesting_after(
                ctx,
                tge,
                vesting,
                now,
                vesting_duration,
            ).vesting_account.wf()
            &&& investor_vesting_after(
                ctx,
                tge,
                vesting,
                now,
                vesting_duration,
            ).vesting_account.released_amount == 0
            &&& investor_vesting_after(
                ctx,
                tge,
                vesting,
                now,
                vesting_duration,
            ).vesting_account.tge_amount + investor_vesting_after(
                ctx,
                tge,
                vesting,
                now,
                vesting_duration,
            ).vesting_account.total_amount == native_total(total_amount, ctx.fungible_mint_decimals)
        },
{
    let total = native_total(total_amount, ctx.fungible_mint_decimals);
    if let Some((tge, vesting)) = allocation_spec(total, tge_percentage) {
        let ops = investor_vesting_ops(ctx, tge, vesting);
        let burn = seq![
            TokenOperation::Burn {
                mint: ctx.nft_mint,
                from: ctx.nft_token_account,
                authority: ctx.investor,
                amount: 1,
            },
        ];
        let first = burn + (if tge > 0 {
            seq![
                TokenOperation::MintTo {
                    mint: ctx.fungible_mint,
                    to: ctx.associated_token_account,
                    authority: ctx.mint_authority,
                    amount: tge,
                },
            ]
        } else {
            Seq::empty()
        });
        assert(burn.drop_last() =~= Seq::<TokenOperation>::empty());
        assert(minted_total(burn.drop_last()) == 0);
        assert(burned_total(burn.drop_last(), ctx.nft_mint) == 0);
        assert(minted_total(burn) == 0);
        assert(burned_total(burn, ctx.nft_mint) == 1);
        if tge > 0 {
            assert(first.drop_last() =~= burn);
        } else {
            assert(first =~= burn);
        }
        assert(minted_total(first) == tge);
        assert(burned_total(first, ctx.nft_mint) == 1);
        if vesting > 0 {
            assert(ops.drop_last() =~= first);
        } else {
            assert(ops =~= first);
        }
    }
}

/// When investor vesting succeeds, in terms of its inputs: with
/// `n = total_amount * 10^decimals` and TGE share
/// `t = (n * tge_percentage / 10000) mod 2^64`, it fails with
/// `AmountCalculationError` exactly when `t > n`, and otherwise succeeds with
/// TGE part `t` and vesting part `n - t`.
pub proof fn lemma_investor_vesting_outcome(
    ctx: InvestorVestingTokens,
    total_amount: u64,
    tge_percentage: u16,
)
    requires
        native_amount_fits(total_amount, ctx.fungible_mint_decimals),
    ensures
        ({
            let n = total_amount * pow10(ctx.fungible_mint_decimals as nat);
            let t = (n * tge_percentage / 10000) % 0x1_0000_0000_0000_0000;
            let split = allocation_spec(
                native_total(total_amount, ctx.fungible_mint_decimals),
                tge_percentage,
            );
            &&& split is None <==> t > n
            &&& split matches Some((tge, vesting)) ==> tge == t && vesting == n - t
        }),
{
    lemma_allocation_conserves(native_total(total_amount, ctx.fungible_mint_decimals), tge_percentage);
}

/// The record a successful investor vesting writes: the investor as
/// beneficiary, the fungible mint, the vesting vault, the current time as
/// start, the requested duration, nothing released, and the TGE and vesting
/// parts; every other account of the context is left as it was.
pub proof fn lemma_investor_vesting_record(
    ctx: InvestorVestingTokens,
    tge: u64,
    vesting: u64,
    now: i64,
    vesting_duration: u64,
)
    ensures
        ({
            let after = investor_vesting_after(ctx, tge, vesting, now, vesting_duration);
            &&& after.vesting_account.beneficiary == ctx.investor
            &&& after.vesting_account.mint == ctx.fungible_mint
            &&& after.vesting_account.token_account == ctx.vesting_vault
            &&& after.vesting_account.start_time == now
            &&& after.vesting_account.duration == vesting_duration
            &&& after.vesting_account.released_amount == 0
            &&& after.vesting_account.tge_amount == tge
            &&& after.vesting_account.total_amount == vesting
            &&& (InvestorVestingTokens { vesting_account: ctx.vesting_account, ..after }) == ctx
        }),
{
}

/// Investor vesting first burns the investor's one NFT; every later
/// operation is a positive mint of the fungible token by the mint authority;
/// the investor's account receives the TGE part and the vesting vault the
/// vesting part.
pub proof fn lemma_investor_vesting_operations(ctx: InvestorVestingTokens, tge: u64, vesting: u64)
    ensures
        investor_vesting_ops(ctx, tge, vesting)[0] == (TokenOperation::Burn {
            mint: ctx.nft_mint,
            from: ctx.nft_token_account,
            authority: ctx.investor,
            amount: 1,
        }),
        forall|i: int|
            1 <= i < investor_vesting_ops(ctx, tge, vesting).len() ==> (
            #[trigger] investor_vesting_ops(ctx, tge, vesting)[i] matches TokenOperation::MintTo {
                mint,
                authority,
                amount,
                ..
            } && mint == ctx.fungible_mint && authority == ctx.mint_authority && amount > 0),
        ctx.associated_token_account != ctx.vesting_vault ==> minted_to(
            investor_vesting_ops(ctx, tge, vesting),
            ctx.associated_token_account,
        ) == tge && minted_to(investor_vesting_ops(ctx, tge, vesting), ctx.vesting_vault)
            == vesting,
{
    let ops = investor_vesting_ops(ctx, tge, vesting);
    let burn = seq![
        TokenOperation::Burn {
            mint: ctx.nft_mint,
            from: ctx.nft_token_account,
            authority: ctx.investor,
            amount: 1,
        },
    ];
    let first = burn + (if tge > 0 {
        seq![
            TokenOperation::MintTo {
                mint: ctx.fungible_mint,
                to: ctx.associated_token_account,
                authority: ctx.mint_authority,
                amount: tge,
            },
        ]
    } else {
        Seq::empty()
    });
    assert(burn.drop_last() =~= Seq::<TokenOperation>::empty());
    assert(minted_to(burn.drop_last(), ctx.associated_token_account) == 0);
    assert(minted_to(burn.drop_last(), ctx.vesting_vault) == 0);
    assert(minted_to(burn, ctx.associated_token_account) == 0);
    assert(minted_to(burn, ctx.vesting_vault) == 0);
    if tge > 0 {
        assert(first.drop_last() =~= burn);
    } else {
        assert(first =~= burn);
    }
    assert(minted_to(first, ctx.associated_token_account) == tge);
    assert(minted_to(first, ctx.vesting_vault) == 0 || ctx.associated_token_account
        == ctx.vesting_vault);
    if vesting > 0 {
        assert(ops.drop_last() =~= first);
    } else {
        assert(ops =~= first);
    }
}

} // verus!
