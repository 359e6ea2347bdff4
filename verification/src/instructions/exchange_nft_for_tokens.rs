use vstd::prelude::*;

use crate::amounts::{native_amount, native_amount_fits, native_total, pow10};
use crate::operations::{burned_total, minted_to, minted_total, TokenOperation};
use crate::pubkey::Pubkey;

verus! {

/// The errors of the NFT exchange instruction.
#[derive(Clone, Copy, Debug, PartialEq, Eq, Structural)]
pub enum ErrorCode {
    NftAccountEmptyOrWrongAmount,
    AmountOverflow,
}

impl ErrorCode {
    /// The error number the program reports: 6000 plus the variant's index.
    pub fn code(&self) -> (c: u32)
        ensures
            c == 6000 + match *self {
                ErrorCode::NftAccountEmptyOrWrongAmount => 0int,
                ErrorCode::AmountOverflow => 1,
            },
    {
        match self {
            ErrorCode::NftAccountEmptyOrWrongAmount => 6000,
            ErrorCode::AmountOverflow => 6001,
        }
    }

    /// The message the program reports with the error.
    pub fn message(&self) -> (m: &'static str)
        ensures
            m@ == match *self {
                ErrorCode::NftAccountEmptyOrWrongAmount =>
                    "NFT token account is empty or does not hold exactly one NFT."@,
                ErrorCode::AmountOverflow => "Amount calculation overflowed."@,
            },
    {
        match self {
            ErrorCode::NftAccountEmptyOrWrongAmount =>
                "NFT token account is empty or does not hold exactly one NFT.",
            ErrorCode::AmountOverflow => "Amount calculation overflowed.",
        }
    }
}

/// What the NFT exchange instruction reads.
#[derive(Clone, Copy, Debug, PartialEq, Eq)]
pub struct ExchangeNFTForTokens {
    /// The signer allowed to mint the fungible token.
    pub mint_authority: Pubkey,
    /// The fungible token's mint.
    pub fungible_mint: Pubkey,
    /// The fungible mint's number of decimals.
    pub fungible_mint_decimals: u8,
    /// The investor, who signs and receives the tokens.
    pub investor: Pubkey,
    /// The investor's token account for the fungible mint.
    pub associated_token_account: Pubkey,
    /// The mint of the investor's NFT.
    pub nft_mint: Pubkey,
    /// The investor's token account holding the NFT.
    pub nft_token_account: Pubkey,
    /// The balance of `nft_token_account`.
    pub nft_token_account_amount: u64,
}

impl ExchangeNFTForTokens {
    /// The accounts' constraint: the NFT account holds exactly one token.
    pub fn nft_amount_constraint(&self) -> (ok: bool)
        ensures
            ok == (self.nft_token_account_amount == 1),
    {
        self.nft_token_account_amount == 1
    }
}

/// The operations of the exchange: burn the NFT, then mint `amount` whole
/// tokens (scaled by the mint's decimals) to the investor.
pub open spec fn exchange_ops(ctx: ExchangeNFTForTokens, amount: u64) -> Seq<TokenOperation> {
    seq![
        TokenOperation::Burn {
            mint: ctx.nft_mint,
            from: ctx.nft_token_account,
            authority: ctx.investor,
            amount: 1,
        },
        TokenOperation::MintTo {
            mint: ctx.fungible_mint,
            to: ctx.associated_token_account,
            authority: ctx.mint_authority,
            amount: native_total(amount, ctx.fungible_mint_decimals),
        },
    ]
}

/// Exchanges the investor's NFT for `amount` whole fungible tokens.
pub fn exchange_nft_for_tokens(ctx: &ExchangeNFTForTokens, amount: u64) -> (ops: Vec<
    TokenOperation,
>)
    requires
        native_amount_fits(amount, ctx.fungible_mint_decimals),
    ensures
        ops@ == exchange_ops(*ctx, amount),
{
    let mut ops: Vec<TokenOperation> = Vec::new();
    ops.push(
        TokenOperation::Burn {
            mint: ctx.nft_mint,
            from: ctx.nft_token_account,
            authority: ctx.investor,
            amount: 1,
        },
    );
    let minted = native_amount(amount, ctx.fungible_mint_decimals);
    ops.push(
        TokenOperation::MintTo {
            mint: ctx.fungible_mint,
            to: ctx.associated_token_account,
            authority: ctx.mint_authority,
            amount: minted,
        },
    );
    assert(ops@ =~= exchange_ops(*ctx, amount));
    ops
}

/// The exchange burns exactly one NFT and mints exactly `amount` whole
/// tokens in the mint's smallest unit (`amount * 10^decimals`) of the
/// fungible mint, by the mint authority, into the investor's account.
pub proof fn lemma_exchange_totals(ctx: ExchangeNFTForTokens, amount: u64)
    requires
        native_amount_fits(amount, ctx.fungible_mint_decimals),
    ensures
        burned_total(exchange_ops(ctx, amount), ctx.nft_mint) == 1,
        minted_total(exchange_ops(ctx, amount)) == native_total(amount, ctx.fungible_mint_decimals),
        minted_to(exchange_ops(ctx, amount), ctx.associated_token_account) == amount * pow10(
            ctx.fungible_mint_decimals as nat,
        ),
        exchange_ops(ctx, amount)[1] matches TokenOperation::MintTo { mint, authority, .. } && mint
            == ctx.fungible_mint && authority == ctx.mint_authority,
{
    let ops = exchange_ops(ctx, amount);
    let first = ops.drop_last();
    assert(first.drop_last() =~= Seq::<TokenOperation>::empty());
    assert(minted_total(first.drop_last()) == 0);
    assert(burned_total(first.drop_last(), ctx.nft_mint) == 0);
    assert(minted_total(first) == 0);
    assert(burned_total(first, ctx.nft_mint) == 1);
    assert(minted_to(first.drop_last(), ctx.associated_token_account) == 0);
    assert(minted_to(first, ctx.associated_token_account) == 0);
}

} // verus!
