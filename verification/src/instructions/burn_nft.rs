use vstd::prelude::*;

use crate::operations::TokenOperation;
use crate::pubkey::Pubkey;

verus! {

/// What the NFT burn instruction reads.
#[derive(Clone, Copy, Debug, PartialEq, Eq)]
pub struct BurnNft {
    /// The investor, who signs and owns the NFT.
    pub investor: Pubkey,
    /// The mint of the NFT.
    pub nft_mint: Pubkey,
    /// The investor's token account holding the NFT.
    pub nft_token_account: Pubkey,
    /// The balance of `nft_token_account`.
    pub nft_token_account_amount: u64,
}

impl BurnNft {
    /// The accounts' constraint: the NFT account holds exactly one token.
    pub fn nft_amount_constraint(&self) -> (ok: bool)
        ensures
            ok == (self.nft_token_account_amount == 1),
    {
        self.nft_token_account_amount == 1
    }
}

/// The operations of the burn: burn the one NFT, then close its token
/// account, returning the rent to the investor.
pub open spec fn burn_nft_ops(ctx: BurnNft) -> Seq<TokenOperation> {
    seq![
        TokenOperation::Burn {
            mint: ctx.nft_mint,
            from: ctx.nft_token_account,
            authority: ctx.investor,
            amount: 1,
        },
        TokenOperation::CloseAccount {
            account: ctx.nft_token_account,
            destination: ctx.investor,
            authority: ctx.investor,
        },
    ]
}

/// Burns the investor's NFT and closes the account that held it.
pub fn burn_nft(ctx: &BurnNft) -> (ops: Vec<TokenOperation>)
    ensures
        ops@ == burn_nft_ops(*ctx),
{
    let mut ops: Vec<TokenOperation> = Vec::new();
    ops.push(
        TokenOperation::Burn {
            mint: ctx.nft_mint,
            from: ctx.nft_token_account,
            authority: ctx.investor,
            amount: 1,
        },
    );
    ops.push(
        TokenOperation::CloseAccount {
            account: ctx.nft_token_account,
            destination: ctx.investor,
            authority: ctx.investor,
        },
    );
    assert(ops@ =~= burn_nft_ops(*ctx));
    ops
}

/// The burn destroys exactly one token of the NFT mint from the investor's
/// NFT account, by the investor, and then closes that same account with its
/// rent going back to the investor.
pub proof fn lemma_burn_nft_operations(ctx: BurnNft)
    ensures
        burn_nft_ops(ctx).len() == 2,
        burn_nft_ops(ctx)[0] matches TokenOperation::Burn { mint, from, authority, amount }
            && mint == ctx.nft_mint && from == ctx.nft_token_account && authority == ctx.investor
            && amount == 1,
        burn_nft_ops(ctx)[1] matches TokenOperation::CloseAccount { account, destination, authority }
            && account == ctx.nft_token_account && destination == ctx.investor && authority
            == ctx.investor,
{
}

} // verus!
