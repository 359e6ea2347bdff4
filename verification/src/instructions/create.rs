use vstd::prelude::*;

use crate::pubkey::Pubkey;

verus! {

/// The number of decimals of a mint that `create_token` creates.
pub const MINT_DECIMALS: u8 = 9;

/// What the token creation instruction reads.
#[derive(Clone, Copy, Debug, PartialEq, Eq)]
pub struct CreateToken {
    /// The payer, who also becomes mint, freeze and update authority.
    pub payer: Pubkey,
    /// The new mint.
    pub mint_account: Pubkey,
    /// The metadata account of the new mint.
    pub metadata_account: Pubkey,
}

/// The descriptive data of a token's metadata (no creators, no
/// collection, no limited uses).
#[derive(Clone, Debug, PartialEq, Eq)]
pub struct TokenMetadata {
    pub name: String,
    pub symbol: String,
    pub uri: String,
    /// The royalty on sales, in basis points.
    pub seller_fee_basis_points: u16,
}

/// A call that creates a mint's metadata account.
#[derive(Clone, Debug, PartialEq, Eq)]
pub struct CreateMetadataAccounts {
    pub metadata: Pubkey,
    pub mint: Pubkey,
    pub mint_authority: Pubkey,
    pub payer: Pubkey,
    pub update_authority: Pubkey,
    pub data: TokenMetadata,
    pub is_mutable: bool,
    pub update_authority_is_signer: bool,
}

/// Describes the metadata account of a new token: named `token_name`, with
/// symbol `token_symbol` and metadata at `token_uri`, no royalties, mutable,
/// with the payer as every authority.
pub fn create_token(
    ctx: &CreateToken,
    token_name: String,
    token_symbol: String,
    token_uri: String,
) -> (call: CreateMetadataAccounts)
    ensures
        call.metadata == ctx.metadata_account,
        call.mint == ctx.mint_account,
        call.mint_authority == ctx.payer,
        call.payer == ctx.payer,
        call.update_authority == ctx.payer,
        call.data.name@ == token_name@,
        call.data.symbol@ == token_symbol@,
        call.data.uri@ == token_uri@,
        call.data.seller_fee_basis_points == 0,
        call.is_mutable,
        call.update_authority_is_signer,
{
    CreateMetadataAccounts {
        metadata: ctx.metadata_account,
        mint: ctx.mint_account,
        mint_authority: ctx.payer,
        payer: ctx.payer,
        update_authority: ctx.payer,
        data: TokenMetadata {
            name: token_name,
            symbol: token_symbol,
            uri: token_uri,
            seller_fee_basis_points: 0,
        },
        is_mutable: true,
        update_authority_is_signer: true,
    }
}

} // verus!
