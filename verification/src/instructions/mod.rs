//! The program's instructions: for each, what it reads, what it decides, and
//! the token operations it asks for.

pub mod claim;
pub mod vesting;
pub mod start_vesting_from_vault;
pub mod burn_nft;
pub mod create;
pub mod exchange_nft_for_tokens;
