//! Token minting and linear vesting rules of the `mint_spl_token` program:
//! the amounts it mints or moves, the vesting schedule it keeps, and the
//! token operations each instruction asks the token program to perform.

pub mod amounts;
pub mod pubkey;
pub mod state;
pub mod schedule;
pub mod operations;
pub mod instructions;
