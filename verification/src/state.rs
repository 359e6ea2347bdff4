use vstd::prelude::*;

use crate::pubkey::Pubkey;

verus! {

/// The record the program keeps for one beneficiary's vesting schedule.
#[derive(Clone, Copy, Debug, PartialEq, Eq)]
pub struct VestingAccount {
    /// Who may claim the vested tokens.
    pub beneficiary: Pubkey,
    /// The fungible token being vested.
    pub mint: Pubkey,
    /// The vault that holds the locked tokens.
    pub token_account: Pubkey,
    /// The amount that vests linearly, in the mint's smallest unit.
    pub total_amount: u64,
    /// When vesting starts (Unix seconds).
    pub start_time: i64,
    /// How long vesting lasts, in seconds.
    pub duration: u64,
    /// How much has already been claimed.
    pub released_amount: u64,
    /// How much was handed out at the token generation event.
    pub tge_amount: u64,
}

impl VestingAccount {
    /// Bytes of account data reserved for the record, discriminator excluded.
    pub const LEN: usize = 8 + 32 + 32 + 32 + 8 + 8 + 8 + 8 + 8;

    /// The schedule never counts more as released than it vests.
    pub open spec fn wf(&self) -> bool {
        self.released_amount <= self.total_amount
    }
}

/// The vesting record a new schedule starts with.
pub open spec fn new_vesting_account(
    beneficiary: Pubkey,
    mint: Pubkey,
    vault: Pubkey,
    tge: u64,
    vesting: u64,
    start: i64,
    duration: u64,
) -> VestingAccount {
    VestingAccount {
        beneficiary: beneficiary,
        mint: mint,
        token_account: vault,
        total_amount: vesting,
        start_time: start,
        duration: duration,
        released_amount: 0,
        tge_amount: tge,
    }
}

impl Default for VestingAccount {
    fn default() -> (a: VestingAccount)
        ensures
            a.beneficiary@ == Seq::new(32, |i: int| 0u8),
            a.mint@ == Seq::new(32, |i: int| 0u8),
            a.token_account@ == Seq::new(32, |i: int| 0u8),
            a.total_amount == 0,
            a.start_time == 0,
            a.duration == 0,
            a.released_amount == 0,
            a.tge_amount == 0,
    {
        VestingAccount {
            beneficiary: Pubkey::default(),
            mint: Pubkey::default(),
            token_account: Pubkey::default(),
            total_amount: 0,
            start_time: 0,
            duration: 0,
            released_amount: 0,
            tge_amount: 0,
        }
    }
}

} // verus!
