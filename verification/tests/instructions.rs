use mint_spl_token::instructions::burn_nft::{burn_nft, BurnNft};
use mint_spl_token::instructions::claim::{claim, ClaimRefusal, ClaimVestedTokens};
use mint_spl_token::instructions::create::{create_token, CreateToken, MINT_DECIMALS};
use mint_spl_token::instructions::exchange_nft_for_tokens::{
    exchange_nft_for_tokens, ErrorCode as ExchangeError, ExchangeNFTForTokens,
};
use mint_spl_token::instructions::start_vesting_from_vault::{
    claim_vested_tokens as claim_from_vault, start_vesting_from_vault,
    start_vesting_from_vault_with_bump, ErrorCode as VaultError, StartVestingFromVault,
};
use mint_spl_token::instructions::vesting::{
    claim_vested_tokens, investor_vesting_tokens, ErrorCode, InvestorVestingTokens,
};
use mint_spl_token::operations::{main_vault_authority_seeds, Signer, TokenOperation};
use mint_spl_token::pubkey::Pubkey;
use mint_spl_token::state::VestingAccount;

fn key(b: u8) -> Pubkey {
    Pubkey([b; 32])
}

fn schedule(beneficiary: Pubkey, total: u64, start: i64, duration: u64, released: u64) -> VestingAccount {
    VestingAccount {
        beneficiary,
        mint: key(2),
        token_account: key(3),
        total_amount: total,
        start_time: start,
        duration,
        released_amount: released,
        tge_amount: 7,
    }
}

fn claim_ctx(signer: Pubkey, account: VestingAccount) -> ClaimVestedTokens {
    ClaimVestedTokens {
        beneficiary: signer,
        vesting_account: account,
        vault_authority: key(10),
        vault_authority_bump: 254,
        vesting_vault: key(11),
        beneficiary_token_account: key(12),
    }
}

fn investor_ctx(decimals: u8) -> InvestorVestingTokens {
    InvestorVestingTokens {
        mint_authority: key(20),
        fungible_mint: key(21),
        fungible_mint_decimals: decimals,
        investor: key(22),
        associated_token_account: key(23),
        nft_mint: key(24),
        nft_token_account: key(25),
        vesting_account: VestingAccount::default(),
        vault_authority: key(26),
        vesting_vault: key(27),
    }
}

fn vault_ctx(decimals: u8, balance: u64) -> StartVestingFromVault {
    StartVestingFromVault {
        program_id: key(30),
        fungible_mint: key(31),
        fungible_mint_decimals: decimals,
        investor: key(32),
        associated_token_account: key(33),
        main_token_vault: key(34),
        main_token_vault_amount: balance,
        main_vault_authority: key(35),
        vesting_account: VestingAccount::default(),
        vault_authority: key(36),
        vesting_vault: key(37),
    }
}

#[test]
fn pubkey_equality_and_bytes() {
    assert!(key(1) == key(1));
    assert!(key(1) != key(2));
    let mut bytes = [0u8; 32];
    bytes[31] = 9;
    let k = Pubkey::new_from_array(bytes);
    assert!(k != Pubkey::default());
    assert_eq!(k.to_bytes(), bytes);
    assert_eq!(k.to_vec(), bytes.to_vec());
}

#[test]
fn vesting_account_layout_and_default() {
    assert_eq!(VestingAccount::LEN, 144);
    let d = VestingAccount::default();
    assert_eq!(d.beneficiary, Pubkey([0u8; 32]));
    assert_eq!(d.total_amount, 0);
    assert_eq!(d.released_amount, 0);
    assert_eq!(d.start_time, 0);
}

#[test]
fn claim_pays_vested_amount() {
    let mut ctx = claim_ctx(key(1), schedule(key(1), 1000, 100, 1000, 0));
    let op = claim_vested_tokens(&mut ctx, 600).unwrap();
    assert_eq!(
        op,
        TokenOperation::Transfer {
            from: key(11),
            to: key(12),
            authority: key(10),
            amount: 500,
            signer: Signer::VaultAuthority { beneficiary: key(1), mint: key(2), bump: 254 },
        }
    );
    assert_eq!(ctx.vesting_account.released_amount, 500);
    assert_eq!(ctx.vesting_account.total_amount, 1000);
}

#[test]
fn claim_twice_same_time_finds_nothing() {
    let mut ctx = claim_ctx(key(1), schedule(key(1), 1000, 100, 1000, 0));
    assert!(claim_vested_tokens(&mut ctx, 600).is_ok());
    let before = ctx;
    assert_eq!(claim_vested_tokens(&mut ctx, 600), Err(ErrorCode::NothingToClaim));
    assert_eq!(ctx, before);
}

#[test]
fn claims_add_up_to_vested_amount() {
    let mut ctx = claim_ctx(key(1), schedule(key(1), 1000, 100, 1000, 0));
    let mut paid = 0u64;
    for t in [200i64, 350, 351, 900, 2000] {
        if let Ok(TokenOperation::Transfer { amount, .. }) = claim_vested_tokens(&mut ctx, t) {
            paid += amount;
        }
    }
    assert_eq!(paid, 1000);
    assert_eq!(ctx.vesting_account.released_amount, 1000);
    assert_eq!(claim_vested_tokens(&mut ctx, 5000), Err(ErrorCode::NothingToClaim));
}

#[test]
fn claim_by_other_signer_is_refused() {
    let mut ctx = claim_ctx(key(9), schedule(key(1), 1000, 100, 1000, 0));
    let before = ctx;
    assert_eq!(claim_vested_tokens(&mut ctx, 600), Err(ErrorCode::BeneficiaryNotFound));
    assert_eq!(ctx, before);
    let mut ctx2 = ctx;
    assert_eq!(claim_from_vault(&mut ctx2, 600), Err(VaultError::BeneficiaryNotFound));
    assert_eq!(claim(&mut ctx2, 600), Err(ClaimRefusal::BeneficiaryNotFound));
}

#[test]
fn claim_before_start_has_nothing() {
    let mut ctx = claim_ctx(key(1), schedule(key(1), 1000, 100, 1000, 0));
    assert_eq!(claim_vested_tokens(&mut ctx, 100), Err(ErrorCode::NothingToClaim));
    assert_eq!(claim_from_vault(&mut ctx, 50), Err(VaultError::NothingToClaim));
}

#[test]
fn claim_with_more_released_than_vested_is_an_error() {
    let mut ctx = claim_ctx(key(1), schedule(key(1), 1000, 100, 1000, 600));
    let before = ctx;
    assert_eq!(claim_vested_tokens(&mut ctx, 600), Err(ErrorCode::AmountCalculationError));
    assert_eq!(ctx, before);
    assert_eq!(claim_from_vault(&mut ctx, 600), Err(VaultError::AmountCalculationError));
}

#[test]
fn investor_vesting_splits_and_mints() {
    let mut ctx = investor_ctx(6);
    let ops = investor_vesting_tokens(&mut ctx, 1000, 3600, 1000, 1_700_000_000).unwrap();
    assert_eq!(
        ops,
        vec![
            TokenOperation::Burn { mint: key(24), from: key(25), authority: key(22), amount: 1 },
            TokenOperation::MintTo {
                mint: key(21),
                to: key(23),
                authority: key(20),
                amount: 100_000_000
            },
            TokenOperation::MintTo {
                mint: key(21),
                to: key(27),
                authority: key(20),
                amount: 900_000_000
            },
        ]
    );
    assert_eq!(
        ctx.vesting_account,
        VestingAccount {
            beneficiary: key(22),
            mint: key(21),
            token_account: key(27),
            total_amount: 900_000_000,
            start_time: 1_700_000_000,
            duration: 3600,
            released_amount: 0,
            tge_amount: 100_000_000,
        }
    );
}

#[test]
fn investor_vesting_skips_empty_mints() {
    let mut ctx = investor_ctx(0);
    let ops = investor_vesting_tokens(&mut ctx, 50, 10, 0, 5).unwrap();
    assert_eq!(ops.len(), 2);
    assert_eq!(
        ops[1],
        TokenOperation::MintTo { mint: key(21), to: key(27), authority: key(20), amount: 50 }
    );
    let mut ctx = investor_ctx(0);
    let ops = investor_vesting_tokens(&mut ctx, 50, 10, 10000, 5).unwrap();
    assert_eq!(ops.len(), 2);
    assert_eq!(
        ops[1],
        TokenOperation::MintTo { mint: key(21), to: key(23), authority: key(20), amount: 50 }
    );
    assert_eq!(ctx.vesting_account.total_amount, 0);
    assert_eq!(ctx.vesting_account.tge_amount, 50);
    let mut ctx = investor_ctx(3);
    let ops = investor_vesting_tokens(&mut ctx, 0, 10, 500, 5).unwrap();
    assert_eq!(ops.len(), 1);
}

#[test]
fn investor_vesting_refuses_share_above_total() {
    let mut ctx = investor_ctx(6);
    let before = ctx;
    assert_eq!(
        investor_vesting_tokens(&mut ctx, 1000, 3600, 20000, 1),
        Err(ErrorCode::AmountCalculationError)
    );
    assert_eq!(ctx, before);
}

#[test]
fn investor_vesting_then_claims() {
    let mut ctx = investor_ctx(2);
    investor_vesting_tokens(&mut ctx, 100, 100, 2000, 1000).unwrap();
    let mut claim = claim_ctx(key(22), ctx.vesting_account);
    let op = claim_vested_tokens(&mut claim, 1050).unwrap();
    match op {
        TokenOperation::Transfer { amount, .. } => assert_eq!(amount, 4000),
        _ => panic!("expected a transfer"),
    }
    assert_eq!(claim_vested_tokens(&mut claim, 1100), Ok(claim_transfer_amount(&claim, 4000)));
}

fn claim_transfer_amount(ctx: &ClaimVestedTokens, amount: u64) -> TokenOperation {
    TokenOperation::Transfer {
        from: ctx.vesting_vault,
        to: ctx.beneficiary_token_account,
        authority: ctx.vault_authority,
        amount,
        signer: Signer::VaultAuthority {
            beneficiary: ctx.vesting_account.beneficiary,
            mint: ctx.vesting_account.mint,
            bump: ctx.vault_authority_bump,
        },
    }
}

#[test]
fn start_vesting_uses_program_derived_bump() {
    let mut ctx = vault_ctx(3, 10_000_000);
    let ops = start_vesting_from_vault(&mut ctx, 1000, 86_400, 2500, 42).unwrap();
    let program_id = anchor_lang::prelude::Pubkey::new_from_array([30u8; 32]);
    let (_, bump) = anchor_lang::prelude::Pubkey::find_program_address(
        &[b"main_vault_authority", &[31u8; 32]],
        &program_id,
    );
    let signer = Signer::MainVaultAuthority { mint: key(31), bump };
    assert_eq!(
        ops,
        vec![
            TokenOperation::Transfer {
                from: key(34),
                to: key(33),
                authority: key(35),
                amount: 250_000,
                signer,
            },
            TokenOperation::Transfer {
                from: key(34),
                to: key(37),
                authority: key(35),
                amount: 750_000,
                signer,
            },
        ]
    );
    assert_eq!(ctx.vesting_account.total_amount, 750_000);
    assert_eq!(ctx.vesting_account.tge_amount, 250_000);
    assert_eq!(ctx.vesting_account.beneficiary, key(32));
    assert_eq!(ctx.vesting_account.token_account, key(37));
    assert_eq!(ctx.vesting_account.start_time, 42);
    assert_eq!(ctx.vesting_account.duration, 86_400);
    assert_eq!(ctx.vesting_account.released_amount, 0);
}

#[test]
fn start_vesting_needs_funds() {
    let mut ctx = vault_ctx(3, 999_999);
    let before = ctx;
    assert_eq!(
        start_vesting_from_vault(&mut ctx, 1000, 86_400, 2500, 42),
        Err(VaultError::InsufficientFundsInMainVault)
    );
    assert_eq!(ctx, before);
    let mut ctx = vault_ctx(3, 1_000_000);
    assert!(start_vesting_from_vault(&mut ctx, 1000, 86_400, 2500, 42).is_ok());
}

#[test]
fn start_vesting_error_order() {
    let mut ctx = vault_ctx(0, 0);
    assert_eq!(
        start_vesting_from_vault_with_bump(&mut ctx, 1000, 1, 20000, 0, None),
        Err(VaultError::AmountCalculationError)
    );
    assert_eq!(
        start_vesting_from_vault_with_bump(&mut ctx, 1000, 1, 100, 0, None),
        Err(VaultError::InsufficientFundsInMainVault)
    );
    let mut ctx = vault_ctx(0, 1000);
    assert_eq!(
        start_vesting_from_vault_with_bump(&mut ctx, 1000, 1, 100, 0, None),
        Err(VaultError::BumpSeedNotFound)
    );
    let ops = start_vesting_from_vault_with_bump(&mut ctx, 1000, 1, 0, 0, Some(200)).unwrap();
    assert_eq!(
        ops,
        vec![TokenOperation::Transfer {
            from: key(34),
            to: key(37),
            authority: key(35),
            amount: 1000,
            signer: Signer::MainVaultAuthority { mint: key(31), bump: 200 },
        }]
    );
}

#[test]
fn signer_seeds_bytes() {
    let v = Signer::VaultAuthority { beneficiary: key(1), mint: key(2), bump: 250 };
    assert_eq!(
        v.seeds(),
        vec![b"vault_authority".to_vec(), vec![1u8; 32], vec![2u8; 32], vec![250u8]]
    );
    let m = Signer::MainVaultAuthority { mint: key(5), bump: 7 };
    assert_eq!(m.seeds(), vec![b"main_vault_authority".to_vec(), vec![5u8; 32], vec![7u8]]);
    assert_eq!(
        main_vault_authority_seeds(&key(5)),
        vec![b"main_vault_authority".to_vec(), vec![5u8; 32]]
    );
}

#[test]
fn exchange_burns_then_mints_scaled_amount() {
    let ctx = ExchangeNFTForTokens {
        mint_authority: key(40),
        fungible_mint: key(41),
        fungible_mint_decimals: 9,
        investor: key(42),
        associated_token_account: key(43),
        nft_mint: key(44),
        nft_token_account: key(45),
        nft_token_account_amount: 1,
    };
    assert!(ctx.nft_amount_constraint());
    let ops = exchange_nft_for_tokens(&ctx, 12);
    assert_eq!(
        ops,
        vec![
            TokenOperation::Burn { mint: key(44), from: key(45), authority: key(42), amount: 1 },
            TokenOperation::MintTo {
                mint: key(41),
                to: key(43),
                authority: key(40),
                amount: 12_000_000_000
            },
        ]
    );
    let empty = ExchangeNFTForTokens { nft_token_account_amount: 0, ..ctx };
    assert!(!empty.nft_amount_constraint());
}

#[test]
fn burn_nft_burns_and_closes() {
    let ctx = BurnNft {
        investor: key(50),
        nft_mint: key(51),
        nft_token_account: key(52),
        nft_token_account_amount: 1,
    };
    assert!(ctx.nft_amount_constraint());
    assert_eq!(
        burn_nft(&ctx),
        vec![
            TokenOperation::Burn { mint: key(51), from: key(52), authority: key(50), amount: 1 },
            TokenOperation::CloseAccount {
                account: key(52),
                destination: key(50),
                authority: key(50)
            },
        ]
    );
    let two = BurnNft { nft_token_account_amount: 2, ..ctx };
    assert!(!two.nft_amount_constraint());
}

#[test]
fn create_token_describes_metadata() {
    let ctx = CreateToken { payer: key(60), mint_account: key(61), metadata_account: key(62) };
    let call = create_token(&ctx, "Gold".to_string(), "GLD".to_string(), "https://x/y.json".to_string());
    assert_eq!(call.metadata, key(62));
    assert_eq!(call.mint, key(61));
    assert_eq!(call.mint_authority, key(60));
    assert_eq!(call.payer, key(60));
    assert_eq!(call.update_authority, key(60));
    assert_eq!(call.data.name, "Gold");
    assert_eq!(call.data.symbol, "GLD");
    assert_eq!(call.data.uri, "https://x/y.json");
    assert_eq!(call.data.seller_fee_basis_points, 0);
    assert!(call.is_mutable);
    assert!(call.update_authority_is_signer);
    assert_eq!(MINT_DECIMALS, 9);
}

#[test]
fn error_codes_and_messages() {
    assert_eq!(ErrorCode::NftAccountEmptyOrWrongAmount.code(), 6000);
    assert_eq!(ErrorCode::AmountCalculationError.code(), 6002);
    assert_eq!(ErrorCode::BeneficiaryNotFound.code(), 6004);
    assert_eq!(ErrorCode::NothingToClaim.message(), "Nothing to claim.");
    assert_eq!(VaultError::InsufficientFundsInMainVault.code(), 6005);
    assert_eq!(VaultError::BumpSeedNotFound.code(), 6006);
    assert_eq!(VaultError::BumpSeedNotFound.message(), "Bump seed not found in context.");
    assert_eq!(ExchangeError::AmountOverflow.code(), 6001);
    assert_eq!(ExchangeError::AmountOverflow.message(), "Amount calculation overflowed.");
}
