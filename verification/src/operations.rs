use vstd::prelude::*;

use crate::pubkey::Pubkey;
use vstd::string::StringSliceAdditionalSpecFns;

verus! {

/// The bytes of an ASCII seed tag, as `str::as_bytes` gives them.
pub open spec fn tag_bytes(tag: &str) -> Seq<u8> {
    tag.spec_bytes()
}

/// A byte vector's deep view is its view.
proof fn lemma_bytes_deep_view(v: Vec<u8>)
    ensures
        v.deep_view() == v@,
{
    assert(v.deep_view() =~= v@);
}

/// A vector holding the single byte `b`.
fn single_byte(b: u8) -> (v: Vec<u8>)
    ensures
        v@ == seq![b],
{
    let mut v: Vec<u8> = Vec::new();
    v.push(b);
    assert(v@ =~= seq![b]);
    v
}

/// The program-derived authority that signs a transfer, with the bump seed
/// that completes its address.
#[derive(Clone, Copy, Debug, PartialEq, Eq)]
pub enum Signer {
    /// The authority of one beneficiary's vesting vault.
    VaultAuthority { beneficiary: Pubkey, mint: Pubkey, bump: u8 },
    /// The authority of the program's main vault for one mint.
    MainVaultAuthority { mint: Pubkey, bump: u8 },
}

/// The seeds of a beneficiary's vault authority, bump excluded.
pub open spec fn vault_authority_seeds_spec(beneficiary: Pubkey, mint: Pubkey) -> Seq<Seq<u8>> {
    seq![tag_bytes("vault_authority"), beneficiary@, mint@]
}

/// The seeds of the main vault authority of a mint, bump excluded.
pub open spec fn main_vault_authority_seeds_spec(mint: Pubkey) -> Seq<Seq<u8>> {
    seq![tag_bytes("main_vault_authority"), mint@]
}

/// The seeds of the main vault authority of a mint, bump excluded.
pub fn main_vault_authority_seeds(mint: &Pubkey) -> (seeds: Vec<Vec<u8>>)
    ensures
        seeds.deep_view() == main_vault_authority_seeds_spec(*mint),
        seeds@.len() == 2,
        seeds@[0]@ == tag_bytes("main_vault_authority"),
        seeds@[1]@ == mint@,
{
    let tag = "main_vault_authority".as_bytes_vec();
    let mut seeds: Vec<Vec<u8>> = Vec::new();
    seeds.push(tag);
    seeds.push(mint.to_vec());
    proof {
        lemma_bytes_deep_view(seeds@[0]);
        lemma_bytes_deep_view(seeds@[1]);
    }
    assert(seeds.deep_view() =~= main_vault_authority_seeds_spec(*mint));
    seeds
}

impl Signer {
    /// The full signer seeds: the authority's seeds followed by the bump.
    pub open spec fn seeds_spec(&self) -> Seq<Seq<u8>> {
        match *self {
            Signer::VaultAuthority { beneficiary, mint, bump } => vault_authority_seeds_spec(
                beneficiary,
                mint,
            ).push(seq![bump]),
            Signer::MainVaultAuthority { mint, bump } => main_vault_authority_seeds_spec(
                mint,
            ).push(seq![bump]),
        }
    }

    /// The signer seeds to hand to the token program with the transfer.
    pub fn seeds(&self) -> (seeds: Vec<Vec<u8>>)
        ensures
            seeds.deep_view() == self.seeds_spec(),
    {
        match self {
            Signer::VaultAuthority { beneficiary, mint, bump } => {
                let mut seeds: Vec<Vec<u8>> = Vec::new();
                seeds.push("vault_authority".as_bytes_vec());
                seeds.push(beneficiary.to_vec());
                seeds.push(mint.to_vec());
                seeds.push(single_byte(*bump));
                proof {
                    lemma_bytes_deep_view(seeds@[0]);
                    lemma_bytes_deep_view(seeds@[1]);
                    lemma_bytes_deep_view(seeds@[2]);
                    lemma_bytes_deep_view(seeds@[3]);
                }
                assert(seeds.deep_view() =~= self.seeds_spec());
                seeds
            },
            Signer::MainVaultAuthority { mint, bump } => {
                let mut seeds = main_vault_authority_seeds(mint);
                seeds.push(single_byte(*bump));
                proof {
                    lemma_bytes_deep_view(seeds@[0]);
                    lemma_bytes_deep_view(seeds@[1]);
                    lemma_bytes_deep_view(seeds@[2]);
                }
                assert(seeds.deep_view() =~= self.seeds_spec());
                seeds
            },
        }
    }
}

/// One call of the SPL token program that an instruction asks for.
#[derive(Clone, Copy, Debug, PartialEq, Eq)]
pub enum TokenOperation {
    /// Burn `amount` tokens of `mint` held in `from`, signed by `authority`.
    Burn { mint: Pubkey, from: Pubkey, authority: Pubkey, amount: u64 },
    /// Mint `amount` new tokens of `mint` into `to`, signed by `authority`.
    MintTo { mint: Pubkey, to: Pubkey, authority: Pubkey, amount: u64 },
    /// Move `amount` tokens from `from` to `to`; `authority` is the
    /// program-derived address that `signer` describes.
    Transfer { from: Pubkey, to: Pubkey, authority: Pubkey, amount: u64, signer: Signer },
    /// Close the token account `account`, sending its rent to `destination`.
    CloseAccount { account: Pubkey, destination: Pubkey, authority: Pubkey },
}

/// The total that a sequence of operations mints.
pub open spec fn minted_total(ops: Seq<TokenOperation>) -> int
    decreases ops.len(),
{
    if ops.len() == 0 {
        0
    } else {
        minted_total(ops.drop_last()) + match ops.last() {
            TokenOperation::MintTo { amount, .. } => amount as int,
            _ => 0,
        }
    }
}

/// The total that a sequence of operations transfers out of `source`.
pub open spec fn transferred_from(ops: Seq<TokenOperation>, source: Pubkey) -> int
    decreases ops.len(),
{
    if ops.len() == 0 {
        0
    } else {
        transferred_from(ops.drop_last(), source) + match ops.last() {
            TokenOperation::Transfer { from, amount, .. } => if from == source {
                amount as int
            } else {
                0
            },
            _ => 0,
        }
    }
}

/// The total that a sequence of operations burns of `mint`.
pub open spec fn burned_total(ops: Seq<TokenOperation>, mint: Pubkey) -> int
    decreases ops.len(),
{
    if ops.len() == 0 {
        0
    } else {
        burned_total(ops.drop_last(), mint) + match ops.last() {
            TokenOperation::Burn { mint: m, amount, .. } => if m == mint {
                amount as int
            } else {
                0
            },
            _ => 0,
        }
    }
}

/// The total that a sequence of operations mints into `dest`.
pub open spec fn minted_to(ops: Seq<TokenOperation>, dest: Pubkey) -> int
    decreases ops.len(),
{
    if ops.len() == 0 {
        0
    } else {
        minted_to(ops.drop_last(), dest) + match ops.last() {
            TokenOperation::MintTo { to, amount, .. } => if to == dest {
                amount as int
            } else {
                0
            },
            _ => 0,
        }
    }
}

/// The total that a sequence of operations transfers into `dest`.
pub open spec fn transferred_to(ops: Seq<TokenOperation>, dest: Pubkey) -> int
    decreases ops.len(),
{
    if ops.len() == 0 {
        0
    } else {
        transferred_to(ops.drop_last(), dest) + match ops.last() {
            TokenOperation::Transfer { to, amount, .. } => if to == dest {
                amount as int
            } else {
                0
            },
            _ => 0,
        }
    }
}

} // verus!
