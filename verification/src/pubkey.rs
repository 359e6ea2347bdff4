use vstd::prelude::*;

verus! {

/// A 32-byte account address, held as plain bytes.
#[derive(Clone, Copy, Debug)]
pub struct Pubkey(pub [u8; 32]);

impl View for Pubkey {
    type V = Seq<u8>;

    open spec fn view(&self) -> Seq<u8> {
        self.0@
    }
}

impl Pubkey {
    /// The address made of the given bytes.
    pub fn new_from_array(bytes: [u8; 32]) -> (key: Pubkey)
        ensures
            key@ == bytes@,
    {
        Pubkey(bytes)
    }

    /// The address's bytes.
    pub fn to_bytes(&self) -> (bytes: [u8; 32])
        ensures
            bytes@ == self@,
    {
        self.0
    }

    /// The address's bytes as a vector, in order.
    pub fn to_vec(&self) -> (v: Vec<u8>)
        ensures
            v@ == self@,
    {
        let mut v: Vec<u8> = Vec::new();
        let mut i: usize = 0;
        while i < 32
            invariant
                i <= 32,
                self@.len() == 32,
                v@ == self@.subrange(0, i as int),
            decreases 32 - i,
        {
            v.push(self.0[i]);
            i = i + 1;
        }
        assert(v@ =~= self@);
        v
    }
}

impl PartialEq for Pubkey {
    fn eq(&self, other: &Self) -> (r: bool) {
        let mut i: usize = 0;
        while i < 32
            invariant
                i <= 32,
                self@.len() == 32,
                other@.len() == 32,
                forall|j: int| 0 <= j < i ==> self@[j] == other@[j],
            decreases 32 - i,
        {
            if self.0[i] != other.0[i] {
                return false;
            }
            i = i + 1;
        }
        assert(self@ =~= other@);
        true
    }
}

impl vstd::std_specs::cmp::PartialEqSpecImpl for Pubkey {
    open spec fn obeys_eq_spec() -> bool {
        true
    }

    open spec fn eq_spec(&self, other: &Pubkey) -> bool {
        self@ == other@
    }
}

impl Eq for Pubkey {
}

impl Default for Pubkey {
    fn default() -> (key: Pubkey)
        ensures
            key@ == Seq::new(32, |i: int| 0u8),
    {
        let key = Pubkey([0u8; 32]);
        assert(key@ =~= Seq::new(32, |i: int| 0u8));
        key
    }
}

/// The program-derived address, with its bump seed, that Solana's address
/// search finds for these seeds under this program id; `None` where none
/// is found.
pub uninterp spec fn program_address(seeds: Seq<Seq<u8>>, program_id: Seq<u8>) -> Option<
    (Seq<u8>, u8),
>;

/// Calls `Pubkey::try_find_program_address` of the Solana SDK (re-exported
/// by `anchor_lang`) on the given seeds and program id. The contract claims
/// only that the outcome is a function of the seeds and the program id,
/// named `program_address`: the search hashes the seeds and the program id
/// with SHA-256 and skips hashes on the ed25519 curve, which is not stated
/// here.
#[verifier::external_body]
pub(crate) fn try_find_program_address(seeds: &Vec<Vec<u8>>, program_id: &Pubkey) -> (r: Option<
    (Pubkey, u8),
>)
    ensures
        match r {
            Some((key, bump)) => program_address(seeds.deep_view(), program_id@) == Some(
                (key@, bump),
            ),
            None => program_address(seeds.deep_view(), program_id@) is None,
        },
{
    let slices: Vec<&[u8]> = seeds.iter().map(|s| s.as_slice()).collect();
    let id = anchor_lang::prelude::Pubkey::new_from_array(program_id.0);
    anchor_lang::prelude::Pubkey::try_find_program_address(&slices, &id).map(
        |(key, bump)| (Pubkey(key.to_bytes()), bump),
    )
}

} // verus!
