use crate::address::Address;
use vstd::prelude::*;

verus! {

/// The bytes of the word "vault", the first seed of every vault's signing authority.
pub const VAULT_SEED: [u8; 5] = [118, 97, 117, 108, 116];

/// The signing authority of a vault over its own custodial holding.
///
/// It is derived from the vault's owner and bump and belongs to that vault
/// alone. It authorizes transfers out of the vault's holding and nothing else.
#[derive(Clone, Copy, Debug, PartialEq, Eq)]
pub struct VaultSigner {
    pub owner: Address,
    pub bump: u8,
}

impl VaultSigner {
    /// The seeds from which the authority is derived: the word "vault", the
    /// owner's bytes, and the bump.
    pub open spec fn seed_bytes(&self) -> Seq<Seq<u8>> {
        seq![VAULT_SEED@, self.owner.bytes@, seq![self.bump]]
    }

    /// The seeds from which the authority is derived, for the service that
    /// checks the vault's signature.
    pub fn seeds(&self) -> (seeds: Vec<Vec<u8>>)
        ensures
            seeds.deep_view() == self.seed_bytes(),
    {
        let mut word: Vec<u8> = Vec::new();
        let mut i: usize = 0;
        while i < 5
            invariant
                i <= 5,
                word@ == VAULT_SEED@.subrange(0, i as int),
            decreases 5 - i,
        {
            word.push(VAULT_SEED[i]);
            i += 1;
        }
        let mut owner: Vec<u8> = Vec::new();
        let mut j: usize = 0;
        while j < 32
            invariant
                j <= 32,
                owner@ == self.owner.bytes@.subrange(0, j as int),
            decreases 32 - j,
        {
            owner.push(self.owner.bytes[j]);
            j += 1;
        }
        let mut bump: Vec<u8> = Vec::new();
        bump.push(self.bump);
        let mut seeds: Vec<Vec<u8>> = Vec::new();
        seeds.push(word);
        seeds.push(owner);
        seeds.push(bump);
        assert(seeds.deep_view() =~~= self.seed_bytes());
        seeds
    }
}

/// An order to the asset-transfer service: move `amount` of `mint` from one
/// holding to another.
#[derive(Clone, Copy, Debug, PartialEq, Eq)]
pub struct TransferOrder {
    /// The holding that is debited.
    pub from: Address,
    /// The asset that moves.
    pub mint: Address,
    /// The holding that is credited.
    pub to: Address,
    /// Who authorizes the transfer: the owner of `from`.
    pub authority: Address,
    pub amount: u64,
    /// The number of decimals of `mint`, which the service checks.
    pub decimals: u8,
    /// Present where a vault authorizes the transfer itself; absent where
    /// `authority` signs with a credential of its own.
    pub signer: Option<VaultSigner>,
}

} // verus!
