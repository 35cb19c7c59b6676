//! Deriving a program address from a base key, a seed and an owner, and
//! building the instruction that creates the account there.

use crate::accounts::AccountMeta;
use crate::errors::PoseidonError;
use crate::errors::PoseidonResult;
use crate::hashing::sha256;
use crate::hashing::sha256_of;
use crate::instruction::Instruction;
use crate::programs::spec_system_program_id;
use crate::programs::system_program_id;
use crate::system_instruction::system_instruction_bytes;
use crate::system_instruction::SystemInstruction;
use crate::PublicKey;
use vstd::prelude::*;
use vstd::utf8::encode_utf8;

verus! {

/// The longest seed a derivation accepts, in bytes.
pub const MAX_SEED_LEN: usize = 32;

/// The marker bytes `ProgramDerivedAddress`: no owner key may end in them.
pub open spec fn spec_pda_marker() -> Seq<u8> {
    seq![
        80u8, 114u8, 111u8, 103u8, 114u8, 97u8, 109u8, 68u8, 101u8, 114u8, 105u8, 118u8, 101u8,
        100u8, 65u8, 100u8, 100u8, 114u8, 101u8, 115u8, 115u8,
    ]
}

/// The marker bytes `ProgramDerivedAddress`.
pub fn pda_marker() -> (r: [u8; 21])
    ensures
        r@ == spec_pda_marker(),
{
    let r: [u8; 21] = [
        80, 114, 111, 103, 114, 97, 109, 68, 101, 114, 105, 118, 101, 100, 65, 100, 100, 114, 101,
        115, 115,
    ];
    proof {
        assert(r@ =~= spec_pda_marker());
    }
    r
}

/// Whether an owner key ends in the marker bytes.
pub open spec fn owner_ends_in_marker(owner: PublicKey) -> bool {
    owner@.subrange(11, 32) == spec_pda_marker()
}

/// The bytes a derivation hashes: base, then the seed bytes, then owner,
/// in this fixed order.
pub open spec fn derivation_input(base: PublicKey, seed: Seq<char>, owner: PublicKey) -> Seq<u8> {
    base@ + encode_utf8(seed) + owner@
}

/// Whether the owner's trailing 21 bytes equal the marker.
pub(crate) fn ends_in_marker(owner: &PublicKey) -> (r: bool)
    ensures
        r == owner_ends_in_marker(*owner),
{
    let marker = pda_marker();
    for j in 0..21
        invariant
            marker@ == spec_pda_marker(),
            forall|t: int| 0 <= t < j ==> owner@[11 + t] == spec_pda_marker()[t],
    {
        if owner[11 + j] != marker[j] {
            proof {
                assert(owner@.subrange(11, 32)[j as int] != spec_pda_marker()[j as int]);
            }
            return false;
        }
    }
    proof {
        assert(owner@.subrange(11, 32) =~= spec_pda_marker());
    }
    true
}

/// Address derivation is deterministic: for a fixed base, seed and owner,
/// any two derived keys are equal.
pub proof fn lemma_derive_deterministic(
    base: PublicKey,
    seed: Seq<char>,
    owner: PublicKey,
    r1: PublicKey,
    r2: PublicKey,
)
    requires
        r1@ == sha256_of(derivation_input(base, seed, owner)),
        r2@ == sha256_of(derivation_input(base, seed, owner)),
    ensures
        r1 == r2,
{
    assert(r1@ =~= r2@);
}

/// Gathers the inputs of a derived-address account and computes its address.
#[derive(Debug, Clone)]
pub struct PdaBuilder {
    pub from_public_key: PublicKey,
    pub to_public_key: PublicKey,
    pub base: PublicKey,
    pub space: u64,
    pub owner: PublicKey,
    pub seed: String,
    pub lamports: u64,
}

impl PdaBuilder {
    /// A builder with zero keys, an empty seed and zero amounts.
    pub fn new() -> (r: Self)
        ensures
            r.from_public_key@ == Seq::new(32, |i: int| 0u8),
            r.to_public_key@ == Seq::new(32, |i: int| 0u8),
            r.base@ == Seq::new(32, |i: int| 0u8),
            r.space == 0u64,
            r.owner@ == Seq::new(32, |i: int| 0u8),
            r.seed@ == Seq::<char>::empty(),
            r.lamports == 0u64,
    {
        PdaBuilder {
            from_public_key: [0u8; 32],
            to_public_key: [0u8; 32],
            base: [0u8; 32],
            space: 0,
            owner: [0u8; 32],
            seed: String::new(),
            lamports: 0,
        }
    }

    /// Sets the funding account.
    pub fn add_from(self, public_key: PublicKey) -> (r: Self)
        ensures
            r == (PdaBuilder { from_public_key: public_key, ..self }),
    {
        Self { from_public_key: public_key, ..self }
    }

    /// Sets the base key of the derivation.
    pub fn add_base(self, public_key: PublicKey) -> (r: Self)
        ensures
            r == (PdaBuilder { base: public_key, ..self }),
    {
        Self { base: public_key, ..self }
    }

    /// Sets the storage size of the account to create.
    pub fn add_space(self, space: u64) -> (r: Self)
        ensures
            r == (PdaBuilder { space, ..self }),
    {
        Self { space, ..self }
    }

    /// Sets the owner key of the derivation.
    pub fn add_owner(self, public_key: PublicKey) -> (r: Self)
        ensures
            r == (PdaBuilder { owner: public_key, ..self }),
    {
        Self { owner: public_key, ..self }
    }

    /// Sets the seed of the derivation.
    pub fn add_seed(self, seed: &str) -> (r: Self)
        ensures
            r.seed@ == seed@,
            r == (PdaBuilder { seed: r.seed, ..self }),
    {
        Self { seed: seed.to_owned(), ..self }
    }

    /// Sets the balance the new account is funded with.
    pub fn add_lamports(self, lamports: u64) -> (r: Self)
        ensures
            r == (PdaBuilder { lamports, ..self }),
    {
        Self { lamports, ..self }
    }

    /// Derives the address: the SHA-256 digest of base, seed bytes and
    /// owner, in that order. Fails with `MaxSeedLengthExceeded` where the
    /// seed is longer than `MAX_SEED_LEN` bytes, and with `IllegalOwner`
    /// where the owner key ends in the marker bytes.
    pub fn derive_public_key(self) -> (r: PoseidonResult<Self>)
        ensures
            encode_utf8(self.seed@).len() > 32 <==> r == Err::<PdaBuilder, PoseidonError>(
                PoseidonError::MaxSeedLengthExceeded,
            ),
            (encode_utf8(self.seed@).len() <= 32 && owner_ends_in_marker(self.owner)) <==> r
                == Err::<PdaBuilder, PoseidonError>(PoseidonError::IllegalOwner),
            r is Ok <==> (encode_utf8(self.seed@).len() <= 32 && !owner_ends_in_marker(
                self.owner,
            )),
            r is Ok ==> r->Ok_0 == (PdaBuilder {
                to_public_key: r->Ok_0.to_public_key,
                ..self
            }) && r->Ok_0.to_public_key@ == sha256_of(
                derivation_input(self.base, self.seed@, self.owner),
            ),
    {
        if self.seed.as_str().as_bytes().len() > MAX_SEED_LEN {
            return Err(PoseidonError::MaxSeedLengthExceeded);
        }

        if ends_in_marker(&self.owner) {
            return Err(PoseidonError::IllegalOwner);
        }

        let mut hashed: Vec<u8> = Vec::new();
        hashed.extend_from_slice(self.base.as_slice());
        hashed.extend_from_slice(self.seed.as_str().as_bytes());
        hashed.extend_from_slice(self.owner.as_slice());
        proof {
            assert(hashed@ =~= derivation_input(self.base, self.seed@, self.owner));
        }

        let sha256_pda: [u8; 32] = sha256(hashed.as_slice());

        Ok(Self { to_public_key: sha256_pda, ..self })
    }

    /// The instruction that asks the system program to create the account:
    /// a `CreateAccountWithSeed` payload, the funder signing twice, the
    /// derived account writable.
    pub fn build(self) -> (r: PoseidonResult<Instruction>)
        ensures
            r is Ok,
            r->Ok_0.program_id@ == spec_system_program_id(),
            r->Ok_0.accounts@ == seq![
                AccountMeta { pubkey: self.from_public_key, is_signer: true, is_writable: true },
                AccountMeta { pubkey: self.to_public_key, is_signer: false, is_writable: true },
                AccountMeta { pubkey: self.from_public_key, is_signer: true, is_writable: false },
            ],
            r->Ok_0.data@ == system_instruction_bytes(
                SystemInstruction::CreateAccountWithSeed {
                    base: self.base,
                    seed: self.seed,
                    lamports: self.lamports,
                    space: self.space,
                    owner: self.owner,
                },
            ),
    {
        let from_public_key = self.from_public_key;
        let to_public_key = self.to_public_key;
        let system_instruction = SystemInstruction::CreateAccountWithSeed {
            base: self.base,
            seed: self.seed,
            lamports: self.lamports,
            space: self.space,
            owner: self.owner,
        };

        let data = system_instruction.encode();

        let mut accounts: Vec<AccountMeta> = Vec::new();
        accounts.push(AccountMeta::new(from_public_key, true));
        accounts.push(AccountMeta::new(to_public_key, false));
        accounts.push(AccountMeta::new_readonly(from_public_key, true));
        proof {
            assert(accounts@ =~= seq![
                AccountMeta { pubkey: from_public_key, is_signer: true, is_writable: true },
                AccountMeta { pubkey: to_public_key, is_signer: false, is_writable: true },
                AccountMeta { pubkey: from_public_key, is_signer: true, is_writable: false },
            ]);
        }

        Ok(Instruction { program_id: system_program_id(), accounts, data })
    }
}

impl Default for PdaBuilder {
    /// Equal to `PdaBuilder::new`.
    fn default() -> (r: Self)
        ensures
            r.from_public_key@ == Seq::new(32, |i: int| 0u8),
            r.to_public_key@ == Seq::new(32, |i: int| 0u8),
            r.base@ == Seq::new(32, |i: int| 0u8),
            r.space == 0u64,
            r.owner@ == Seq::new(32, |i: int| 0u8),
            r.seed@ == Seq::<char>::empty(),
            r.lamports == 0u64,
    {
        PdaBuilder::new()
    }
}

} // verus!
