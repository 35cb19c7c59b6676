//! A borrowing variant of the derived-address builder: the seed is kept as
//! a string slice and the instruction is built without consuming the
//! builder.

use crate::accounts::AccountMeta;
use crate::errors::PoseidonError;
use crate::errors::PoseidonResult;
use crate::hashing::sha256;
use crate::hashing::sha256_of;
use crate::instruction::Instruction;
use crate::pda::derivation_input;
use crate::pda::ends_in_marker;
use crate::pda::owner_ends_in_marker;
use crate::pda::MAX_SEED_LEN;
use crate::programs::spec_system_program_id;
use crate::programs::system_program_id;
use crate::system_instruction::SystemInstruction;
use crate::PoseidonPublicKey;
use vstd::prelude::*;
use vstd::utf8::encode_utf8;

verus! {

/// Gathers the inputs of a derived-address account, borrowing its seed.
#[derive(Debug, Clone)]
pub struct PdaBuilder<'pn> {
    pub from_public_key: PoseidonPublicKey,
    pub to_public_key: PoseidonPublicKey,
    pub base: PoseidonPublicKey,
    pub seed: &'pn str,
    pub lamports: u64,
    pub space: u64,
    pub owner: PoseidonPublicKey,
    pub data: Vec<u8>,
}

impl<'pn> PdaBuilder<'pn> {
    /// A builder with zero keys and amounts and the default seed.
    pub fn new() -> (r: Self)
        ensures
            r.from_public_key@ == Seq::new(32, |i: int| 0u8),
            r.to_public_key@ == Seq::new(32, |i: int| 0u8),
            r.base@ == Seq::new(32, |i: int| 0u8),
            r.seed@ == "POSEIDON"@,
            r.lamports == 0u64,
            r.space == 0u64,
            r.owner@ == Seq::new(32, |i: int| 0u8),
            r.data@ == Seq::<u8>::empty(),
    {
        PdaBuilder {
            from_public_key: [0u8; 32],
            to_public_key: [0u8; 32],
            base: [0u8; 32],
            seed: "POSEIDON",
            lamports: 0,
            space: 0,
            owner: [0u8; 32],
            data: Vec::new(),
        }
    }

    /// The derived public key, as last computed.
    pub fn pda_public_key(&self) -> (r: PoseidonPublicKey)
        ensures
            r == self.to_public_key,
    {
        self.to_public_key
    }

    /// Sets the funding account.
    pub fn from(self, public_key: PoseidonPublicKey) -> (r: Self)
        ensures
            r == (PdaBuilder { from_public_key: public_key, ..self }),
    {
        Self { from_public_key: public_key, ..self }
    }

    /// Sets the derived account.
    pub fn to(self, public_key: PoseidonPublicKey) -> (r: Self)
        ensures
            r == (PdaBuilder { to_public_key: public_key, ..self }),
    {
        Self { to_public_key: public_key, ..self }
    }

    /// Sets the base key of the derivation.
    pub fn base(self, public_key: PoseidonPublicKey) -> (r: Self)
        ensures
            r == (PdaBuilder { base: public_key, ..self }),
    {
        Self { base: public_key, ..self }
    }

    /// Sets the balance the new account is funded with.
    pub fn lamports(self, lamports_value: u64) -> (r: Self)
        ensures
            r == (PdaBuilder { lamports: lamports_value, ..self }),
    {
        Self { lamports: lamports_value, ..self }
    }

    /// Sets the seed of the derivation.
    pub fn seed(self, seed_value: &'pn str) -> (r: Self)
        ensures
            r == (PdaBuilder { seed: seed_value, ..self }),
    {
        Self { seed: seed_value, ..self }
    }

    /// Sets the storage size of the account to create.
    pub fn space(self, storage_in_bytes: u64) -> (r: Self)
        ensures
            r == (PdaBuilder { space: storage_in_bytes, ..self }),
    {
        Self { space: storage_in_bytes, ..self }
    }

    /// Sets the owner key of the derivation.
    pub fn owner(self, public_key: PoseidonPublicKey) -> (r: Self)
        ensures
            r == (PdaBuilder { owner: public_key, ..self }),
    {
        Self { owner: public_key, ..self }
    }

    /// Replaces the instruction data with a copy of the given bytes.
    pub fn data(self, instruction_data: &[u8]) -> (r: Self)
        ensures
            r.data@ == instruction_data@,
            r == (PdaBuilder { data: r.data, ..self }),
    {
        let mut data: Vec<u8> = Vec::new();
        data.extend_from_slice(instruction_data);
        Self { data, ..self }
    }

    /// Derives the address: the SHA-256 digest of base, seed bytes and
    /// owner, in that order. Fails with `MaxSeedLengthExceeded` where the
    /// seed is longer than `MAX_SEED_LEN` bytes, and with `IllegalOwner`
    /// where the owner key ends in the marker bytes.
    pub fn derive_public_key(self) -> (r: PoseidonResult<Self>)
        ensures
            encode_utf8(self.seed@).len() > 32 <==> r == Err::<PdaBuilder<'pn>, PoseidonError>(
                PoseidonError::MaxSeedLengthExceeded,
            ),
            (encode_utf8(self.seed@).len() <= 32 && owner_ends_in_marker(self.owner)) <==> r
                == Err::<PdaBuilder<'pn>, PoseidonError>(PoseidonError::IllegalOwner),
            r is Ok <==> (encode_utf8(self.seed@).len() <= 32 && !owner_ends_in_marker(
                self.owner,
            )),
            r is Ok ==> r->Ok_0 == (PdaBuilder {
                to_public_key: r->Ok_0.to_public_key,
                ..self
            }) && r->Ok_0.to_public_key@ == sha256_of(
                derivation_input(self.base, self.seed@, self.owner),
            ),
    {
        if self.seed.as_bytes().len() > MAX_SEED_LEN {
            return Err(PoseidonError::MaxSeedLengthExceeded);
        }

        if ends_in_marker(&self.owner) {
            return Err(PoseidonError::IllegalOwner);
        }

        let mut hashed: Vec<u8> = Vec::new();
        hashed.extend_from_slice(self.base.as_slice());
        hashed.extend_from_slice(self.seed.as_bytes());
        hashed.extend_from_slice(self.owner.as_slice());
        proof {
            assert(hashed@ =~= derivation_input(self.base, self.seed@, self.owner));
        }

        let sha256_pda: [u8; 32] = sha256(hashed.as_slice());

        Ok(Self { to_public_key: sha256_pda, ..self })
    }

    /// The instruction that asks the system program to create the account:
    /// a `CreateAccountWithSeed` payload, the funder signing twice, the
    /// derived account writable.
    pub fn build_pda_instruction(&self) -> (r: PoseidonResult<Instruction>)
        ensures
            r is Ok,
            r->Ok_0.program_id@ == spec_system_program_id(),
            r->Ok_0.accounts@ == seq![
                AccountMeta { pubkey: self.from_public_key, is_signer: true, is_writable: true },
                AccountMeta { pubkey: self.to_public_key, is_signer: false, is_writable: true },
                AccountMeta { pubkey: self.from_public_key, is_signer: true, is_writable: false },
            ],
            r->Ok_0.data@ == crate::system_instruction::u32_le_bytes(3u32) + self.base@
                + crate::system_instruction::u64_le_bytes(encode_utf8(self.seed@).len() as u64)
                + encode_utf8(self.seed@) + crate::system_instruction::u64_le_bytes(self.lamports)
                + crate::system_instruction::u64_le_bytes(self.space) + self.owner@,
    {
        let system_instruction = SystemInstruction::CreateAccountWithSeed {
            base: self.base,
            seed: self.seed.to_owned(),
            lamports: self.lamports,
            space: self.space,
            owner: self.owner,
        };

        let data = system_instruction.encode();

        let mut accounts: Vec<AccountMeta> = Vec::new();
        accounts.push(AccountMeta::new(self.from_public_key, true));
        accounts.push(AccountMeta::new(self.to_public_key, false));
        accounts.push(AccountMeta::new_readonly(self.from_public_key, true));
        proof {
            assert(accounts@ =~= seq![
                AccountMeta { pubkey: self.from_public_key, is_signer: true, is_writable: true },
                AccountMeta { pubkey: self.to_public_key, is_signer: false, is_writable: true },
                AccountMeta { pubkey: self.from_public_key, is_signer: true, is_writable: false },
            ]);
        }

        Ok(Instruction { program_id: system_program_id(), accounts, data })
    }
}

impl<'pn> Default for PdaBuilder<'pn> {
    /// Equal to `PdaBuilder::new`.
    fn default() -> (r: Self)
        ensures
            r.from_public_key@ == Seq::new(32, |i: int| 0u8),
            r.to_public_key@ == Seq::new(32, |i: int| 0u8),
            r.base@ == Seq::new(32, |i: int| 0u8),
            r.seed@ == "POSEIDON"@,
            r.lamports == 0u64,
            r.space == 0u64,
            r.owner@ == Seq::new(32, |i: int| 0u8),
            r.data@ == Seq::<u8>::empty(),
    {
        PdaBuilder::new()
    }
}

} // verus!
