//! A single instruction: a program, the accounts it touches, and opaque data.

use crate::accounts::AccountMeta;
use crate::sequences::dedup_first;
use crate::sequences::lemma_dedup_first_contains;
use crate::base58::base58_decode_of;
use crate::errors::PoseidonError;
use crate::errors::PoseidonResult;
use crate::BorrowedBase58PublicKey;
use crate::PublicKey;
use crate::Utilities;
use vstd::prelude::*;

verus! {

/// A request to execute a program against a set of accounts.
#[derive(Debug, Clone)]
pub struct Instruction {
    /// Pubkey of the program that executes this instruction.
    pub program_id: PublicKey,
    /// Metadata describing accounts that should be passed to the program.
    pub accounts: Vec<AccountMeta>,
    /// Opaque data passed to the program for its own interpretation.
    pub data: Vec<u8>,
}

/// Whether `v` holds an entry equal to `m`.
fn metas_contain(v: &Vec<AccountMeta>, m: &AccountMeta) -> (r: bool)
    ensures
        r == v@.contains(*m),
{
    for i in 0..v.len()
        invariant
            forall|j: int| 0 <= j < i ==> v@[j] != *m,
    {
        if v[i] == *m {
            return true;
        }
    }
    false
}

impl Instruction {
    /// An instruction of the system program with no accounts and no data.
    pub fn new() -> (r: Self)
        ensures
            r.program_id@ == Seq::new(32, |i: int| 0u8),
            r.accounts@ == Seq::<AccountMeta>::empty(),
            r.data@ == Seq::<u8>::empty(),
    {
        Self { program_id: [0u8; 32], accounts: Vec::new(), data: Vec::new() }
    }

    /// Replaces the program id.
    pub fn add_program_id(self, program_id: PublicKey) -> (r: Self)
        ensures
            r == (Instruction { program_id, ..self }),
    {
        Self { program_id, ..self }
    }

    /// Replaces the program id with one decoded from Base58.
    pub fn add_base58_program_id(self, program_id: BorrowedBase58PublicKey) -> (r: PoseidonResult<
        Self,
    >)
        ensures
            r is Ok <==> (base58_decode_of(program_id@) is Some && base58_decode_of(
                program_id@,
            )->Some_0.len() == 32),
            r is Ok ==> r->Ok_0 == (Instruction {
                program_id: r->Ok_0.program_id,
                ..self
            }) && Some(r->Ok_0.program_id@) == base58_decode_of(program_id@),
            base58_decode_of(program_id@) is None ==> r == Err::<Instruction, PoseidonError>(
                PoseidonError::InvalidBase58ForPublicKey,
            ),
            (base58_decode_of(program_id@) is Some && base58_decode_of(program_id@)->Some_0.len()
                != 32) ==> r == Err::<Instruction, PoseidonError>(
                PoseidonError::ErrorConvertingToU832,
            ),
    {
        let program_id = match Utilities::base58_to_u32_array(program_id) {
            Ok(key) => key,
            Err(error) => {
                return Err(error);
            },
        };
        Ok(Self { program_id, ..self })
    }

    /// Appends one account entry.
    pub fn add_account(self, account_meta: AccountMeta) -> (r: Self)
        ensures
            r.program_id == self.program_id,
            r.accounts@ == self.accounts@.push(account_meta),
            r.data@ == self.data@,
    {
        let mut accounts = self.accounts;
        accounts.push(account_meta);
        Self { accounts, ..self }
    }

    /// Replaces the instruction data with a copy of the given bytes.
    pub fn add_data(self, instruction_data: &[u8]) -> (r: Self)
        ensures
            r.program_id == self.program_id,
            r.accounts@ == self.accounts@,
            r.data@ == instruction_data@,
    {
        let mut data: Vec<u8> = Vec::new();
        data.extend_from_slice(instruction_data);
        Self { data, ..self }
    }

    /// Drops every repeated account entry, keeping first occurrences in
    /// their original order.
    pub fn build(self) -> (r: Self)
        ensures
            r.program_id == self.program_id,
            r.accounts@ == dedup_first(self.accounts@),
            r.data@ == self.data@,
    {
        let mut unique_accounts: Vec<AccountMeta> = Vec::new();
        let n = self.accounts.len();
        for i in 0..n
            invariant
                n == self.accounts@.len(),
                unique_accounts@ == dedup_first(self.accounts@.take(i as int)),
        {
            proof {
                assert(self.accounts@.take(i + 1).drop_last() =~= self.accounts@.take(i as int));
                assert(self.accounts@.take(i + 1).last() == self.accounts@[i as int]);
                lemma_dedup_first_contains(self.accounts@.take(i as int), self.accounts@[i as int]);
            }
            let meta = self.accounts[i];
            if !metas_contain(&unique_accounts, &meta) {
                unique_accounts.push(meta);
            }
        }
        proof {
            assert(self.accounts@.take(n as int) =~= self.accounts@);
        }
        Self { accounts: unique_accounts, ..self }
    }

    /// A borrow of the instruction.
    pub fn borrow(&self) -> (r: &Self)
        ensures
            r == self,
    {
        self
    }

    /// The instruction by value.
    pub fn take(self) -> (r: Self)
        ensures
            r == self,
    {
        self
    }
}

impl Default for Instruction {
    /// Equal to `Instruction::new`.
    fn default() -> (r: Self)
        ensures
            r.program_id@ == Seq::new(32, |i: int| 0u8),
            r.accounts@ == Seq::<AccountMeta>::empty(),
            r.data@ == Seq::<u8>::empty(),
    {
        Instruction::new()
    }
}

} // verus!
