//! The canonical, signable body of a transaction: header, account table,
//! blockhash, and compiled instructions.

use crate::accounts::keys_equal;
use crate::accounts::AccountMeta;
use crate::compiled_instruction::CompiledInstruction;
use crate::errors::PoseidonError;
use crate::instruction::Instruction;
use crate::message_builder::MessageBuilder;
use crate::sequences::dedup_first;
use crate::sequences::lemma_dedup_first_contains;
use crate::PoseidonPublicKey;
use crate::PublicKey;
use crate::RecentBlockHash;
use vstd::prelude::*;

verus! {

/// The header of a `Message`: how many of the leading account keys sign,
/// and how many keys of each class are read-only.
#[derive(Debug, Clone, Copy, PartialEq, Eq, Structural)]
pub struct MessageHeader {
    /// The number of signatures required for this message to be considered valid. The
    /// signatures must match the first `num_required_signatures` of `account_keys`.
    pub num_required_signatures: u8,
    /// The last `num_readonly_signed_accounts` of the signed keys are read-only accounts.
    pub num_readonly_signed_accounts: u8,
    /// The last `num_readonly_unsigned_accounts` of the unsigned keys are read-only accounts.
    pub num_readonly_unsigned_accounts: u8,
}

impl Default for MessageHeader {
    /// A header of three zero counts.
    fn default() -> (r: Self)
        ensures
            r == (MessageHeader {
                num_required_signatures: 0u8,
                num_readonly_signed_accounts: 0u8,
                num_readonly_unsigned_accounts: 0u8,
            }),
    {
        MessageHeader {
            num_required_signatures: 0,
            num_readonly_signed_accounts: 0,
            num_readonly_unsigned_accounts: 0,
        }
    }
}

/// The canonical, signable body of a transaction.
#[derive(Debug, Clone)]
pub struct Message {
    /// The message header, identifying signed and read-only `account_keys`.
    pub header: MessageHeader,
    /// All the account keys used by this transaction.
    pub account_keys: Vec<PoseidonPublicKey>,
    /// The id of a recent ledger entry.
    pub recent_blockhash: RecentBlockHash,
    /// Programs that will be executed in sequence and committed in one
    /// atomic transaction if all succeed.
    pub instructions: Vec<CompiledInstruction>,
}

/// The position of the first key of `s` equal to `key`, or -1.
pub open spec fn index_of_pubkey(s: Seq<PoseidonPublicKey>, key: PublicKey) -> int
    decreases s.len(),
{
    if s.len() == 0 {
        -1
    } else if s.first() == key {
        0
    } else {
        let rest = index_of_pubkey(s.drop_first(), key);
        if rest == -1 {
            -1
        } else {
            rest + 1
        }
    }
}

/// What `index_of_pubkey` returns: the first matching position, or -1
/// when no key matches.
pub proof fn lemma_index_of_pubkey_properties(s: Seq<PoseidonPublicKey>, key: PublicKey)
    ensures
        index_of_pubkey(s, key) == -1 ==> forall|j: int| 0 <= j < s.len() ==> s[j] != key,
        index_of_pubkey(s, key) != -1 ==> 0 <= index_of_pubkey(s, key) < s.len() && s[
            index_of_pubkey(s, key)
        ] == key && forall|j: int| 0 <= j < index_of_pubkey(s, key) ==> s[j] != key,
    decreases s.len(),
{
    if s.len() > 0 && s.first() != key {
        let d = s.drop_first();
        lemma_index_of_pubkey_properties(d, key);
        let r = index_of_pubkey(d, key);
        if r == -1 {
            assert forall|j: int| 0 <= j < s.len() implies s[j] != key by {
                if j > 0 {
                    assert(d[j - 1] == s[j]);
                }
            }
        } else {
            assert(s[r + 1] == d[r]);
            assert forall|j: int| 0 <= j < r + 1 implies s[j] != key by {
                if j > 0 {
                    assert(d[j - 1] == s[j]);
                }
            }
        }
    }
}

/// The first matching position is what `index_of_pubkey` returns.
pub proof fn lemma_index_of_pubkey_first(s: Seq<PoseidonPublicKey>, key: PublicKey, i: int)
    requires
        0 <= i < s.len(),
        s[i] == key,
        forall|j: int| 0 <= j < i ==> s[j] != key,
    ensures
        index_of_pubkey(s, key) == i,
    decreases i,
{
    if i > 0 {
        assert(s.first() != key);
        let d = s.drop_first();
        assert(d[i - 1] == s[i]);
        assert forall|j: int| 0 <= j < i - 1 implies d[j] != key by {
            assert(d[j] == s[j + 1]);
        }
        lemma_index_of_pubkey_first(d, key, i - 1);
    }
}

/// Without a matching key `index_of_pubkey` returns -1.
pub proof fn lemma_index_of_pubkey_none(s: Seq<PoseidonPublicKey>, key: PublicKey)
    requires
        forall|j: int| 0 <= j < s.len() ==> s[j] != key,
    ensures
        index_of_pubkey(s, key) == -1,
    decreases s.len(),
{
    if s.len() > 0 {
        let d = s.drop_first();
        assert forall|j: int| 0 <= j < d.len() implies d[j] != key by {
            assert(d[j] == s[j + 1]);
        }
        lemma_index_of_pubkey_none(d, key);
    }
}

/// Whether every reference of an instruction — its program id and each of
/// its account keys — appears in the table.
pub open spec fn instr_resolvable(keys: Seq<PoseidonPublicKey>, ix: Instruction) -> bool {
    index_of_pubkey(keys, ix.program_id) >= 0 && forall|j: int|
        0 <= j < ix.accounts@.len() ==> index_of_pubkey(
            keys,
            (#[trigger] ix.accounts@[j]).pubkey,
        ) >= 0
}

/// Whether every instruction of the batch resolves against the table.
pub open spec fn all_resolvable(keys: Seq<PoseidonPublicKey>, instrs: Seq<Instruction>) -> bool {
    forall|i: int| 0 <= i < instrs.len() ==> instr_resolvable(keys, #[trigger] instrs[i])
}

/// The position of the first instruction that does not resolve.
pub open spec fn first_unresolvable(
    keys: Seq<PoseidonPublicKey>,
    instrs: Seq<Instruction>,
) -> int
    decreases instrs.len(),
{
    if instrs.len() == 0 {
        0
    } else if !instr_resolvable(keys, instrs.first()) {
        0
    } else {
        1 + first_unresolvable(keys, instrs.drop_first())
    }
}

/// The position of the first failure is what `first_unresolvable` returns.
pub proof fn lemma_first_unresolvable(
    keys: Seq<PoseidonPublicKey>,
    instrs: Seq<Instruction>,
    i: int,
)
    requires
        0 <= i < instrs.len(),
        forall|t: int| 0 <= t < i ==> instr_resolvable(keys, #[trigger] instrs[t]),
        !instr_resolvable(keys, instrs[i]),
    ensures
        first_unresolvable(keys, instrs) == i,
    decreases i,
{
    if i > 0 {
        let d = instrs.drop_first();
        assert(instr_resolvable(keys, instrs[0]));
        assert(d[i - 1] == instrs[i]);
        assert forall|t: int| 0 <= t < i - 1 implies instr_resolvable(keys, #[trigger] d[t]) by {
            assert(d[t] == instrs[t + 1]);
        }
        lemma_first_unresolvable(keys, d, i - 1);
    }
}

/// The error compilation reports: a missing program id takes
/// `ProgramIdNotFound`; a missing account key of an otherwise locatable
/// program takes `AccountIndexNotFoundInMessageAccounts`.
pub open spec fn compilation_error(
    keys: Seq<PoseidonPublicKey>,
    instrs: Seq<Instruction>,
) -> PoseidonError {
    let i = first_unresolvable(keys, instrs);
    if index_of_pubkey(keys, instrs[i].program_id) == -1 {
        PoseidonError::ProgramIdNotFound
    } else {
        PoseidonError::AccountIndexNotFoundInMessageAccounts
    }
}

/// Whether `ci` is the correct compilation of `ix` against `keys`: each
/// reference replaced by the position of its first match in the table, in
/// the original per-account order, with the data carried over.
pub open spec fn compiled_ok(
    keys: Seq<PoseidonPublicKey>,
    ix: Instruction,
    ci: CompiledInstruction,
) -> bool {
    &&& ci.program_id_index as int == index_of_pubkey(keys, ix.program_id)
    &&& ci.accounts@.len() == ix.accounts@.len()
    &&& forall|j: int|
        0 <= j < ix.accounts@.len() ==> #[trigger] ci.accounts@[j] as int == index_of_pubkey(
            keys,
            ix.accounts@[j].pubkey,
        )
    &&& ci.data@ == ix.data@
}

/// Looking a compiled instruction's indices back up in the table yields
/// exactly the program id and account keys of the instruction it came from.
pub proof fn lemma_compile_round_trip(
    keys: Seq<PoseidonPublicKey>,
    ix: Instruction,
    ci: CompiledInstruction,
)
    requires
        instr_resolvable(keys, ix),
        compiled_ok(keys, ix, ci),
    ensures
        0 <= (ci.program_id_index as int) < keys.len(),
        keys[ci.program_id_index as int] == ix.program_id,
        forall|j: int|
            0 <= j < ci.accounts@.len() ==> 0 <= (#[trigger] ci.accounts@[j] as int) < keys.len()
                && keys[ci.accounts@[j] as int] == ix.accounts@[j].pubkey,
{
    lemma_index_of_pubkey_properties(keys, ix.program_id);
    assert forall|j: int|
        0 <= j < ci.accounts@.len() implies 0 <= (#[trigger] ci.accounts@[j] as int) < keys.len()
        && keys[ci.accounts@[j] as int] == ix.accounts@[j].pubkey by {
        lemma_index_of_pubkey_properties(keys, ix.accounts@[j].pubkey);
    }
}

/// The position of the first key of `v` equal to `key`.
fn find_pubkey_index(v: &Vec<PoseidonPublicKey>, key: &PublicKey) -> (r: Option<usize>)
    ensures
        r is Some ==> index_of_pubkey(v@, *key) == r->Some_0 as int && r->Some_0 < v@.len(),
        r is None ==> index_of_pubkey(v@, *key) == -1,
{
    for i in 0..v.len()
        invariant
            forall|j: int| 0 <= j < i ==> v@[j] != *key,
    {
        if keys_equal(&v[i], key) {
            proof {
                lemma_index_of_pubkey_first(v@, *key, i as int);
            }
            return Some(i);
        }
    }
    proof {
        lemma_index_of_pubkey_none(v@, *key);
    }
    None
}

/// Whether `v` holds a key equal to `key`.
fn contains_pubkey(v: &Vec<PoseidonPublicKey>, key: &PublicKey) -> (r: bool)
    ensures
        r == v@.contains(*key),
{
    for i in 0..v.len()
        invariant
            forall|j: int| 0 <= j < i ==> v@[j] != *key,
    {
        if keys_equal(&v[i], key) {
            return true;
        }
    }
    false
}

/// Copies a byte vector.
fn copy_bytes(src: &Vec<u8>) -> (r: Vec<u8>)
    ensures
        r@ == src@,
{
    let mut out: Vec<u8> = Vec::new();
    out.extend_from_slice(src.as_slice());
    out
}

/// The keys of a sequence of account entries, in order.
pub open spec fn meta_keys(s: Seq<AccountMeta>) -> Seq<PoseidonPublicKey> {
    s.map_values(|m: AccountMeta| m.pubkey)
}

/// The index the single-instruction compilation assigns to the program: the
/// position of the last account entry carrying the program id, or 0 when
/// no entry does.
pub open spec fn legacy_program_index(metas: Seq<AccountMeta>, program_id: PublicKey) -> int
    decreases metas.len(),
{
    if metas.len() == 0 {
        0
    } else if metas.last().pubkey == program_id {
        metas.len() - 1
    } else {
        legacy_program_index(metas.drop_last(), program_id)
    }
}

/// The positions, within the instruction's own account list, of the
/// entries that do not carry the program id.
pub open spec fn legacy_account_indices(metas: Seq<AccountMeta>, program_id: PublicKey) -> Seq<u8>
    decreases metas.len(),
{
    if metas.len() == 0 {
        Seq::empty()
    } else {
        let rest = legacy_account_indices(metas.drop_last(), program_id);
        if metas.last().pubkey == program_id {
            rest
        } else {
            rest.push((metas.len() - 1) as u8)
        }
    }
}

impl Message {
    /// An empty message with a zero header and blockhash.
    pub fn new() -> (r: Self)
        ensures
            r.header == (MessageHeader {
                num_required_signatures: 0u8,
                num_readonly_signed_accounts: 0u8,
                num_readonly_unsigned_accounts: 0u8,
            }),
            r.account_keys@ == Seq::<PoseidonPublicKey>::empty(),
            r.recent_blockhash@ == Seq::new(32, |i: int| 0u8),
            r.instructions@ == Seq::<CompiledInstruction>::empty(),
    {
        Self {
            header: MessageHeader {
                num_required_signatures: 0,
                num_readonly_signed_accounts: 0,
                num_readonly_unsigned_accounts: 0,
            },
            account_keys: Vec::new(),
            recent_blockhash: [0u8; 32],
            instructions: Vec::new(),
        }
    }

    /// Replaces the header.
    pub fn add_header(self, header: MessageHeader) -> (r: Self)
        ensures
            r.header == header,
            r.account_keys == self.account_keys,
            r.recent_blockhash == self.recent_blockhash,
            r.instructions == self.instructions,
    {
        Self { header, ..self }
    }

    /// Appends one account key.
    pub fn add_account_key(self, public_key: PoseidonPublicKey) -> (r: Self)
        ensures
            r.header == self.header,
            r.account_keys@ == self.account_keys@.push(public_key),
            r.recent_blockhash == self.recent_blockhash,
            r.instructions == self.instructions,
    {
        let mut account_keys = self.account_keys;
        account_keys.push(public_key);
        Self { account_keys, ..self }
    }

    /// Replaces the recent blockhash.
    pub fn add_recent_blockhash(self, blockhash: RecentBlockHash) -> (r: Self)
        ensures
            r.header == self.header,
            r.account_keys == self.account_keys,
            r.recent_blockhash == blockhash,
            r.instructions == self.instructions,
    {
        Self { recent_blockhash: blockhash, ..self }
    }

    /// Sets the required-signature count of the header.
    pub fn num_required_signatures(self, value: u8) -> (r: Self)
        ensures
            r == (Message { header: MessageHeader { num_required_signatures: value, ..self.header }, ..self }),
    {
        Self { header: MessageHeader { num_required_signatures: value, ..self.header }, ..self }
    }

    /// Sets the read-only signed count of the header.
    pub fn num_readonly_signed_accounts(self, value: u8) -> (r: Self)
        ensures
            r == (Message {
                header: MessageHeader { num_readonly_signed_accounts: value, ..self.header },
                ..self
            }),
    {
        Self {
            header: MessageHeader { num_readonly_signed_accounts: value, ..self.header },
            ..self
        }
    }

    /// Sets the read-only unsigned count of the header.
    pub fn num_readonly_unsigned_accounts(self, value: u8) -> (r: Self)
        ensures
            r == (Message {
                header: MessageHeader { num_readonly_unsigned_accounts: value, ..self.header },
                ..self
            }),
    {
        Self {
            header: MessageHeader { num_readonly_unsigned_accounts: value, ..self.header },
            ..self
        }
    }

    /// Compiles one instruction against its own account list: every entry's
    /// key is appended to the message keys, positions within the list stand
    /// in for the accounts, and an entry carrying the program id lends its
    /// position to the program instead.
    pub fn add_instruction(self, instruction: Instruction) -> (r: Self)
        requires
            instruction.accounts@.len() <= 256,
        ensures
            r.header == self.header,
            r.recent_blockhash == self.recent_blockhash,
            r.account_keys@ == self.account_keys@ + meta_keys(instruction.accounts@),
            r.instructions@.len() == self.instructions@.len() + 1,
            forall|t: int|
                0 <= t < self.instructions@.len() ==> #[trigger] r.instructions@[t]
                    == self.instructions@[t],
            r.instructions@.last().program_id_index as int == legacy_program_index(
                instruction.accounts@,
                instruction.program_id,
            ),
            r.instructions@.last().accounts@ == dedup_first(
                legacy_account_indices(instruction.accounts@, instruction.program_id),
            ),
            r.instructions@.last().data@ == instruction.data@,
    {
        broadcast use vstd::seq_lib::group_seq_properties;

        let mut account_keys = self.account_keys;
        let mut program_id_index: usize = 0;
        let mut accounts: Vec<u8> = Vec::new();

        let n = instruction.accounts.len();
        for index in 0..n
            invariant
                n == instruction.accounts@.len(),
                n <= 256,
                account_keys@ == self.account_keys@ + meta_keys(
                    instruction.accounts@.take(index as int),
                ),
                program_id_index < 256,
                program_id_index as int == legacy_program_index(
                    instruction.accounts@.take(index as int),
                    instruction.program_id,
                ),
                accounts@ == legacy_account_indices(
                    instruction.accounts@.take(index as int),
                    instruction.program_id,
                ),
        {
            proof {
                assert(instruction.accounts@.take(index + 1).drop_last()
                    =~= instruction.accounts@.take(index as int));
                assert(meta_keys(instruction.accounts@.take(index + 1)) =~= meta_keys(
                    instruction.accounts@.take(index as int),
                ).push(instruction.accounts@[index as int].pubkey));
            }
            let account_key = instruction.accounts[index];
            account_keys.push(account_key.pubkey);
            if !keys_equal(&instruction.program_id, &account_key.pubkey) {
                accounts.push(index as u8);
            } else {
                program_id_index = index;
            }
        }
        proof {
            assert(instruction.accounts@.take(n as int) =~= instruction.accounts@);
        }

        // Drop repeated positions, keeping first occurrences.
        let mut unique_accounts: Vec<u8> = Vec::new();
        let total = accounts.len();
        for i in 0..total
            invariant
                total == accounts@.len(),
                unique_accounts@ == dedup_first(accounts@.take(i as int)),
        {
            proof {
                assert(accounts@.take(i + 1).drop_last() =~= accounts@.take(i as int));
                lemma_dedup_first_contains(accounts@.take(i as int), accounts@[i as int]);
            }
            let value = accounts[i];
            let mut seen = false;
            for j in 0..unique_accounts.len()
                invariant
                    forall|t: int| 0 <= t < j ==> unique_accounts@[t] != value || seen,
                    seen ==> unique_accounts@.contains(value),
            {
                if unique_accounts[j] == value {
                    seen = true;
                }
            }
            if !seen {
                unique_accounts.push(value);
            }
        }
        proof {
            assert(accounts@.take(total as int) =~= accounts@);
        }

        let compiled_instruction = CompiledInstruction {
            program_id_index: program_id_index as u8,
            accounts: unique_accounts,
            data: instruction.data,
        };
        let mut instructions = self.instructions;
        instructions.push(compiled_instruction);
        Self { account_keys, instructions, ..self }
    }

    /// Compiles the builder's batch against the table it resolved: the
    /// header takes the builder's tallies, the account keys are the signed
    /// keys then the unsigned keys with repeats dropped, and every
    /// instruction's references become positions in that key list. Fails
    /// with `ProgramIdNotFound` where a program id is absent from the keys,
    /// and with `AccountIndexNotFoundInMessageAccounts` where an account
    /// key is absent; the first failing instruction, scanned in order with
    /// its program id checked first, decides the error.
    pub fn build(self, message_builder: MessageBuilder) -> (r: Result<Message, PoseidonError>)
        requires
            message_builder.signed_keys@.len() <= 255,
            message_builder.signed_keys@.len() + message_builder.unsigned_keys@.len() <= 256,
        ensures
            ({
                let keys = dedup_first(
                    message_builder.signed_keys@ + message_builder.unsigned_keys@,
                );
                let batch = message_builder.instructions@;
                &&& (r is Ok <==> all_resolvable(keys, batch))
                &&& (r is Err ==> r->Err_0 == compilation_error(keys, batch))
                &&& (r is Ok ==> {
                    let m = r->Ok_0;
                    &&& m.header.num_required_signatures as int
                        == message_builder.signed_keys@.len()
                    &&& m.header.num_readonly_signed_accounts
                        == message_builder.num_readonly_signed_accounts
                    &&& m.header.num_readonly_unsigned_accounts
                        == message_builder.num_readonly_unsigned_accounts
                    &&& m.account_keys@ == keys
                    &&& m.recent_blockhash == self.recent_blockhash
                    &&& m.instructions@.len() == self.instructions@.len() + batch.len()
                    &&& forall|t: int|
                        0 <= t < self.instructions@.len() ==> #[trigger] m.instructions@[t]
                            == self.instructions@[t]
                    &&& forall|i: int|
                        0 <= i < batch.len() ==> compiled_ok(
                            keys,
                            #[trigger] batch[i],
                            m.instructions@[self.instructions@.len() + i],
                        )
                    // looking the compiled indices back up in the table
                    // yields the original program id and account keys
                    &&& forall|i: int|
                        0 <= i < batch.len() ==> 0 <= ((
                        #[trigger] m.instructions@[self.instructions@.len() + i]).program_id_index
                            as int) < keys.len() && keys[m.instructions@[self.instructions@.len()
                            + i].program_id_index as int] == batch[i].program_id
                    &&& forall|i: int, j: int|
                        0 <= i < batch.len() && 0 <= j < batch[i].accounts@.len() ==> 0 <= ((
                        m.instructions@[self.instructions@.len() + i]).accounts@[j] as int)
                            < keys.len() && keys[m.instructions@[self.instructions@.len()
                            + i].accounts@[j] as int] == (#[trigger] batch[i].accounts@[j]).pubkey
                })
            }),
    {
        let ghost all = message_builder.signed_keys@ + message_builder.unsigned_keys@;
        let ghost gkeys = dedup_first(all);

        let mut all_keys = message_builder.signed_keys;
        let num_required_signatures = all_keys.len() as u8;
        let unsigned = message_builder.unsigned_keys;
        let ghost signed_view = all_keys@;
        for i in 0..unsigned.len()
            invariant
                all_keys@ == signed_view + unsigned@.take(i as int),
        {
            proof {
                assert(signed_view + unsigned@.take(i + 1) =~= (signed_view + unsigned@.take(
                    i as int,
                )).push(unsigned@[i as int]));
            }
            all_keys.push(unsigned[i]);
        }
        proof {
            assert(unsigned@.take(unsigned@.len() as int) =~= unsigned@);
        }
        assert(all_keys@ == all);

        // Keep the first occurrence of every key.
        let mut keys: Vec<PoseidonPublicKey> = Vec::new();
        let key_count = all_keys.len();
        for i in 0..key_count
            invariant
                key_count == all_keys@.len(),
                all_keys@ == all,
                keys@ == dedup_first(all.take(i as int)),
        {
            proof {
                assert(all.take(i + 1).drop_last() =~= all.take(i as int));
                lemma_dedup_first_contains(all.take(i as int), all[i as int]);
            }
            let key = all_keys[i];
            if !contains_pubkey(&keys, &key) {
                keys.push(key);
            }
        }
        proof {
            assert(all.take(key_count as int) =~= all);
        }
        assert(keys@ == gkeys);
        proof {
            crate::sequences::lemma_dedup_first_len(all);
        }

        let header = MessageHeader {
            num_required_signatures,
            num_readonly_signed_accounts: message_builder.num_readonly_signed_accounts,
            num_readonly_unsigned_accounts: message_builder.num_readonly_unsigned_accounts,
        };

        let ghost base = self.instructions@.len();
        let mut instructions = self.instructions;
        let batch = message_builder.instructions;
        let batch_len = batch.len();
        for i in 0..batch_len
            invariant
                batch_len == batch@.len(),
                batch@ == message_builder.instructions@,
                gkeys == dedup_first(message_builder.signed_keys@ + message_builder.unsigned_keys@),
                keys@ == gkeys,
                keys@.len() <= 256,
                instructions@.len() == base + i,
                forall|t: int|
                    0 <= t < base ==> #[trigger] instructions@[t] == self.instructions@[t],
                forall|t: int|
                    0 <= t < i ==> instr_resolvable(gkeys, #[trigger] batch@[t]) && compiled_ok(
                        gkeys,
                        batch@[t],
                        instructions@[base + t],
                    ),
        {
            let instruction = &batch[i];
            let ghost ix = batch@[i as int];
            proof {
                assert(*instruction == ix);
            }
            let program_id_index = match find_pubkey_index(&keys, &instruction.program_id) {
                Some(found) => found,
                None => {
                    proof {
                        assert(index_of_pubkey(gkeys, ix.program_id) == -1);
                        assert(!instr_resolvable(gkeys, ix));
                        lemma_first_unresolvable(gkeys, batch@, i as int);
                        assert(!all_resolvable(gkeys, batch@));
                        assert(compilation_error(gkeys, batch@)
                            == PoseidonError::ProgramIdNotFound);
                    }
                    return Err(PoseidonError::ProgramIdNotFound);
                },
            };

            let mut account_indexes: Vec<u8> = Vec::new();
            let account_count = instruction.accounts.len();
            for j in 0..account_count
                invariant
                    account_count == ix.accounts@.len(),
                    *instruction == ix,
                    keys@ == gkeys,
                    keys@.len() <= 256,
                    batch_len == batch@.len(),
                    batch@ == message_builder.instructions@,
                    gkeys == dedup_first(
                        message_builder.signed_keys@ + message_builder.unsigned_keys@,
                    ),
                    i < batch_len,
                    ix == batch@[i as int],
                    index_of_pubkey(gkeys, ix.program_id) >= 0,
                    forall|t: int| 0 <= t < i ==> instr_resolvable(gkeys, #[trigger] batch@[t]),
                    account_indexes@.len() == j,
                    forall|t: int|
                        0 <= t < j ==> index_of_pubkey(
                            gkeys,
                            (#[trigger] ix.accounts@[t]).pubkey,
                        ) >= 0,
                    forall|t: int|
                        0 <= t < j ==> #[trigger] account_indexes@[t] as int == index_of_pubkey(
                            gkeys,
                            ix.accounts@[t].pubkey,
                        ),
            {
                match find_pubkey_index(&keys, &instruction.accounts[j].pubkey) {
                    Some(found) => {
                        account_indexes.push(found as u8);
                    },
                    None => {
                        proof {
                            assert(index_of_pubkey(gkeys, ix.accounts@[j as int].pubkey) == -1);
                            assert(!instr_resolvable(gkeys, ix));
                            lemma_first_unresolvable(gkeys, batch@, i as int);
                            assert(!all_resolvable(gkeys, batch@));
                            assert(compilation_error(gkeys, batch@)
                                == PoseidonError::AccountIndexNotFoundInMessageAccounts);
                        }
                        return Err(PoseidonError::AccountIndexNotFoundInMessageAccounts);
                    },
                }
            }

            let ghost idxs = account_indexes@;
            let compiled = CompiledInstruction {
                program_id_index: program_id_index as u8,
                accounts: account_indexes,
                data: copy_bytes(&instruction.data),
            };
            instructions.push(compiled);
            proof {
                assert(instr_resolvable(gkeys, ix));
                let ci = instructions@[base + i];
                assert(ci.accounts@ == idxs);
                assert(ci.program_id_index as int == index_of_pubkey(gkeys, ix.program_id));
                assert forall|t: int|
                    0 <= t < ix.accounts@.len() implies #[trigger] ci.accounts@[t] as int
                    == index_of_pubkey(gkeys, ix.accounts@[t].pubkey) by {
                    assert(ci.accounts@[t] == idxs[t]);
                }
                assert(compiled_ok(gkeys, ix, ci));
            }
        }

        proof {
            assert forall|i: int| 0 <= i < batch@.len() implies 0 <= ((
            #[trigger] instructions@[base + i]).program_id_index as int) < gkeys.len()
                && gkeys[instructions@[base + i].program_id_index as int]
                == batch@[i].program_id by {
                lemma_compile_round_trip(gkeys, batch@[i], instructions@[base + i]);
            }
            assert forall|i: int, j: int|
                0 <= i < batch@.len() && 0 <= j < batch@[i].accounts@.len() implies 0 <= ((
            instructions@[base + i]).accounts@[j] as int) < gkeys.len() && gkeys[instructions@[base
                + i].accounts@[j] as int] == (#[trigger] batch@[i].accounts@[j]).pubkey by {
                lemma_compile_round_trip(gkeys, batch@[i], instructions@[base + i]);
            }
        }
        Ok(Self { header, account_keys: keys, instructions, ..self })
    }
}

impl Default for Message {
    /// Equal to `Message::new`.
    fn default() -> (r: Self)
        ensures
            r.header == (MessageHeader {
                num_required_signatures: 0u8,
                num_readonly_signed_accounts: 0u8,
                num_readonly_unsigned_accounts: 0u8,
            }),
            r.account_keys@ == Seq::<PoseidonPublicKey>::empty(),
            r.recent_blockhash@ == Seq::new(32, |i: int| 0u8),
            r.instructions@ == Seq::<CompiledInstruction>::empty(),
    {
        Message::new()
    }
}

} // verus!
