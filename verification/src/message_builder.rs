//! Account resolution: merging, deduplicating and ordering every account
//! a batch of instructions references into one canonical table.

use crate::accounts::keys_equal;
use crate::accounts::AccountMeta;
use crate::instruction::Instruction;
use crate::PoseidonPublicKey;
use crate::PublicKey;
use vstd::prelude::*;

verus! {

/// Rows of a `Message` account table are grouped by this rank: signers
/// before non-signers, and writable entries before read-only ones within
/// each of the two classes.
pub open spec fn meta_rank(m: AccountMeta) -> int {
    (if m.is_signer {
        0int
    } else {
        2int
    }) + (if m.is_writable {
        0int
    } else {
        1int
    })
}

/// The predicate selecting entries of rank `k`.
pub open spec fn rank_pred(k: int) -> spec_fn(AccountMeta) -> bool {
    |m: AccountMeta| meta_rank(m) == k
}

/// The read-only, non-signer entry a program id contributes to the table.
pub open spec fn program_meta(program_id: PublicKey) -> AccountMeta {
    AccountMeta { pubkey: program_id, is_signer: false, is_writable: false }
}

/// The account entries of every instruction, flattened in instruction order.
pub open spec fn instruction_accounts(instrs: Seq<Instruction>) -> Seq<AccountMeta>
    decreases instrs.len(),
{
    if instrs.len() == 0 {
        Seq::empty()
    } else {
        instruction_accounts(instrs.drop_last()) + instrs.last().accounts@
    }
}

/// One program id entry per instruction, in instruction order.
pub open spec fn program_metas(instrs: Seq<Instruction>) -> Seq<AccountMeta>
    decreases instrs.len(),
{
    if instrs.len() == 0 {
        Seq::empty()
    } else {
        program_metas(instrs.drop_last()).push(program_meta(instrs.last().program_id))
    }
}

/// A stable sort of the entries by rank: the four rank groups concatenated
/// in order, each keeping the relative order of the input.
pub open spec fn rank_sorted_upto(s: Seq<AccountMeta>, k: int) -> Seq<AccountMeta>
    decreases k,
{
    if k <= 0 {
        Seq::empty()
    } else {
        rank_sorted_upto(s, k - 1) + s.filter(rank_pred(k - 1))
    }
}

/// A stable sort of the entries by rank.
pub open spec fn rank_sorted(s: Seq<AccountMeta>) -> Seq<AccountMeta> {
    rank_sorted_upto(s, 4)
}

/// The synthetic entry the fee payer contributes, if one is set.
pub open spec fn payer_metas(payer: Option<PoseidonPublicKey>) -> Seq<AccountMeta> {
    match payer {
        Some(key) => seq![AccountMeta { pubkey: key, is_signer: true, is_writable: true }],
        None => Seq::empty(),
    }
}

/// The position of the first entry of `s` whose key is `key`, or -1.
pub open spec fn index_of_key(s: Seq<AccountMeta>, key: PublicKey) -> int
    decreases s.len(),
{
    if s.len() == 0 {
        -1
    } else if s.first().pubkey == key {
        0
    } else {
        let rest = index_of_key(s.drop_first(), key);
        if rest == -1 {
            -1
        } else {
            rest + 1
        }
    }
}

/// What `index_of_key` returns: the first matching position, or -1 when
/// no entry matches.
pub proof fn lemma_index_of_key_properties(s: Seq<AccountMeta>, key: PublicKey)
    ensures
        index_of_key(s, key) == -1 ==> forall|j: int| 0 <= j < s.len() ==> s[j].pubkey != key,
        index_of_key(s, key) != -1 ==> 0 <= index_of_key(s, key) < s.len() && s[index_of_key(
            s,
            key,
        )].pubkey == key && forall|j: int| 0 <= j < index_of_key(s, key) ==> s[j].pubkey != key,
    decreases s.len(),
{
    if s.len() > 0 && s.first().pubkey != key {
        let d = s.drop_first();
        lemma_index_of_key_properties(d, key);
        let r = index_of_key(d, key);
        if r == -1 {
            assert forall|j: int| 0 <= j < s.len() implies s[j].pubkey != key by {
                if j > 0 {
                    assert(d[j - 1] == s[j]);
                }
            }
        } else {
            assert(s[r + 1] == d[r]);
            assert forall|j: int| 0 <= j < r + 1 implies s[j].pubkey != key by {
                if j > 0 {
                    assert(d[j - 1] == s[j]);
                }
            }
        }
    }
}

/// The first matching position is what `index_of_key` returns.
pub proof fn lemma_index_of_key_first(s: Seq<AccountMeta>, key: PublicKey, i: int)
    requires
        0 <= i < s.len(),
        s[i].pubkey == key,
        forall|j: int| 0 <= j < i ==> s[j].pubkey != key,
    ensures
        index_of_key(s, key) == i,
    decreases i,
{
    if i > 0 {
        assert(s.first().pubkey != key);
        let d = s.drop_first();
        assert(d[i - 1] == s[i]);
        assert forall|j: int| 0 <= j < i - 1 implies d[j].pubkey != key by {
            assert(d[j] == s[j + 1]);
        }
        lemma_index_of_key_first(d, key, i - 1);
    }
}

/// Without a matching entry `index_of_key` returns -1.
pub proof fn lemma_index_of_key_none(s: Seq<AccountMeta>, key: PublicKey)
    requires
        forall|j: int| 0 <= j < s.len() ==> s[j].pubkey != key,
    ensures
        index_of_key(s, key) == -1,
    decreases s.len(),
{
    if s.len() > 0 {
        let d = s.drop_first();
        assert forall|j: int| 0 <= j < d.len() implies d[j].pubkey != key by {
            assert(d[j] == s[j + 1]);
        }
        lemma_index_of_key_none(d, key);
    }
}

/// Merges one entry into a table: a repeated key may promote the existing
/// row to writable and adds no row; a new key is appended.
pub open spec fn merge_into(acc: Seq<AccountMeta>, m: AccountMeta) -> Seq<AccountMeta> {
    let i = index_of_key(acc, m.pubkey);
    if i >= 0 {
        acc.update(
            i,
            AccountMeta { is_writable: acc[i].is_writable || m.is_writable, ..acc[i] },
        )
    } else {
        acc.push(m)
    }
}

/// Deduplicates a scan by key: the first occurrence fixes the position and
/// the signer flag, every later occurrence ORs its writable flag in.
pub open spec fn merge_dedup(s: Seq<AccountMeta>) -> Seq<AccountMeta>
    decreases s.len(),
{
    if s.len() == 0 {
        Seq::empty()
    } else {
        merge_into(merge_dedup(s.drop_last()), s.last())
    }
}

/// Everything a builder feeds into the table, before sorting: the account
/// entries of every instruction, then the program id entries.
pub open spec fn collected_metas(b: MessageBuilder) -> Seq<AccountMeta> {
    instruction_accounts(b.instructions@) + (b.program_ids@ + program_metas(b.instructions@))
}

/// The scan the table is deduplicated from: the payer entry first, then
/// the collected entries stable-sorted by rank.
pub open spec fn resolution_scan(b: MessageBuilder) -> Seq<AccountMeta> {
    payer_metas(b.payer) + rank_sorted(collected_metas(b))
}

/// The canonical account table a builder resolves to: the payer entry
/// first, then the rank-sorted scan, deduplicated by key.
pub open spec fn resolved_table(b: MessageBuilder) -> Seq<AccountMeta> {
    merge_dedup(resolution_scan(b))
}

/// The keys of the signer rows of a table, in table order.
pub open spec fn signer_keys(t: Seq<AccountMeta>) -> Seq<PoseidonPublicKey> {
    t.filter(|m: AccountMeta| m.is_signer).map_values(|m: AccountMeta| m.pubkey)
}

/// The keys of the non-signer rows of a table, in table order.
pub open spec fn nonsigner_keys(t: Seq<AccountMeta>) -> Seq<PoseidonPublicKey> {
    t.filter(|m: AccountMeta| !m.is_signer).map_values(|m: AccountMeta| m.pubkey)
}

/// How many rows of a table are signed and read-only.
pub open spec fn readonly_signed_count(t: Seq<AccountMeta>) -> int {
    t.filter(|m: AccountMeta| m.is_signer && !m.is_writable).len() as int
}

/// How many rows of a table are unsigned and read-only.
pub open spec fn readonly_unsigned_count(t: Seq<AccountMeta>) -> int {
    t.filter(|m: AccountMeta| !m.is_signer && !m.is_writable).len() as int
}

/// The rank of an entry, as executable code computes it.
fn rank_of(m: &AccountMeta) -> (r: u8)
    ensures
        r as int == meta_rank(*m),
{
    let signer_part: u8 = if m.is_signer {
        0
    } else {
        2
    };
    let writable_part: u8 = if m.is_writable {
        0
    } else {
        1
    };
    signer_part + writable_part
}

/// The position of the first entry of `v` with key `key`.
fn find_key_index(v: &Vec<AccountMeta>, key: &PublicKey) -> (r: Option<usize>)
    ensures
        r is Some ==> index_of_key(v@, *key) == r->Some_0 as int && r->Some_0 < v@.len(),
        r is None ==> index_of_key(v@, *key) == -1,
{
    for i in 0..v.len()
        invariant
            forall|j: int| 0 <= j < i ==> v@[j].pubkey != *key,
    {
        if keys_equal(&v[i].pubkey, key) {
            proof {
                lemma_index_of_key_first(v@, *key, i as int);
            }
            return Some(i);
        }
    }
    proof {
        lemma_index_of_key_none(v@, *key);
    }
    None
}

/// Collects instructions and a fee payer, and resolves the canonical
/// account table from them.
#[derive(Clone)]
pub struct MessageBuilder {
    pub instructions: Vec<Instruction>,
    pub program_ids: Vec<AccountMeta>,
    pub signed_keys: Vec<PoseidonPublicKey>,
    pub unsigned_keys: Vec<PoseidonPublicKey>,
    pub num_readonly_signed_accounts: u8,
    pub num_readonly_unsigned_accounts: u8,
    pub payer: Option<PoseidonPublicKey>,
}

impl MessageBuilder {
    /// An empty builder.
    pub fn new() -> (r: Self)
        ensures
            r.instructions@ == Seq::<Instruction>::empty(),
            r.program_ids@ == Seq::<AccountMeta>::empty(),
            r.signed_keys@ == Seq::<PoseidonPublicKey>::empty(),
            r.unsigned_keys@ == Seq::<PoseidonPublicKey>::empty(),
            r.num_readonly_signed_accounts == 0u8,
            r.num_readonly_unsigned_accounts == 0u8,
            r.payer is None,
    {
        MessageBuilder {
            instructions: Vec::new(),
            program_ids: Vec::new(),
            signed_keys: Vec::new(),
            unsigned_keys: Vec::new(),
            num_readonly_signed_accounts: 0,
            num_readonly_unsigned_accounts: 0,
            payer: None,
        }
    }

    /// Appends one instruction.
    pub fn add_instruction(self, instruction: Instruction) -> (r: Self)
        ensures
            r.instructions@ == self.instructions@.push(instruction),
            r.program_ids == self.program_ids,
            r.signed_keys == self.signed_keys,
            r.unsigned_keys == self.unsigned_keys,
            r.num_readonly_signed_accounts == self.num_readonly_signed_accounts,
            r.num_readonly_unsigned_accounts == self.num_readonly_unsigned_accounts,
            r.payer == self.payer,
    {
        let mut instructions = self.instructions;
        instructions.push(instruction);
        Self { instructions, ..self }
    }

    /// Sets the fee payer.
    pub fn add_payer(self, payer: PoseidonPublicKey) -> (r: Self)
        ensures
            r == (MessageBuilder { payer: Some(payer), ..self }),
    {
        Self { payer: Some(payer), ..self }
    }

    /// Resolves the canonical account table: every account entry of every
    /// instruction plus one read-only entry per program id, the payer
    /// prepended, the scan stable-sorted by rank and deduplicated by key
    /// with writable promotion, and the signer and non-signer keys and
    /// read-only tallies derived from the resulting rows.
    pub fn build(self) -> (r: Self)
        requires
            self.num_readonly_signed_accounts as int + readonly_signed_count(resolved_table(self))
                <= 255,
            self.num_readonly_unsigned_accounts as int + readonly_unsigned_count(
                resolved_table(self),
            ) <= 255,
        ensures
            r.instructions == self.instructions,
            r.payer == self.payer,
            r.program_ids@ == self.program_ids@ + program_metas(self.instructions@),
            r.signed_keys@ == self.signed_keys@ + signer_keys(resolved_table(self)),
            r.unsigned_keys@ == self.unsigned_keys@ + nonsigner_keys(resolved_table(self)),
            r.num_readonly_signed_accounts as int == self.num_readonly_signed_accounts as int
                + readonly_signed_count(resolved_table(self)),
            r.num_readonly_unsigned_accounts as int == self.num_readonly_unsigned_accounts as int
                + readonly_unsigned_count(resolved_table(self)),
    {
        broadcast use vstd::seq_lib::group_seq_properties;

        let ghost orig = self;
        let mut builder = self;

        // One read-only, non-signer entry per program id.
        let n = builder.instructions.len();
        for i in 0..n
            invariant
                builder.instructions == orig.instructions,
                builder.signed_keys == orig.signed_keys,
                builder.unsigned_keys == orig.unsigned_keys,
                builder.num_readonly_signed_accounts == orig.num_readonly_signed_accounts,
                builder.num_readonly_unsigned_accounts == orig.num_readonly_unsigned_accounts,
                builder.payer == orig.payer,
                n == builder.instructions@.len(),
                builder.program_ids@ == orig.program_ids@ + program_metas(
                    orig.instructions@.take(i as int),
                ),
        {
            proof {
                assert(orig.instructions@.take(i + 1).drop_last() =~= orig.instructions@.take(
                    i as int,
                ));
            }
            let meta = AccountMeta {
                pubkey: builder.instructions[i].program_id,
                is_signer: false,
                is_writable: false,
            };
            builder.program_ids.push(meta);
        }
        proof {
            assert(orig.instructions@.take(n as int) =~= orig.instructions@);
        }

        // The flattened account entries of every instruction ...
        let mut metas: Vec<AccountMeta> = Vec::new();
        for i in 0..n
            invariant
                builder.instructions == orig.instructions,
                n == builder.instructions@.len(),
                metas@ == instruction_accounts(orig.instructions@.take(i as int)),
        {
            proof {
                assert(orig.instructions@.take(i + 1).drop_last() =~= orig.instructions@.take(
                    i as int,
                ));
            }
            metas.extend_from_slice(builder.instructions[i].accounts.as_slice());
        }
        proof {
            assert(orig.instructions@.take(n as int) =~= orig.instructions@);
        }

        // ... followed by the program id entries.
        metas.extend_from_slice(builder.program_ids.as_slice());
        assert(metas@ == collected_metas(orig));

        // Stable sort by rank: one pass per rank group.
        let mut sorted: Vec<AccountMeta> = Vec::new();
        let total = metas.len();
        for k in 0u8..4u8
            invariant
                total == metas@.len(),
                metas@ == collected_metas(orig),
                sorted@ == rank_sorted_upto(metas@, k as int),
        {
            for j in 0..total
                invariant
                    total == metas@.len(),
                    metas@ == collected_metas(orig),
                    k < 4,
                    sorted@ == rank_sorted_upto(metas@, k as int) + metas@.take(
                        j as int,
                    ).filter(rank_pred(k as int)),
            {
                broadcast use vstd::prelude::Seq::lemma_filter_push;

                proof {
                    assert(metas@.take(j + 1) =~= metas@.take(j as int).push(metas@[j as int]));
                }
                let m = metas[j];
                if rank_of(&m) == k {
                    sorted.push(m);
                }
            }
            proof {
                assert(metas@.take(total as int) =~= metas@);
            }
        }
        assert(sorted@ == rank_sorted(collected_metas(orig)));

        // The payer, if any, stands ahead of every other entry.
        let mut with_payer: Vec<AccountMeta> = Vec::new();
        if let Some(payer) = builder.payer {
            with_payer.push(AccountMeta { pubkey: payer, is_signer: true, is_writable: true });
        }
        with_payer.extend_from_slice(sorted.as_slice());
        assert(with_payer@ =~= payer_metas(orig.payer) + rank_sorted(collected_metas(orig)));

        // Deduplicate by key while scanning: the first occurrence keeps its
        // position and signer flag; later occurrences OR their writable flag in.
        let mut table: Vec<AccountMeta> = Vec::new();
        let scan_len = with_payer.len();
        for i in 0..scan_len
            invariant
                scan_len == with_payer@.len(),
                with_payer@ == payer_metas(orig.payer) + rank_sorted(collected_metas(orig)),
                table@ == merge_dedup(with_payer@.take(i as int)),
        {
            proof {
                assert(with_payer@.take(i + 1).drop_last() =~= with_payer@.take(i as int));
            }
            let m = with_payer[i];
            match find_key_index(&table, &m.pubkey) {
                Some(idx) => {
                    let existing = table[idx];
                    table[idx] = AccountMeta {
                        is_writable: existing.is_writable || m.is_writable,
                        ..existing
                    };
                },
                None => {
                    table.push(m);
                },
            }
        }
        proof {
            assert(with_payer@.take(scan_len as int) =~= with_payer@);
        }
        assert(table@ == resolved_table(orig));

        // Partition the resolved rows into signed and unsigned keys and
        // tally the read-only rows of each class.
        let rows = table.len();
        for i in 0..rows
            invariant
                rows == table@.len(),
                table@ == resolved_table(orig),
                builder.instructions == orig.instructions,
                builder.payer == orig.payer,
                builder.program_ids@ == orig.program_ids@ + program_metas(orig.instructions@),
                builder.signed_keys@ == orig.signed_keys@ + signer_keys(table@.take(i as int)),
                builder.unsigned_keys@ == orig.unsigned_keys@ + nonsigner_keys(
                    table@.take(i as int),
                ),
                builder.num_readonly_signed_accounts as int == orig.num_readonly_signed_accounts
                    as int + readonly_signed_count(table@.take(i as int)),
                builder.num_readonly_unsigned_accounts as int
                    == orig.num_readonly_unsigned_accounts as int + readonly_unsigned_count(
                    table@.take(i as int),
                ),
                orig.num_readonly_signed_accounts as int + readonly_signed_count(table@) <= 255,
                orig.num_readonly_unsigned_accounts as int + readonly_unsigned_count(table@)
                    <= 255,
        {
            broadcast use vstd::prelude::Seq::lemma_filter_push;

            proof {
                assert(table@.take(i + 1) =~= table@.take(i as int).push(table@[i as int]));
                table@.lemma_filter_take_len(
                    |m: AccountMeta| m.is_signer && !m.is_writable,
                    i + 1,
                );
                table@.lemma_filter_take_len(
                    |m: AccountMeta| !m.is_signer && !m.is_writable,
                    i + 1,
                );
                assert(signer_keys(table@.take(i + 1)) =~= if table@[i as int].is_signer {
                    signer_keys(table@.take(i as int)).push(table@[i as int].pubkey)
                } else {
                    signer_keys(table@.take(i as int))
                });
                assert(nonsigner_keys(table@.take(i + 1)) =~= if !table@[i as int].is_signer {
                    nonsigner_keys(table@.take(i as int)).push(table@[i as int].pubkey)
                } else {
                    nonsigner_keys(table@.take(i as int))
                });
            }
            let m = table[i];
            if m.is_signer {
                builder.signed_keys.push(m.pubkey);
                if !m.is_writable {
                    builder.num_readonly_signed_accounts = builder.num_readonly_signed_accounts
                        + 1;
                }
            } else {
                builder.unsigned_keys.push(m.pubkey);
                if !m.is_writable {
                    builder.num_readonly_unsigned_accounts =
                        builder.num_readonly_unsigned_accounts + 1;
                }
            }
        }
        proof {
            assert(table@.take(rows as int) =~= table@);
        }

        builder
    }
}

/// Whether some entry of `s` carries the key.
pub open spec fn has_meta_key(s: Seq<AccountMeta>, key: PublicKey) -> bool {
    exists|i: int| 0 <= i < s.len() && (#[trigger] s[i]).pubkey == key
}

/// Whether some entry of `s` carries the key and asks for write access.
pub open spec fn has_writable_key(s: Seq<AccountMeta>, key: PublicKey) -> bool {
    exists|i: int| 0 <= i < s.len() && (#[trigger] s[i]).pubkey == key && s[i].is_writable
}

/// Deduplication leaves every key at most once.
pub proof fn lemma_merge_dedup_unique(s: Seq<AccountMeta>)
    ensures
        forall|k1: int, k2: int|
            0 <= k1 < k2 < merge_dedup(s).len() ==> (#[trigger] merge_dedup(s)[k1]).pubkey != (
            #[trigger] merge_dedup(s)[k2]).pubkey,
    decreases s.len(),
{
    if s.len() > 0 {
        let d = s.drop_last();
        let m = s.last();
        let td = merge_dedup(d);
        lemma_merge_dedup_unique(d);
        lemma_index_of_key_properties(td, m.pubkey);
        let t = merge_dedup(s);
        assert(t == merge_into(td, m));
        if index_of_key(td, m.pubkey) >= 0 {
            assert forall|k1: int, k2: int|
                0 <= k1 < k2 < t.len() implies (#[trigger] t[k1]).pubkey != (
            #[trigger] t[k2]).pubkey by {
                assert(t[k1].pubkey == td[k1].pubkey);
                assert(t[k2].pubkey == td[k2].pubkey);
            }
        } else {
            assert forall|k1: int, k2: int|
                0 <= k1 < k2 < t.len() implies (#[trigger] t[k1]).pubkey != (
            #[trigger] t[k2]).pubkey by {
                if k2 < t.len() - 1 {
                    assert(t[k1] == td[k1]);
                    assert(t[k2] == td[k2]);
                } else {
                    assert(t[k1] == td[k1]);
                    assert(t[k2] == m);
                }
            }
        }
    }
}

/// Deduplication keeps exactly the keys of the scan.
pub proof fn lemma_merge_dedup_has_key(s: Seq<AccountMeta>, key: PublicKey)
    ensures
        has_meta_key(merge_dedup(s), key) <==> has_meta_key(s, key),
    decreases s.len(),
{
    if s.len() > 0 {
        let d = s.drop_last();
        let m = s.last();
        let td = merge_dedup(d);
        let t = merge_dedup(s);
        lemma_merge_dedup_has_key(d, key);
        lemma_index_of_key_properties(td, m.pubkey);
        assert(s =~= d.push(m));
        if has_meta_key(d, key) {
            let i = choose|i: int| 0 <= i < d.len() && (#[trigger] d[i]).pubkey == key;
            assert(s[i].pubkey == key);
        }
        if has_meta_key(s, key) {
            let i = choose|i: int| 0 <= i < s.len() && (#[trigger] s[i]).pubkey == key;
            let i0 = index_of_key(td, m.pubkey);
            if i < s.len() - 1 {
                assert(d[i].pubkey == key);
                let k = choose|k: int| 0 <= k < td.len() && (#[trigger] td[k]).pubkey == key;
                if i0 >= 0 {
                    assert(t[k].pubkey == key || t[i0].pubkey == key);
                } else {
                    assert(t[k].pubkey == key);
                }
            } else {
                // the key is the last entry's
                if i0 >= 0 {
                    assert(t[i0].pubkey == td[i0].pubkey);
                    assert(t[i0].pubkey == key);
                } else {
                    assert(t[td.len() as int].pubkey == key);
                }
            }
        }
        if has_meta_key(t, key) {
            let k = choose|k: int| 0 <= k < t.len() && (#[trigger] t[k]).pubkey == key;
            let i0 = index_of_key(td, m.pubkey);
            if i0 >= 0 {
                assert(t[k].pubkey == td[k].pubkey);
                assert(has_meta_key(td, key));
            } else {
                if k < t.len() - 1 {
                    assert(td[k].pubkey == key);
                } else {
                    assert(s[s.len() - 1].pubkey == key);
                }
            }
        }
    }
}

/// What deduplication leaves for a present key: one row at its first
/// position, writable exactly where some occurrence asked for write access.
pub proof fn lemma_merge_dedup_writable(s: Seq<AccountMeta>, key: PublicKey)
    requires
        has_meta_key(s, key),
    ensures
        ({
            let t = merge_dedup(s);
            let k = index_of_key(t, key);
            &&& 0 <= k < t.len()
            &&& t[k].pubkey == key
            &&& (t[k].is_writable <==> has_writable_key(s, key))
        }),
    decreases s.len(),
{
    let d = s.drop_last();
    let m = s.last();
    let td = merge_dedup(d);
    let t = merge_dedup(s);
    let i0 = index_of_key(td, m.pubkey);
    lemma_index_of_key_properties(td, m.pubkey);
    lemma_merge_dedup_has_key(d, key);
    assert(s =~= d.push(m));
    if m.pubkey == key {
        if has_meta_key(d, key) {
            lemma_merge_dedup_writable(d, key);
            let kd = index_of_key(td, key);
            // the update keeps every key in place, so the first match stays put
            assert(t[kd].pubkey == key);
            assert forall|j: int| 0 <= j < kd implies t[j].pubkey != key by {
                assert(t[j].pubkey == td[j].pubkey);
            }
            lemma_index_of_key_first(t, key, kd);
            assert(t[kd].is_writable == (td[kd].is_writable || m.is_writable));
            if t[kd].is_writable {
                if td[kd].is_writable {
                    let w = choose|i: int|
                        0 <= i < d.len() && (#[trigger] d[i]).pubkey == key && d[i].is_writable;
                    assert(s[w].pubkey == key && s[w].is_writable);
                } else {
                    assert(s[s.len() - 1].pubkey == key && s[s.len() - 1].is_writable);
                }
            }
            if has_writable_key(s, key) {
                let w = choose|i: int|
                    0 <= i < s.len() && (#[trigger] s[i]).pubkey == key && s[i].is_writable;
                if w < s.len() - 1 {
                    assert(d[w].pubkey == key && d[w].is_writable);
                    assert(has_writable_key(d, key));
                }
            }
        } else {
            // first occurrence of the key: it is appended
            assert(i0 == -1);
            assert(t == td.push(m));
            assert forall|j: int| 0 <= j < td.len() implies t[j].pubkey != key by {
                assert(t[j] == td[j]);
                assert(has_meta_key(td, key) == false);
            }
            assert(t[td.len() as int] == m);
            lemma_index_of_key_first(t, key, td.len() as int);
            if m.is_writable {
                assert(s[s.len() - 1].pubkey == key && s[s.len() - 1].is_writable);
            }
            if has_writable_key(s, key) {
                let w = choose|i: int|
                    0 <= i < s.len() && (#[trigger] s[i]).pubkey == key && s[i].is_writable;
                if w < s.len() - 1 {
                    assert(d[w].pubkey == key);
                    assert(has_meta_key(d, key));
                }
            }
        }
    } else {
        // the key must already occur before the last entry
        assert(has_meta_key(d, key)) by {
            let i = choose|i: int| 0 <= i < s.len() && (#[trigger] s[i]).pubkey == key;
            assert(d[i].pubkey == key);
        }
        lemma_merge_dedup_writable(d, key);
        let kd = index_of_key(td, key);
        lemma_index_of_key_properties(td, key);
        if i0 >= 0 {
            assert(kd != i0);
            assert(t[kd] == td[kd]);
            assert forall|j: int| 0 <= j < kd implies t[j].pubkey != key by {
                assert(t[j].pubkey == td[j].pubkey);
            }
            lemma_index_of_key_first(t, key, kd);
        } else {
            assert(t == td.push(m));
            assert(t[kd] == td[kd]);
            assert forall|j: int| 0 <= j < kd implies t[j].pubkey != key by {
                assert(t[j] == td[j]);
            }
            lemma_index_of_key_first(t, key, kd);
        }
        if has_writable_key(d, key) {
            let w = choose|i: int|
                0 <= i < d.len() && (#[trigger] d[i]).pubkey == key && d[i].is_writable;
            assert(s[w].pubkey == key && s[w].is_writable);
        }
        if has_writable_key(s, key) {
            let w = choose|i: int|
                0 <= i < s.len() && (#[trigger] s[i]).pubkey == key && s[i].is_writable;
            assert(w < s.len() - 1);
            assert(d[w].pubkey == key && d[w].is_writable);
        }
    }
}

/// Every account entry of every instruction appears in the flattened scan.
pub proof fn lemma_instruction_accounts_contains(instrs: Seq<Instruction>, i: int, j: int)
    requires
        0 <= i < instrs.len(),
        0 <= j < instrs[i].accounts@.len(),
    ensures
        instruction_accounts(instrs).contains(instrs[i].accounts@[j]),
    decreases instrs.len(),
{
    let d = instrs.drop_last();
    let m = instrs[i].accounts@[j];
    if i == instrs.len() - 1 {
        assert(instrs.last().accounts@.contains(m)) by {
            assert(instrs.last().accounts@[j] == m);
        }
        crate::sequences::lemma_contains_add(
            instruction_accounts(d),
            instrs.last().accounts@,
            m,
        );
    } else {
        assert(d[i] == instrs[i]);
        lemma_instruction_accounts_contains(d, i, j);
        crate::sequences::lemma_contains_add(
            instruction_accounts(d),
            instrs.last().accounts@,
            m,
        );
    }
}

/// The rank of every entry lies between 0 and 3.
pub proof fn lemma_meta_rank_bounds(m: AccountMeta)
    ensures
        0 <= meta_rank(m) <= 3,
{
}

/// The stable sort is the four rank groups, concatenated in order.
pub proof fn lemma_rank_sorted_parts(s: Seq<AccountMeta>)
    ensures
        rank_sorted(s) == s.filter(rank_pred(0)) + s.filter(rank_pred(1)) + s.filter(rank_pred(2))
            + s.filter(rank_pred(3)),
{
    assert(rank_sorted_upto(s, 0) == Seq::<AccountMeta>::empty());
    assert(rank_sorted_upto(s, 1) == rank_sorted_upto(s, 0) + s.filter(rank_pred(0)));
    assert(rank_sorted_upto(s, 2) == rank_sorted_upto(s, 1) + s.filter(rank_pred(1)));
    assert(rank_sorted_upto(s, 3) == rank_sorted_upto(s, 2) + s.filter(rank_pred(2)));
    assert(rank_sorted_upto(s, 4) == rank_sorted_upto(s, 3) + s.filter(rank_pred(3)));
    assert(rank_sorted(s) =~= s.filter(rank_pred(0)) + s.filter(rank_pred(1)) + s.filter(
        rank_pred(2),
    ) + s.filter(rank_pred(3)));
}

/// The stable sort keeps exactly the entries of its input.
pub proof fn lemma_rank_sorted_contains(s: Seq<AccountMeta>, x: AccountMeta)
    ensures
        rank_sorted(s).contains(x) <==> s.contains(x),
{
    crate::sequences::lemma_filter_contains(s, rank_pred(0), x);
    crate::sequences::lemma_filter_contains(s, rank_pred(1), x);
    crate::sequences::lemma_filter_contains(s, rank_pred(2), x);
    crate::sequences::lemma_filter_contains(s, rank_pred(3), x);
    crate::sequences::lemma_contains_add(
        s.filter(rank_pred(0)),
        s.filter(rank_pred(1)),
        x,
    );
    crate::sequences::lemma_contains_add(
        s.filter(rank_pred(0)) + s.filter(rank_pred(1)),
        s.filter(rank_pred(2)),
        x,
    );
    crate::sequences::lemma_contains_add(
        s.filter(rank_pred(0)) + s.filter(rank_pred(1)) + s.filter(rank_pred(2)),
        s.filter(rank_pred(3)),
        x,
    );
    lemma_rank_sorted_parts(s);
    assert(0 <= meta_rank(x) <= 3);
    assert(rank_pred(0)(x) == (meta_rank(x) == 0));
    assert(rank_pred(1)(x) == (meta_rank(x) == 1));
    assert(rank_pred(2)(x) == (meta_rank(x) == 2));
    assert(rank_pred(3)(x) == (meta_rank(x) == 3));
}

/// Deduplication is correct: where two instructions of a builder name the
/// same account key and their writable flags differ, the resolved table
/// holds exactly one row for that key, and that row is writable.
pub proof fn lemma_dedup_writable_promotion(
    b: MessageBuilder,
    i: int,
    ai: int,
    j: int,
    aj: int,
)
    requires
        0 <= i < b.instructions@.len(),
        0 <= ai < b.instructions@[i].accounts@.len(),
        0 <= j < b.instructions@.len(),
        0 <= aj < b.instructions@[j].accounts@.len(),
        b.instructions@[i].accounts@[ai].pubkey == b.instructions@[j].accounts@[aj].pubkey,
        b.instructions@[i].accounts@[ai].is_writable
            != b.instructions@[j].accounts@[aj].is_writable,
    ensures
        ({
            let t = resolved_table(b);
            let key = b.instructions@[i].accounts@[ai].pubkey;
            &&& exists|k: int|
                0 <= k < t.len() && (#[trigger] t[k]).pubkey == key && t[k].is_writable
            &&& forall|k1: int, k2: int|
                0 <= k1 < k2 < t.len() ==> (#[trigger] t[k1]).pubkey != (#[trigger] t[k2]).pubkey
        }),
{
    let key = b.instructions@[i].accounts@[ai].pubkey;
    let m1 = b.instructions@[i].accounts@[ai];
    let m2 = b.instructions@[j].accounts@[aj];
    let mw = if m1.is_writable {
        m1
    } else {
        m2
    };
    assert(mw.is_writable && mw.pubkey == key);
    if m1.is_writable {
        lemma_instruction_accounts_contains(b.instructions@, i, ai);
    } else {
        lemma_instruction_accounts_contains(b.instructions@, j, aj);
    }
    let collected = collected_metas(b);
    crate::sequences::lemma_contains_add(
        instruction_accounts(b.instructions@),
        b.program_ids@ + program_metas(b.instructions@),
        mw,
    );
    assert(collected.contains(mw));
    lemma_rank_sorted_contains(collected, mw);
    let scan = resolution_scan(b);
    crate::sequences::lemma_contains_add(payer_metas(b.payer), rank_sorted(collected), mw);
    assert(scan.contains(mw));
    let w = choose|k: int| 0 <= k < scan.len() && scan[k] == mw;
    assert(scan[w].pubkey == key);
    assert(has_meta_key(scan, key));
    assert(has_writable_key(scan, key)) by {
        assert(scan[w].pubkey == key && scan[w].is_writable);
    }
    lemma_merge_dedup_writable(scan, key);
    lemma_merge_dedup_unique(scan);
    let t = resolved_table(b);
    let k = index_of_key(t, key);
    assert(0 <= k < t.len() && t[k].pubkey == key && t[k].is_writable);
}

/// Whether the ranks of a scan never decrease.
pub open spec fn rank_ordered(s: Seq<AccountMeta>) -> bool {
    forall|i: int, j: int|
        0 <= i < j < s.len() ==> meta_rank(#[trigger] s[i]) <= meta_rank(#[trigger] s[j])
}

/// Whether every two entries of a scan that share a key agree on their
/// writable flag — the case in which no writable promotion occurs.
pub open spec fn uniform_writable(s: Seq<AccountMeta>) -> bool {
    forall|i: int, j: int|
        0 <= i < s.len() && 0 <= j < s.len() && (#[trigger] s[i]).pubkey == (
        #[trigger] s[j]).pubkey ==> s[i].is_writable == s[j].is_writable
}

/// The stable sort leaves the ranks non-decreasing.
pub proof fn lemma_rank_sorted_ordered(s: Seq<AccountMeta>)
    ensures
        rank_ordered(rank_sorted(s)),
{
    lemma_rank_sorted_parts(s);
    let f0 = s.filter(rank_pred(0));
    let f1 = s.filter(rank_pred(1));
    let f2 = s.filter(rank_pred(2));
    let f3 = s.filter(rank_pred(3));
    s.filter_lemma(rank_pred(0));
    s.filter_lemma(rank_pred(1));
    s.filter_lemma(rank_pred(2));
    s.filter_lemma(rank_pred(3));
    let t = rank_sorted(s);
    let l0 = f0.len() as int;
    let l1 = f1.len() as int;
    let l2 = f2.len() as int;
    assert forall|i: int| 0 <= i < t.len() implies meta_rank(#[trigger] t[i]) == (if i < l0 {
        0int
    } else if i < l0 + l1 {
        1int
    } else if i < l0 + l1 + l2 {
        2int
    } else {
        3int
    }) by {
        if i < l0 {
            assert(t[i] == f0[i]);
        } else if i < l0 + l1 {
            assert(t[i] == f1[i - l0]);
        } else if i < l0 + l1 + l2 {
            assert(t[i] == f2[i - l0 - l1]);
        } else {
            assert(t[i] == f3[i - l0 - l1 - l2]);
        }
    }
}

/// Without writable promotion, deduplication keeps the scan's rows as they
/// are, so a rank-ordered scan yields a rank-ordered table.
pub proof fn lemma_merge_dedup_ordered(s: Seq<AccountMeta>)
    requires
        uniform_writable(s),
        rank_ordered(s),
    ensures
        rank_ordered(merge_dedup(s)),
        forall|k: int| 0 <= k < merge_dedup(s).len() ==> s.contains(#[trigger] merge_dedup(s)[k]),
    decreases s.len(),
{
    if s.len() > 0 {
        let d = s.drop_last();
        let m = s.last();
        let td = merge_dedup(d);
        let t = merge_dedup(s);
        assert forall|i: int, j: int|
            0 <= i < d.len() && 0 <= j < d.len() && (#[trigger] d[i]).pubkey == (
        #[trigger] d[j]).pubkey implies d[i].is_writable == d[j].is_writable by {
            assert(d[i] == s[i] && d[j] == s[j]);
        }
        assert forall|i: int, j: int|
            0 <= i < j < d.len() implies meta_rank(#[trigger] d[i]) <= meta_rank(
            #[trigger] d[j],
        ) by {
            assert(d[i] == s[i] && d[j] == s[j]);
        }
        lemma_merge_dedup_ordered(d);
        lemma_index_of_key_properties(td, m.pubkey);
        let i0 = index_of_key(td, m.pubkey);
        if i0 >= 0 {
            // the existing row came from the scan and shares the key, so its
            // writable flag already matches and the update changes nothing
            assert(d.contains(td[i0]));
            let idx = choose|idx: int| 0 <= idx < d.len() && d[idx] == td[i0];
            assert(s[idx] == td[i0]);
            assert(s[idx].pubkey == s[s.len() - 1].pubkey);
            assert(td[i0].is_writable == m.is_writable);
            assert(t =~= td);
            assert forall|k: int| 0 <= k < t.len() implies s.contains(#[trigger] t[k]) by {
                assert(d.contains(td[k]));
                let w = choose|w: int| 0 <= w < d.len() && d[w] == td[k];
                assert(s[w] == t[k]);
            }
        } else {
            assert(t == td.push(m));
            assert forall|k: int| 0 <= k < t.len() implies s.contains(#[trigger] t[k]) by {
                if k < t.len() - 1 {
                    assert(t[k] == td[k]);
                    assert(d.contains(td[k]));
                    let w = choose|w: int| 0 <= w < d.len() && d[w] == td[k];
                    assert(s[w] == t[k]);
                } else {
                    assert(s[s.len() - 1] == t[k]);
                }
            }
            assert forall|k1: int, k2: int|
                0 <= k1 < k2 < t.len() implies meta_rank(#[trigger] t[k1]) <= meta_rank(
                #[trigger] t[k2],
            ) by {
                if k2 < t.len() - 1 {
                    assert(t[k1] == td[k1] && t[k2] == td[k2]);
                } else {
                    assert(t[k1] == td[k1]);
                    assert(d.contains(td[k1]));
                    let w = choose|w: int| 0 <= w < d.len() && d[w] == td[k1];
                    assert(s[w] == t[k1]);
                    assert(meta_rank(s[w]) <= meta_rank(s[s.len() - 1]));
                }
            }
        }
    }
}

/// Partition invariant: where no writable promotion occurs — every two
/// entries of the resolution scan sharing a key agree on their writable
/// flag — scanning the resolved table yields a non-decreasing rank: no
/// read-only row precedes a writable row within a signer class, and no
/// non-signer row precedes a signer row.
pub proof fn lemma_partition_invariant(b: MessageBuilder)
    requires
        uniform_writable(resolution_scan(b)),
    ensures
        rank_ordered(resolved_table(b)),
{
    let collected = collected_metas(b);
    let sorted = rank_sorted(collected);
    let scan = resolution_scan(b);
    lemma_rank_sorted_ordered(collected);
    assert forall|i: int, j: int|
        0 <= i < j < scan.len() implies meta_rank(#[trigger] scan[i]) <= meta_rank(
        #[trigger] scan[j],
    ) by {
        let p = payer_metas(b.payer).len() as int;
        if i < p {
            // the payer entry is a writable signer: the least rank
            assert(meta_rank(scan[i]) == 0);
        } else {
            assert(scan[i] == sorted[i - p]);
            assert(scan[j] == sorted[j - p]);
        }
    }
    lemma_merge_dedup_ordered(scan);
}

impl Default for MessageBuilder {
    /// Equal to `MessageBuilder::new`.
    fn default() -> (r: Self)
        ensures
            r.instructions@ == Seq::<Instruction>::empty(),
            r.program_ids@ == Seq::<AccountMeta>::empty(),
            r.signed_keys@ == Seq::<PoseidonPublicKey>::empty(),
            r.unsigned_keys@ == Seq::<PoseidonPublicKey>::empty(),
            r.num_readonly_signed_accounts == 0u8,
            r.num_readonly_unsigned_accounts == 0u8,
            r.payer is None,
    {
        MessageBuilder::new()
    }
}

} // verus!
