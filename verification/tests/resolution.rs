use poseidon::AccountMeta;
use poseidon::Instruction;
use poseidon::MessageBuilder;

const A: [u8; 32] = [1u8; 32];
const B: [u8; 32] = [2u8; 32];
const P1: [u8; 32] = [10u8; 32];
const P2: [u8; 32] = [20u8; 32];

#[test]
fn two_instruction_scenario_orders_the_table() {
    // First instruction: accounts A (signer, writable) and B (non-signer,
    // read-only) under program P1. Second: B (signer, read-only) under P2.
    let ix1 = Instruction::new()
        .add_program_id(P1)
        .add_account(AccountMeta::new(A, true))
        .add_account(AccountMeta::new_readonly(B, false));
    let ix2 = Instruction::new()
        .add_program_id(P2)
        .add_account(AccountMeta::new_readonly(B, true));
    let built = MessageBuilder::new()
        .add_instruction(ix1)
        .add_instruction(ix2)
        .build();

    assert_eq!(built.signed_keys, vec![A, B]);
    assert_eq!(built.unsigned_keys, vec![P1, P2]);
    // B signs but stays read-only; P1 and P2 are read-only non-signers.
    assert_eq!(built.num_readonly_signed_accounts, 1);
    assert_eq!(built.num_readonly_unsigned_accounts, 2);
}

#[test]
fn differing_writable_flags_promote_one_entry() {
    // The same key named read-only by one instruction and writable by the
    // other collapses to a single writable row.
    let ix1 = Instruction::new()
        .add_program_id(P1)
        .add_account(AccountMeta::new_readonly(A, false));
    let ix2 = Instruction::new()
        .add_program_id(P2)
        .add_account(AccountMeta::new(A, false));
    let built = MessageBuilder::new()
        .add_instruction(ix1)
        .add_instruction(ix2)
        .build();

    let occurrences = built.unsigned_keys.iter().filter(|k| **k == A).count();
    assert_eq!(occurrences, 1);
    assert_eq!(built.signed_keys, Vec::<[u8; 32]>::new());
    assert_eq!(built.unsigned_keys, vec![A, P1, P2]);
    // Only the two program rows are read-only: A was promoted to writable.
    assert_eq!(built.num_readonly_unsigned_accounts, 2);
}

#[test]
fn payer_stands_first() {
    let ix = Instruction::new()
        .add_program_id(P1)
        .add_account(AccountMeta::new(A, true));
    let built = MessageBuilder::new()
        .add_instruction(ix)
        .add_payer(B)
        .build();
    assert_eq!(built.signed_keys, vec![B, A]);
    assert_eq!(built.unsigned_keys, vec![P1]);
    assert_eq!(built.num_readonly_signed_accounts, 0);
    assert_eq!(built.num_readonly_unsigned_accounts, 1);
}

#[test]
fn duplicate_program_ids_collapse() {
    let ix1 = Instruction::new()
        .add_program_id(P1)
        .add_account(AccountMeta::new(A, true));
    let ix2 = Instruction::new()
        .add_program_id(P1)
        .add_account(AccountMeta::new(B, true));
    let built = MessageBuilder::new()
        .add_instruction(ix1)
        .add_instruction(ix2)
        .build();
    assert_eq!(built.unsigned_keys, vec![P1]);
}

#[test]
fn program_id_named_as_account_collapses() {
    // A key that is both a referenced account and a program id keeps the
    // union of its attributes: the account reference came first and signs.
    let ix = Instruction::new()
        .add_program_id(A)
        .add_account(AccountMeta::new(A, true));
    let built = MessageBuilder::new().add_instruction(ix).build();
    assert_eq!(built.signed_keys, vec![A]);
    assert_eq!(built.unsigned_keys, Vec::<[u8; 32]>::new());
}

#[test]
fn empty_builder_resolves_to_nothing() {
    let built = MessageBuilder::new().build();
    assert_eq!(built.signed_keys, Vec::<[u8; 32]>::new());
    assert_eq!(built.unsigned_keys, Vec::<[u8; 32]>::new());
    assert_eq!(built.num_readonly_signed_accounts, 0);
    assert_eq!(built.num_readonly_unsigned_accounts, 0);
}

#[test]
fn payer_only_builder_resolves_to_payer() {
    let built = MessageBuilder::new().add_payer(A).build();
    assert_eq!(built.signed_keys, vec![A]);
    assert_eq!(built.unsigned_keys, Vec::<[u8; 32]>::new());
}

#[test]
fn ranks_never_decrease_without_promotion() {
    // No key is named twice with differing writable flags, so scanning the
    // resolved rows in order shows signers before non-signers and writable
    // rows before read-only rows within each class.
    let ix1 = Instruction::new()
        .add_program_id(P1)
        .add_account(AccountMeta::new(A, true))
        .add_account(AccountMeta::new_readonly(B, true));
    let ix2 = Instruction::new()
        .add_program_id(P2)
        .add_account(AccountMeta::new([3u8; 32], false));
    let built = MessageBuilder::new()
        .add_instruction(ix1)
        .add_instruction(ix2)
        .build();
    assert_eq!(built.signed_keys, vec![A, B]);
    assert_eq!(built.unsigned_keys, vec![[3u8; 32], P1, P2]);
    assert_eq!(built.num_readonly_signed_accounts, 1);
    assert_eq!(built.num_readonly_unsigned_accounts, 2);
}

#[test]
fn later_writable_occurrence_upgrades_in_place() {
    // B is first seen read-only among the signers and later writable among
    // the non-signers: the single row keeps its position and signer flag
    // but becomes writable, without re-sorting.
    let ix1 = Instruction::new()
        .add_program_id(P1)
        .add_account(AccountMeta::new_readonly(A, true))
        .add_account(AccountMeta::new_readonly(B, true));
    let ix2 = Instruction::new()
        .add_program_id(P2)
        .add_account(AccountMeta::new(B, false));
    let built = MessageBuilder::new()
        .add_instruction(ix1)
        .add_instruction(ix2)
        .build();
    assert_eq!(built.signed_keys, vec![A, B]);
    assert_eq!(built.unsigned_keys, vec![P1, P2]);
    // A stays read-only; B was upgraded to writable in place.
    assert_eq!(built.num_readonly_signed_accounts, 1);
    assert_eq!(built.num_readonly_unsigned_accounts, 2);
}

#[test]
fn instruction_build_drops_repeated_accounts() {
    let meta = AccountMeta::new(A, true);
    let other = AccountMeta::new_readonly(B, false);
    let ix = Instruction::new()
        .add_account(meta)
        .add_account(other)
        .add_account(meta)
        .build();
    assert_eq!(ix.accounts, vec![meta, other]);
}

#[test]
fn instruction_build_keeps_distinct_flag_combinations() {
    // Entries are deduplicated by full equality, not by key alone.
    let writable = AccountMeta::new(A, false);
    let readonly = AccountMeta::new_readonly(A, false);
    let ix = Instruction::new().add_account(writable).add_account(readonly).build();
    assert_eq!(ix.accounts.len(), 2);
}
