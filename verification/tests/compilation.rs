use poseidon::AccountMeta;
use poseidon::Instruction;
use poseidon::Message;
use poseidon::MessageBuilder;
use poseidon::PoseidonError;

const A: [u8; 32] = [1u8; 32];
const B: [u8; 32] = [2u8; 32];
const P1: [u8; 32] = [10u8; 32];
const P2: [u8; 32] = [20u8; 32];

fn two_instruction_builder() -> MessageBuilder {
    let ix1 = Instruction::new()
        .add_program_id(P1)
        .add_account(AccountMeta::new(A, true))
        .add_account(AccountMeta::new_readonly(B, false));
    let ix2 = Instruction::new()
        .add_program_id(P2)
        .add_account(AccountMeta::new_readonly(B, true));
    MessageBuilder::new().add_instruction(ix1).add_instruction(ix2).build()
}

#[test]
fn compiled_message_has_expected_shape() {
    let message = Message::new()
        .add_recent_blockhash([9u8; 32])
        .build(two_instruction_builder())
        .unwrap();

    assert_eq!(message.account_keys, vec![A, B, P1, P2]);
    assert_eq!(message.header.num_required_signatures, 2);
    assert_eq!(message.header.num_readonly_signed_accounts, 1);
    assert_eq!(message.header.num_readonly_unsigned_accounts, 2);
    assert_eq!(message.recent_blockhash, [9u8; 32]);
    assert_eq!(message.instructions.len(), 2);

    assert_eq!(message.instructions[0].program_id_index, 2);
    assert_eq!(message.instructions[0].accounts, vec![0, 1]);
    assert_eq!(message.instructions[1].program_id_index, 3);
    assert_eq!(message.instructions[1].accounts, vec![1]);
}

#[test]
fn compiled_indices_round_trip_to_the_original_keys() {
    let builder = two_instruction_builder();
    let originals: Vec<Instruction> = builder.instructions.clone();
    let message = Message::new().build(builder).unwrap();

    for (ix, compiled) in originals.iter().zip(message.instructions.iter()) {
        let program = message.account_keys[compiled.program_id_index as usize];
        assert_eq!(program, ix.program_id);
        assert_eq!(compiled.accounts.len(), ix.accounts.len());
        for (meta, index) in ix.accounts.iter().zip(compiled.accounts.iter()) {
            assert_eq!(message.account_keys[*index as usize], meta.pubkey);
        }
        assert_eq!(compiled.data, ix.data);
    }
}

#[test]
fn missing_program_id_is_reported() {
    let builder = MessageBuilder {
        instructions: vec![Instruction::new().add_program_id(P1)],
        program_ids: Vec::new(),
        signed_keys: vec![A],
        unsigned_keys: Vec::new(),
        num_readonly_signed_accounts: 0,
        num_readonly_unsigned_accounts: 0,
        payer: None,
    };
    let result = Message::new().build(builder);
    assert!(matches!(result, Err(PoseidonError::ProgramIdNotFound)));
}

#[test]
fn missing_account_key_is_reported() {
    let instruction = Instruction::new()
        .add_program_id(P1)
        .add_account(AccountMeta::new(B, false));
    let builder = MessageBuilder {
        instructions: vec![instruction],
        program_ids: Vec::new(),
        signed_keys: vec![A, P1],
        unsigned_keys: Vec::new(),
        num_readonly_signed_accounts: 0,
        num_readonly_unsigned_accounts: 0,
        payer: None,
    };
    let result = Message::new().build(builder);
    assert!(matches!(
        result,
        Err(PoseidonError::AccountIndexNotFoundInMessageAccounts)
    ));
}

#[test]
fn repeated_keys_are_deduplicated_in_the_message() {
    let builder = MessageBuilder {
        instructions: Vec::new(),
        program_ids: Vec::new(),
        signed_keys: vec![A, A],
        unsigned_keys: vec![B, A],
        num_readonly_signed_accounts: 0,
        num_readonly_unsigned_accounts: 0,
        payer: None,
    };
    let message = Message::new().build(builder).unwrap();
    assert_eq!(message.account_keys, vec![A, B]);
    // The required-signature count is taken before deduplication.
    assert_eq!(message.header.num_required_signatures, 2);
}

#[test]
fn add_instruction_compiles_against_its_own_accounts() {
    let instruction = Instruction::new()
        .add_program_id([5u8; 32])
        .add_account(AccountMeta::new(A, true))
        .add_account(AccountMeta::new([5u8; 32], false))
        .add_account(AccountMeta::new_readonly(B, false))
        .add_data(&[7, 8]);
    let message = Message::new().add_instruction(instruction);

    assert_eq!(message.account_keys, vec![A, [5u8; 32], B]);
    assert_eq!(message.instructions.len(), 1);
    let compiled = &message.instructions[0];
    // The entry carrying the program id lends its position to the program.
    assert_eq!(compiled.program_id_index, 1);
    assert_eq!(compiled.accounts, vec![0, 2]);
    assert_eq!(compiled.data, vec![7, 8]);
}

#[test]
fn header_setters_write_the_header() {
    let message = Message::new()
        .num_required_signatures(3)
        .num_readonly_signed_accounts(1)
        .num_readonly_unsigned_accounts(2);
    assert_eq!(message.header.num_required_signatures, 3);
    assert_eq!(message.header.num_readonly_signed_accounts, 1);
    assert_eq!(message.header.num_readonly_unsigned_accounts, 2);
}

#[test]
fn add_header_and_account_key_accumulate() {
    let header = poseidon::MessageHeader {
        num_required_signatures: 1,
        num_readonly_signed_accounts: 0,
        num_readonly_unsigned_accounts: 0,
    };
    let message = Message::new().add_header(header).add_account_key(A).add_account_key(B);
    assert_eq!(message.header, header);
    assert_eq!(message.account_keys, vec![A, B]);
}
