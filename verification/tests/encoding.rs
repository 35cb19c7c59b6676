use poseidon::encode_length;
use poseidon::CompiledInstruction;
use poseidon::Ed25519ProgramCPI;
use poseidon::Message;
use poseidon::MessageHeader;
use poseidon::PdaBuilder;
use poseidon::SystemInstruction;
use poseidon::Transaction;

#[test]
fn shortvec_lengths_encode_exactly() {
    assert_eq!(encode_length(0), vec![0]);
    assert_eq!(encode_length(1), vec![1]);
    assert_eq!(encode_length(0x7F), vec![0x7F]);
    assert_eq!(encode_length(0x80), vec![0x80, 0x01]);
    assert_eq!(encode_length(0xFF), vec![0xFF, 0x01]);
    assert_eq!(encode_length(0x3FFF), vec![0xFF, 0x7F]);
    assert_eq!(encode_length(0x4000), vec![0x80, 0x80, 0x01]);
    assert_eq!(encode_length(0xFFFF), vec![0xFF, 0xFF, 0x03]);
}

fn small_message() -> Message {
    Message {
        header: MessageHeader {
            num_required_signatures: 1,
            num_readonly_signed_accounts: 0,
            num_readonly_unsigned_accounts: 0,
        },
        account_keys: vec![[7u8; 32]],
        recent_blockhash: [9u8; 32],
        instructions: vec![CompiledInstruction {
            program_id_index: 0,
            accounts: vec![0],
            data: vec![1, 2, 3],
        }],
    }
}

#[test]
fn message_serializes_to_the_wire_format() {
    let bytes = small_message().to_bytes().unwrap();
    let mut expected: Vec<u8> = vec![1, 0, 0];
    expected.push(1);
    expected.extend_from_slice(&[7u8; 32]);
    expected.extend_from_slice(&[9u8; 32]);
    expected.push(1);
    expected.push(0);
    expected.push(1);
    expected.push(0);
    expected.push(3);
    expected.extend_from_slice(&[1, 2, 3]);
    assert_eq!(bytes, expected);
}

#[test]
fn transaction_serializes_signatures_first() {
    let transaction = Transaction::new(small_message()).add_signature([4u8; 64]);
    let bytes = transaction.to_bytes().unwrap();
    let mut expected: Vec<u8> = vec![1];
    expected.extend_from_slice(&[4u8; 64]);
    expected.extend_from_slice(&small_message().to_bytes().unwrap());
    assert_eq!(bytes, expected);
}

#[test]
fn transaction_base58_matches_its_bytes() {
    let transaction = Transaction::new(small_message()).add_signature([4u8; 64]);
    let bytes = transaction.to_bytes().unwrap();
    let encoded = transaction.to_base58().unwrap();
    assert_eq!(encoded, bs58::encode(&bytes).into_string());
}

#[test]
fn create_account_with_seed_layout_is_exact() {
    let payload = SystemInstruction::CreateAccountWithSeed {
        base: [1u8; 32],
        seed: "ab".to_string(),
        lamports: 5,
        space: 7,
        owner: [2u8; 32],
    };
    let mut expected: Vec<u8> = vec![3, 0, 0, 0];
    expected.extend_from_slice(&[1u8; 32]);
    expected.extend_from_slice(&[2, 0, 0, 0, 0, 0, 0, 0]);
    expected.extend_from_slice(b"ab");
    expected.extend_from_slice(&[5, 0, 0, 0, 0, 0, 0, 0]);
    expected.extend_from_slice(&[7, 0, 0, 0, 0, 0, 0, 0]);
    expected.extend_from_slice(&[2u8; 32]);
    assert_eq!(payload.encode(), expected);
}

#[test]
fn transfer_layout_is_exact() {
    let payload = SystemInstruction::Transfer { lamports: 0x0102030405060708 };
    assert_eq!(
        payload.encode(),
        vec![2, 0, 0, 0, 8, 7, 6, 5, 4, 3, 2, 1]
    );
}

#[test]
fn pda_build_wraps_the_system_instruction() {
    let instruction = PdaBuilder::new()
        .add_from([1u8; 32])
        .add_base([3u8; 32])
        .add_seed("ab")
        .add_lamports(5)
        .add_space(7)
        .add_owner([2u8; 32])
        .build()
        .unwrap();
    assert_eq!(instruction.program_id, [0u8; 32]);
    assert_eq!(instruction.accounts.len(), 3);
    assert_eq!(instruction.accounts[0].pubkey, [1u8; 32]);
    assert!(instruction.accounts[0].is_signer && instruction.accounts[0].is_writable);
    assert!(!instruction.accounts[1].is_signer && instruction.accounts[1].is_writable);
    assert!(instruction.accounts[2].is_signer && !instruction.accounts[2].is_writable);
    let payload = SystemInstruction::CreateAccountWithSeed {
        base: [3u8; 32],
        seed: "ab".to_string(),
        lamports: 5,
        space: 7,
        owner: [2u8; 32],
    };
    assert_eq!(instruction.data, payload.encode());
}

#[test]
fn ed25519_layout_is_exact() {
    let instruction = Ed25519ProgramCPI::new([3u8; 32])
        .add_signature([4u8; 64])
        .build(&[9, 9, 9]);
    let mut expected: Vec<u8> = vec![
        1, 0, // one signature, padding
        48, 0, 255, 255, // signature offset, instruction index
        16, 0, 255, 255, // public key offset, instruction index
        112, 0, 3, 0, 255, 255, // message offset, size, instruction index
    ];
    expected.extend_from_slice(&[3u8; 32]);
    expected.extend_from_slice(&[4u8; 64]);
    expected.extend_from_slice(&[9, 9, 9]);
    assert_eq!(instruction.data, expected);
    assert!(instruction.accounts.is_empty());
    assert_eq!(instruction.program_id, poseidon::ed25519_program_id());
}

#[test]
fn ed25519_build_is_deterministic() {
    let first = Ed25519ProgramCPI::new([3u8; 32]).add_signature([4u8; 64]).build(&[1, 2]);
    let second = Ed25519ProgramCPI::new([3u8; 32]).add_signature([4u8; 64]).build(&[1, 2]);
    assert_eq!(first.data, second.data);
}

#[test]
fn oversized_instruction_data_cannot_be_encoded() {
    let mut message = small_message();
    message.instructions[0].data = vec![0u8; 0x10000];
    assert!(matches!(
        message.to_bytes(),
        Err(poseidon::PoseidonError::BincodeError)
    ));
    let transaction = Transaction::new(message);
    assert!(matches!(
        transaction.to_base58(),
        Err(poseidon::PoseidonError::BincodeError)
    ));
}

#[test]
fn message_size_field_is_little_endian() {
    let message = vec![0u8; 0x0102];
    let instruction = Ed25519ProgramCPI::new([0u8; 32]).build(&message);
    assert_eq!(instruction.data[12], 0x02);
    assert_eq!(instruction.data[13], 0x01);
}
