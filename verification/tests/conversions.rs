use poseidon::base58_to_binary;
use poseidon::base58_to_u32_array;
use poseidon::AccountData;
use poseidon::Cluster;
use poseidon::Commitment;
use poseidon::GetLatestBlockhash;
use poseidon::PoseidonConfig;
use poseidon::PoseidonError;
use poseidon::RequestAirdrop;
use poseidon::Utilities;

const ZERO_KEY_BASE58: &str = "11111111111111111111111111111111";
const COUNTING_KEY_BASE58: &str = "1thX6LZfHDZZKUs92febYZhYRcXddmzfzF2NvTkPNE";

fn counting_key() -> [u8; 32] {
    let mut key = [0u8; 32];
    let mut i = 0u8;
    while i < 32 {
        key[i as usize] = i;
        i += 1;
    }
    key
}

#[test]
fn base58_decodes_a_full_key() {
    assert_eq!(base58_to_u32_array(ZERO_KEY_BASE58).unwrap(), [0u8; 32]);
    assert_eq!(base58_to_u32_array(COUNTING_KEY_BASE58).unwrap(), counting_key());
}

#[test]
fn base58_rejects_invalid_characters() {
    assert!(matches!(
        base58_to_u32_array("0invalid"),
        Err(PoseidonError::InvalidBase58ForPublicKey)
    ));
}

#[test]
fn base58_rejects_wrong_lengths() {
    assert!(matches!(
        base58_to_u32_array("abc"),
        Err(PoseidonError::ErrorConvertingToU832)
    ));
}

#[test]
fn base58_to_binary_keeps_every_byte() {
    assert_eq!(base58_to_binary("abc").unwrap(), vec![1, 185, 123]);
    assert!(matches!(
        base58_to_binary("0"),
        Err(PoseidonError::InvalidBase58ToVec)
    ));
}

#[test]
fn utilities_namespace_matches_free_functions() {
    assert_eq!(
        Utilities::base58_to_u32_array(COUNTING_KEY_BASE58).unwrap(),
        base58_to_u32_array(COUNTING_KEY_BASE58).unwrap()
    );
    assert_eq!(Utilities::base58_to_binary("abc").unwrap(), vec![1, 185, 123]);
    assert!(matches!(
        Utilities::base58_to_binary("0"),
        Err(PoseidonError::InvalidBase58ForPublicKey)
    ));
}

#[test]
fn cluster_urls_are_fixed() {
    assert_eq!(Cluster::LocalNet.url(), "https://127.0.0.1:8899");
    assert_eq!(Cluster::DevNet.url(), "https://api.devnet.solana.com");
    assert_eq!(Cluster::TestNet.url(), "https://api.testnet.solana.com");
    assert_eq!(Cluster::MainNetBeta.url(), "https://api.mainnet-beta.solana.com");
    assert_eq!(Cluster::default(), Cluster::DevNet);
}

#[test]
fn commitment_reads_names_case_insensitively() {
    assert_eq!(Commitment::from("PROCESSED"), Commitment::Processed);
    assert_eq!(Commitment::from("confirmed"), Commitment::Confirmed);
    assert_eq!(Commitment::from("Finalized"), Commitment::Finalized);
    assert_eq!(Commitment::from("anything else"), Commitment::InvalidCommitment);
    assert_eq!(Commitment::default(), Commitment::Finalized);
}

#[test]
fn commitment_names_round_trip() {
    assert_eq!(Commitment::Processed.as_str(), "processed");
    assert_eq!(Commitment::Confirmed.as_str(), "confirmed");
    assert_eq!(Commitment::Finalized.as_str(), "finalized");
    assert_eq!(Commitment::InvalidCommitment.as_str(), "invalid_commitment");
    assert_eq!(Commitment::from(Commitment::Confirmed.as_str()), Commitment::Confirmed);
}

#[test]
fn request_airdrop_builders_accumulate() {
    let request = RequestAirdrop::new([1u8; 32])
        .add_lamports(5)
        .change_commitment(Commitment::Processed);
    assert_eq!(request.public_key, [1u8; 32]);
    assert_eq!(request.lamports, 5);
    assert_eq!(request.commitment, Commitment::Processed);
    assert_eq!(RequestAirdrop::new([1u8; 32]).lamports, 2);
}

#[test]
fn blockhash_response_decodes_to_bytes() {
    let response = GetLatestBlockhash {
        blockhash: COUNTING_KEY_BASE58.to_string(),
        last_valid_block_height: 10,
    };
    assert_eq!(response.to_bytes().unwrap(), counting_key());

    let bad = GetLatestBlockhash { blockhash: "0".to_string(), last_valid_block_height: 0 };
    assert!(matches!(bad.to_bytes(), Err(PoseidonError::Bs58Decode)));

    let short = GetLatestBlockhash { blockhash: "abc".to_string(), last_valid_block_height: 0 };
    assert!(matches!(short.to_bytes(), Err(PoseidonError::ErrorConvertingToU832)));
}

fn account_data(entries: Vec<&str>) -> AccountData {
    AccountData {
        jsonrpc: "2.0".to_string(),
        id: 1,
        slot: 0,
        data: entries.into_iter().map(|s| s.to_string()).collect(),
        owner: ZERO_KEY_BASE58.to_string(),
        rent_epoch: 0,
        executable: false,
        lamports: 0,
    }
}

#[test]
fn account_data_decodes_every_entry() {
    let data = account_data(vec!["abc", "2g"]);
    let decoded = data.all_binary_data().unwrap();
    assert_eq!(decoded[0], vec![1, 185, 123]);
    assert_eq!(decoded[1], bs58::decode("2g").into_vec().unwrap());
    assert_eq!(data.indexed_binary_data(0).unwrap(), vec![1, 185, 123]);
    assert_eq!(data.owner_public_key().unwrap(), [0u8; 32]);
}

#[test]
fn account_data_reports_the_first_bad_entry() {
    let data = account_data(vec!["abc", "0", "0"]);
    let error = data.all_binary_data().unwrap_err();
    assert_eq!(error.0, 1);
    assert!(matches!(error.1, PoseidonError::InvalidBase58ToVec));
    assert!(matches!(
        data.indexed_binary_data(1),
        Err(PoseidonError::InvalidBase58ToVec)
    ));
}

#[test]
fn config_defaults_to_the_zero_key() {
    let config = PoseidonConfig::new();
    assert_eq!(config.public_key, ZERO_KEY_BASE58);
    assert_eq!(config.program_id, ZERO_KEY_BASE58);
}

#[test]
fn instruction_program_id_from_base58() {
    let ix = poseidon::Instruction::new()
        .add_base58_program_id(COUNTING_KEY_BASE58)
        .unwrap();
    assert_eq!(ix.program_id, counting_key());
    assert!(matches!(
        poseidon::Instruction::new().add_base58_program_id("abc"),
        Err(PoseidonError::ErrorConvertingToU832)
    ));
}
