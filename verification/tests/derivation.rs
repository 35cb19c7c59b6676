use poseidon::PdaBuilder;
use poseidon::PoseidonError;

fn owner_ending_in_marker() -> [u8; 32] {
    let marker = *b"ProgramDerivedAddress";
    let mut owner = [0u8; 32];
    let mut i = 0;
    while i < 21 {
        owner[11 + i] = marker[i];
        i += 1;
    }
    owner
}

#[test]
fn derive_matches_sha256_fixture() {
    // sha256([1; 32] || "abc" || [2; 32])
    let expected: [u8; 32] = [
        71, 244, 1, 215, 185, 245, 230, 98, 246, 0, 211, 194, 58, 78, 235, 184, 43, 9, 218, 218,
        78, 76, 217, 197, 235, 16, 181, 13, 166, 252, 66, 122,
    ];
    let built = PdaBuilder::new()
        .add_base([1u8; 32])
        .add_seed("abc")
        .add_owner([2u8; 32])
        .derive_public_key()
        .unwrap();
    assert_eq!(built.to_public_key, expected);
}

#[test]
fn derive_is_deterministic() {
    let first = PdaBuilder::new()
        .add_base([9u8; 32])
        .add_seed("seed")
        .add_owner([7u8; 32])
        .derive_public_key()
        .unwrap()
        .to_public_key;
    let second = PdaBuilder::new()
        .add_base([9u8; 32])
        .add_seed("seed")
        .add_owner([7u8; 32])
        .derive_public_key()
        .unwrap()
        .to_public_key;
    assert_eq!(first, second);
}

#[test]
fn seed_of_exactly_32_bytes_succeeds() {
    let seed: String = "a".repeat(32);
    let result = PdaBuilder::new().add_seed(seed.as_str()).derive_public_key();
    assert!(result.is_ok());
}

#[test]
fn seed_of_33_bytes_fails() {
    let seed: String = "a".repeat(33);
    let result = PdaBuilder::new().add_seed(seed.as_str()).derive_public_key();
    assert!(matches!(result, Err(PoseidonError::MaxSeedLengthExceeded)));
}

#[test]
fn owner_with_marker_suffix_is_illegal() {
    let result = PdaBuilder::new()
        .add_owner(owner_ending_in_marker())
        .derive_public_key();
    assert!(matches!(result, Err(PoseidonError::IllegalOwner)));
}

#[test]
fn owner_without_marker_suffix_is_legal() {
    let mut owner = owner_ending_in_marker();
    owner[31] ^= 1;
    let result = PdaBuilder::new().add_owner(owner).derive_public_key();
    assert!(result.is_ok());
}

#[test]
fn seed_length_outranks_owner_check() {
    let seed: String = "a".repeat(33);
    let result = PdaBuilder::new()
        .add_seed(seed.as_str())
        .add_owner(owner_ending_in_marker())
        .derive_public_key();
    assert!(matches!(result, Err(PoseidonError::MaxSeedLengthExceeded)));
}

#[test]
fn borrowing_builder_derives_the_same_address() {
    let consuming = PdaBuilder::new()
        .add_base([1u8; 32])
        .add_seed("abc")
        .add_owner([2u8; 32])
        .derive_public_key()
        .unwrap()
        .to_public_key;
    let borrowing = poseidon::pdas::PdaBuilder::new()
        .base([1u8; 32])
        .seed("abc")
        .owner([2u8; 32])
        .derive_public_key()
        .unwrap()
        .pda_public_key();
    assert_eq!(consuming, borrowing);
}

#[test]
fn borrowing_builder_defaults_to_poseidon_seed() {
    let builder = poseidon::pdas::PdaBuilder::new();
    assert_eq!(builder.seed, "POSEIDON");
}
