use qp_hd::config::{build_seed, require_seed, BalanceProof, Config, SeedError};
use qp_hd::protocol_id::QuantumId;

struct Admitted;
impl BalanceProof for Admitted {}

const SEED_HEX: &str = "000102030405060708090a0b0c0d0e0f101112131415161718191A1B1C1D1E1F";

fn expected_seed() -> [u8; 32] {
    let mut s = [0u8; 32];
    for (i, b) in s.iter_mut().enumerate() {
        *b = i as u8;
    }
    s
}

#[test]
fn seed_decodes_from_64_hex_digits() {
    assert_eq!(Config::check_seed_text(SEED_HEX), Ok(()));
    assert_eq!(require_seed(Admitted, SEED_HEX), expected_seed());
}

#[test]
fn quantum_seed_is_the_protocol_seed() {
    assert_eq!(QuantumId::new().quantum_seed(Admitted, SEED_HEX), expected_seed());
}

#[test]
fn seed_hex_round_trip() {
    let seed = expected_seed();
    assert_eq!(require_seed(Admitted, &hex::encode(seed)), seed);
}

#[test]
fn seed_with_bad_digits_is_refused() {
    assert_eq!(Config::check_seed_text("zz"), Err(SeedError::InvalidHex));
    assert_eq!(Config::check_seed_text("abc"), Err(SeedError::InvalidHex));
    let mut bad = SEED_HEX.to_string();
    bad.replace_range(10..11, "g");
    assert_eq!(Config::check_seed_text(&bad), Err(SeedError::InvalidHex));
}

#[test]
fn seed_of_wrong_length_is_refused() {
    assert_eq!(Config::check_seed_text(""), Err(SeedError::WrongLength));
    assert_eq!(Config::check_seed_text(&SEED_HEX[..62]), Err(SeedError::WrongLength));
    let long = format!("{}00", SEED_HEX);
    assert_eq!(Config::check_seed_text(&long), Err(SeedError::WrongLength));
}

#[test]
fn seed_error_messages() {
    assert_eq!(SeedError::InvalidHex.message(), "Invalid PROTOCOL_SEED hex encoding (must be hex)");
    assert_eq!(
        SeedError::WrongLength.message(),
        "PROTOCOL_SEED must be exactly 32 bytes (64 hex chars)"
    );
}

#[test]
fn user_seed_is_sha256_of_protocol_seed_and_user() {
    assert_eq!(
        hex::encode(build_seed("a", "bc")),
        "ba7816bf8f01cfea414140de5dae2223b00361a396177a9cb410ff61f20015ad"
    );
    assert_eq!(build_seed("ab", "c"), build_seed("a", "bc"));
    assert_eq!(build_seed("seed", "user-1").len(), 32);
    assert_ne!(build_seed("seed", "user-1"), build_seed("seed", "user-2"));
}
