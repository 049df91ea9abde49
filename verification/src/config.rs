//! The protocol seed: the 32-byte secret that every derivation is anchored
//! to, supplied as 64 hexadecimal digits.
use vstd::prelude::*;
use vstd::string::StringSliceAdditionalSpecFns;
use crate::crypto::{hex_decode, sha256, sha256_digest};
use crate::encoding::{
    ascii_bytes, hex_decodable, hex_decoded, hex_lower, is_hex_byte, lemma_hex_lower_decodes,
};

verus! {

/// Evidence that the economic gate admitted the caller. Only holders of
/// such evidence may read the protocol seed.
pub trait BalanceProof {}

/// Why a protocol seed text was refused.
#[derive(Debug, Clone, Copy, PartialEq, Eq, Structural)]
pub enum SeedError {
    /// The text is not an even number of hexadecimal digits.
    InvalidHex,
    /// The text decodes, but not to exactly 32 bytes.
    WrongLength,
}

impl SeedError {
    /// The diagnostic for this refusal.
    pub fn message(&self) -> (r: &'static str)
        ensures
            r@ == seed_error_message(*self),
    {
        match self {
            SeedError::InvalidHex => "Invalid PROTOCOL_SEED hex encoding (must be hex)",
            SeedError::WrongLength => "PROTOCOL_SEED must be exactly 32 bytes (64 hex chars)",
        }
    }
}

/// The diagnostic of each refusal.
pub open spec fn seed_error_message(e: SeedError) -> Seq<char> {
    match e {
        SeedError::InvalidHex => "Invalid PROTOCOL_SEED hex encoding (must be hex)"@,
        SeedError::WrongLength => "PROTOCOL_SEED must be exactly 32 bytes (64 hex chars)"@,
    }
}

/// The protocol seed that a hexadecimal text (given by its bytes) stands
/// for, or why it is refused.
pub open spec fn seed_from_hex(text: Seq<u8>) -> Result<Seq<u8>, SeedError> {
    if !hex_decodable(text) {
        Err(SeedError::InvalidHex)
    } else if hex_decoded(text).len() != 32 {
        Err(SeedError::WrongLength)
    } else {
        Ok(hex_decoded(text))
    }
}

/// Holder of the protocol seed.
pub struct Config;

impl Config {
    /// Whether a hexadecimal text is a usable protocol seed, and if not,
    /// why: not hexadecimal, or not 32 bytes.
    pub fn check_seed_text(seed_hex: &str) -> (r: Result<(), SeedError>)
        ensures
            r is Ok <==> seed_from_hex(seed_hex.spec_bytes()) is Ok,
            r matches Err(e) ==> seed_from_hex(seed_hex.spec_bytes()) == Err::<Seq<u8>, SeedError>(e),
    {
        let bytes = match hex_decode(seed_hex.as_bytes()) {
            Ok(b) => b,
            Err(_) => return Err(SeedError::InvalidHex),
        };
        if bytes.len() != 32 {
            return Err(SeedError::WrongLength);
        }
        Ok(())
    }

    /// Decodes the protocol seed from its hexadecimal text, which must be a
    /// usable seed (see `check_seed_text`).
    fn protocol_seed(seed_hex: &str) -> (r: [u8; 32])
        requires
            seed_from_hex(seed_hex.spec_bytes()) is Ok,
        ensures
            seed_from_hex(seed_hex.spec_bytes()) == Ok::<Seq<u8>, SeedError>(r@),
    {
        let bytes = match hex_decode(seed_hex.as_bytes()) {
            Ok(b) => b,
            Err(_) => return [0u8; 32],
        };
        let mut seed: [u8; 32] = [0u8; 32];
        let mut i: usize = 0;
        while i < 32
            invariant
                i <= 32,
                bytes@.len() == 32,
                forall|j: int| 0 <= j < i ==> seed@[j] == bytes@[j],
            decreases 32 - i,
        {
            seed[i] = bytes[i];
            i = i + 1;
        }
        assert(seed@ =~= bytes@);
        seed
    }
}

/// The only way to the protocol seed: evidence of admission, and the seed's
/// hexadecimal text as configured, which must be a usable seed (see
/// `Config::check_seed_text`).
pub fn require_seed<P: BalanceProof>(_proof: P, seed_hex: &str) -> (r: [u8; 32])
    requires
        seed_from_hex(seed_hex.spec_bytes()) is Ok,
    ensures
        seed_from_hex(seed_hex.spec_bytes()) == Ok::<Seq<u8>, SeedError>(r@),
{
    Config::protocol_seed(seed_hex)
}

/// The per-user wallet seed: the SHA-256 digest of the protocol seed text
/// followed by the user's identifier.
pub fn build_seed(protocol_seed: &str, user_id: &str) -> (r: Vec<u8>)
    ensures
        r@ == sha256_digest(protocol_seed.spec_bytes() + user_id.spec_bytes()),
        r@.len() == 32,
{
    let mut combined: Vec<u8> = Vec::new();
    let a = protocol_seed.as_bytes();
    let b = user_id.as_bytes();
    let mut i: usize = 0;
    while i < a.len()
        invariant
            i <= a@.len(),
            combined@ == a@.subrange(0, i as int),
        decreases a@.len() - i,
    {
        combined.push(a[i]);
        i = i + 1;
        assert(combined@ =~= a@.subrange(0, i as int));
    }
    let mut j: usize = 0;
    while j < b.len()
        invariant
            j <= b@.len(),
            combined@ == a@ + b@.subrange(0, j as int),
        decreases b@.len() - j,
    {
        combined.push(b[j]);
        j = j + 1;
        assert(combined@ =~= a@ + b@.subrange(0, j as int));
    }
    assert(combined@ =~= a@ + b@);
    let digest = sha256(combined.as_slice());
    let mut r: Vec<u8> = Vec::new();
    let mut k: usize = 0;
    while k < 32
        invariant
            k <= 32,
            r@ == digest@.subrange(0, k as int),
        decreases 32 - k,
    {
        r.push(digest[k]);
        k = k + 1;
        assert(r@ =~= digest@.subrange(0, k as int));
    }
    assert(r@ =~= digest@);
    r
}

} // verus!

verus! {

/// A protocol seed text is accepted exactly when it is 64 hexadecimal
/// digits.
pub proof fn law_seed_text_is_64_hex_digits(text: Seq<u8>)
    ensures
        seed_from_hex(text) is Ok <==> (text.len() == 64 && forall|i: int|
            0 <= i < text.len() ==> is_hex_byte(#[trigger] text[i])),
{
}

/// Writing a seed as lowercase hexadecimal and reading that text back as
/// the protocol seed gives the seed again.
pub proof fn law_seed_hex_round_trip(seed: Seq<u8>)
    requires
        seed.len() == 32,
    ensures
        seed_from_hex(ascii_bytes(hex_lower(seed))) == Ok::<Seq<u8>, SeedError>(seed),
{
    lemma_hex_lower_decodes(seed);
}

} // verus!
