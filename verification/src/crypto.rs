//! Calls into the hashing, elliptic-curve and text-encoding crates.
//!
//! Each function here is trusted: Verus believes its contract and does not
//! read its body. Results that take pages to describe (hash digests, curve
//! points) are given names; the encodings whose behaviour fits in a few
//! lines are stated exactly with the descriptions in `encoding`.
use vstd::prelude::*;
use crate::encoding::{base58_encode, be_value, hex_decodable, hex_decoded, hex_lower};
#[allow(unused_imports)]
use sha2::Digest;
#[allow(unused_imports)]
use tiny_keccak::Hasher;
#[allow(unused_imports)]
use k256::elliptic_curve::sec1::ToEncodedPoint;

verus! {

/// SHA-256 digest of a byte string.
pub uninterp spec fn sha256_digest(data: Seq<u8>) -> Seq<u8>;

/// RIPEMD-160 digest of a byte string.
pub uninterp spec fn ripemd160_digest(data: Seq<u8>) -> Seq<u8>;

/// Keccak-256 digest of a byte string (the pre-standard padding used by Ethereum).
pub uninterp spec fn keccak256_digest(data: Seq<u8>) -> Seq<u8>;

/// Uncompressed SEC1 encoding of the secp256k1 public key of a secret scalar.
pub uninterp spec fn secp256k1_public_point(secret: Seq<u8>) -> Seq<u8>;

/// Ed25519 public key of a 32-byte secret key.
pub uninterp spec fn ed25519_public_key(secret: Seq<u8>) -> Seq<u8>;

/// The order of the secp256k1 group.
pub open spec fn secp256k1_order() -> nat {
    0xFFFFFFFFFFFFFFFFFFFFFFFFFFFFFFFEBAAEDCE6AF48A03BBFD25E8CD0364141nat
}

/// A byte string that `k256` accepts as a secret key: 24 to 32 bytes,
/// read big-endian (shorter strings padded with zeros in front), naming a
/// scalar in `1 .. order`.
pub open spec fn secp256k1_secret_valid(secret: Seq<u8>) -> bool {
    &&& 24 <= secret.len() <= 32
    &&& 0 < be_value(secret) < secp256k1_order()
}

/// `sha2::Sha256::digest`: the 32-byte SHA-256 digest of `data`.
#[verifier::external_body]
pub(crate) fn sha256(data: &[u8]) -> (r: [u8; 32])
    ensures
        r@ == sha256_digest(data@),
{
    sha2::Sha256::digest(data).into()
}

/// `ripemd::Ripemd160::digest`: the 20-byte RIPEMD-160 digest of `data`.
#[verifier::external_body]
pub(crate) fn ripemd160(data: &[u8]) -> (r: [u8; 20])
    ensures
        r@ == ripemd160_digest(data@),
{
    <ripemd::Ripemd160 as sha2::Digest>::digest(data).into()
}

/// `tiny_keccak::Keccak::v256`, fed `data` once and finalized: the 32-byte
/// Keccak-256 digest of `data`.
#[verifier::external_body]
pub(crate) fn keccak256(data: &[u8]) -> (r: [u8; 32])
    ensures
        r@ == keccak256_digest(data@),
{
    let mut keccak = tiny_keccak::Keccak::v256();
    let mut out = [0u8; 32];
    keccak.update(data);
    keccak.finalize(&mut out);
    out
}

/// `k256::SecretKey::from_slice`, then `public_key` and
/// `to_encoded_point(false)`: the 65-byte uncompressed public point (first
/// byte 4) of a valid secret. `from_slice` fails exactly when the secret is
/// not 24 to 32 bytes long or does not name a scalar in `1 .. order`; the
/// error's text is then `crypto error`.
#[verifier::external_body]
pub(crate) fn secp256k1_public_key(secret: &[u8]) -> (r: Result<Vec<u8>, String>)
    ensures
        r is Ok <==> secp256k1_secret_valid(secret@),
        r matches Ok(p) ==> {
            &&& p@ == secp256k1_public_point(secret@)
            &&& p@.len() == 65
            &&& p@[0] == 4
        },
        r matches Err(e) ==> e@ == "crypto error"@,
{
    match k256::SecretKey::from_slice(secret) {
        Ok(key) => Ok(key.public_key().to_encoded_point(false).as_bytes().to_vec()),
        Err(e) => Err(e.to_string()),
    }
}

/// `ed25519_dalek::SigningKey::from_bytes`, then `verifying_key` and
/// `to_bytes`: the 32-byte Ed25519 public key of a 32-byte secret.
#[verifier::external_body]
pub(crate) fn ed25519_public(secret: &[u8; 32]) -> (r: [u8; 32])
    ensures
        r@ == ed25519_public_key(secret@),
{
    ed25519_dalek::SigningKey::from_bytes(secret).verifying_key().to_bytes()
}

/// `bs58::encode(data).into_string()`: Base58 text of `data` in the Bitcoin
/// alphabet.
#[verifier::external_body]
pub(crate) fn bs58_encode(data: &[u8]) -> (r: String)
    ensures
        r@ == base58_encode(data@),
{
    bs58::encode(data).into_string()
}

/// `hex::encode`: lowercase hexadecimal text of `data`.
#[verifier::external_body]
pub(crate) fn hex_encode(data: &[u8]) -> (r: String)
    ensures
        r@ == hex_lower(data@),
{
    hex::encode(data)
}

#[verifier::external_type_specification]
#[verifier::external_body]
pub struct ExFromHexError(hex::FromHexError);

/// `hex::decode`: the bytes that `data` stands for when it is an even
/// number of hexadecimal digits (either case); an error otherwise.
#[verifier::external_body]
pub(crate) fn hex_decode(data: &[u8]) -> (r: Result<Vec<u8>, hex::FromHexError>)
    ensures
        r is Ok <==> hex_decodable(data@),
        r matches Ok(v) ==> v@ == hex_decoded(data@),
{
    hex::decode(data)
}

} // verus!
