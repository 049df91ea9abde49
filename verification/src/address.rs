//! Receiving addresses of derived coordinates, one encoding per chain.
use vstd::prelude::*;
use vstd::string::StringExecFns;
use crate::crypto::{
    bs58_encode, ed25519_public, ed25519_public_key, hex_encode, keccak256,
    keccak256_digest, ripemd160, ripemd160_digest, secp256k1_public_key,
    secp256k1_public_point, secp256k1_secret_valid, sha256, sha256_digest,
};
use crate::encoding::{
    ascii_bytes, base58_encode, hex_decoded, hex_lower, leading_zero_bytes,
    lemma_base58_of_0x41_payload, lemma_hex_lower_decodes,
};
use crate::qp44::CoinType;

verus! {

/// The four-byte check that Base58Check appends: the head of the double
/// SHA-256 digest.
pub open spec fn checksum(payload: Seq<u8>) -> Seq<u8> {
    sha256_digest(sha256_digest(payload)).take(4)
}

/// A payload followed by its checksum.
pub open spec fn with_checksum(payload: Seq<u8>) -> Seq<u8> {
    payload + checksum(payload)
}

/// Version byte of a Bitcoin pay-to-public-key-hash address.
pub open spec fn bitcoin_version() -> u8 {
    0x00
}

/// Version byte of a Tron address.
pub open spec fn tron_version() -> u8 {
    0x41
}

/// The Bitcoin payload: version byte, then RIPEMD-160 of SHA-256 of the
/// uncompressed public point.
pub open spec fn bitcoin_payload(secret: Seq<u8>) -> Seq<u8> {
    seq![bitcoin_version()] + ripemd160_digest(sha256_digest(secp256k1_public_point(secret)))
}

/// The 20-byte account of an Ethereum-style chain: the last 20 bytes of the
/// Keccak-256 digest of the public point without its prefix byte.
pub open spec fn keccak_account(secret: Seq<u8>) -> Seq<u8> {
    keccak256_digest(secp256k1_public_point(secret).drop_first()).skip(12)
}

/// The Tron payload: version byte, then the Keccak account.
pub open spec fn tron_payload(secret: Seq<u8>) -> Seq<u8> {
    seq![tron_version()] + keccak_account(secret)
}

/// The message a refused secret is reported with, per chain.
pub open spec fn invalid_key_message(coin: CoinType) -> Seq<char> {
    match coin {
        CoinType::Bitcoin => "Invalid BTC key: "@ + "crypto error"@,
        CoinType::Ethereum => "Invalid ETH key: "@ + "crypto error"@,
        CoinType::Tron => "Invalid TRX key: "@ + "crypto error"@,
        CoinType::Solana => "Invalid SOL key length"@,
    }
}

/// Whether a secret is accepted for a chain: secp256k1 chains take any
/// valid secp256k1 scalar; Solana takes exactly 32 bytes.
pub open spec fn secret_accepted(secret: Seq<u8>, coin: CoinType) -> bool {
    match coin {
        CoinType::Solana => secret.len() == 32,
        _ => secp256k1_secret_valid(secret),
    }
}

/// The address of a secret on a chain, when the secret is accepted.
pub open spec fn address_text(secret: Seq<u8>, coin: CoinType) -> Seq<char> {
    match coin {
        CoinType::Bitcoin => base58_encode(with_checksum(bitcoin_payload(secret))),
        CoinType::Ethereum => "0x"@ + hex_lower(keccak_account(secret)),
        CoinType::Tron => base58_encode(with_checksum(tron_payload(secret))),
        CoinType::Solana => base58_encode(ed25519_public_key(secret)),
    }
}

/// A byte string that begins with a zero byte has Base58 text beginning
/// with `1`.
pub proof fn lemma_leading_zero_base58(b: Seq<u8>)
    requires
        b.len() > 0,
        b[0] == 0,
    ensures
        base58_encode(b).len() > 0,
        base58_encode(b)[0] == '1',
{
    assert(leading_zero_bytes(b) == 1 + leading_zero_bytes(b.drop_first()));
}

/// Appends every byte of `s` to `v`.
fn push_all(v: &mut Vec<u8>, s: &[u8])
    ensures
        final(v)@ == old(v)@ + s@,
{
    let mut i: usize = 0;
    while i < s.len()
        invariant
            i <= s@.len(),
            v@ == old(v)@ + s@.subrange(0, i as int),
        decreases s@.len() - i,
    {
        v.push(s[i]);
        i = i + 1;
        assert(v@ =~= old(v)@ + s@.subrange(0, i as int));
    }
    assert(s@.subrange(0, s@.len() as int) =~= s@);
}

/// `payload` followed by the first four bytes of its double SHA-256 digest.
fn append_checksum(payload: &mut Vec<u8>)
    ensures
        final(payload)@ == with_checksum(old(payload)@),
        final(payload)@.len() == old(payload)@.len() + 4,
{
    let first = sha256(payload.as_slice());
    let second = sha256(&first);
    let check = vstd::slice::slice_subrange(&second, 0, 4);
    push_all(payload, check);
}

/// The last 20 bytes of the Keccak-256 digest of a public point without its
/// prefix byte.
fn keccak_account_of(point: &Vec<u8>) -> (r: Vec<u8>)
    requires
        point@.len() == 65,
    ensures
        r@ == keccak256_digest(point@.drop_first()).skip(12),
        r@.len() == 20,
{
    let body = vstd::slice::slice_subrange(point.as_slice(), 1, 65);
    assert(body@ =~= point@.drop_first());
    let out = keccak256(body);
    let tail = vstd::slice::slice_subrange(&out, 12, 32);
    let mut r: Vec<u8> = Vec::new();
    push_all(&mut r, tail);
    assert(r@ =~= out@.skip(12));
    r
}

/// The receiving address of a derived secret on the given chain: Base58Check
/// of the public key hash for Bitcoin, `0x` and hexadecimal of the Keccak
/// account for Ethereum, Base58Check of the Keccak account under version
/// `0x41` for Tron, and Base58 of the Ed25519 public key for Solana.
pub fn derive_address(priv_bytes: &[u8], coin: CoinType) -> (r: Result<String, String>)
    ensures
        r is Ok <==> secret_accepted(priv_bytes@, coin),
        r matches Ok(a) ==> a@ == address_text(priv_bytes@, coin),
        r matches Err(e) ==> e@ == invalid_key_message(coin),
        coin == CoinType::Ethereum && r is Ok ==> r->Ok_0@.len() == 42 && r->Ok_0@.take(2) == "0x"@,
        coin == CoinType::Bitcoin && r is Ok ==> r->Ok_0@[0] == '1',
        coin == CoinType::Tron && r is Ok ==> r->Ok_0@[0] == 'T',
        coin != CoinType::Solana && r is Ok ==> secp256k1_public_point(priv_bytes@).len() == 65,
        coin == CoinType::Bitcoin && r is Ok ==> with_checksum(bitcoin_payload(priv_bytes@)).len()
            == 25,
        (coin == CoinType::Ethereum || coin == CoinType::Tron) && r is Ok ==> keccak_account(
            priv_bytes@,
        ).len() == 20,
        coin == CoinType::Tron && r is Ok ==> with_checksum(tron_payload(priv_bytes@)).len() == 25,
        coin == CoinType::Solana ==> (r is Ok <==> priv_bytes@.len() == 32),
        coin != CoinType::Solana ==> (r is Ok <==> secp256k1_secret_valid(priv_bytes@)),
        ({
            let point = secp256k1_public_point(priv_bytes@);
            let p2pkh = seq![0x00u8] + ripemd160_digest(sha256_digest(point));
            coin == CoinType::Bitcoin && r is Ok ==> r->Ok_0@ == base58_encode(
                p2pkh + sha256_digest(sha256_digest(p2pkh)).take(4),
            )
        }),
        ({
            let account = keccak256_digest(secp256k1_public_point(priv_bytes@).drop_first()).skip(
                12,
            );
            coin == CoinType::Ethereum && r is Ok ==> r->Ok_0@ == "0x"@ + hex_lower(account)
        }),
        ({
            let account = keccak256_digest(secp256k1_public_point(priv_bytes@).drop_first()).skip(
                12,
            );
            let payload = seq![0x41u8] + account;
            coin == CoinType::Tron && r is Ok ==> r->Ok_0@ == base58_encode(
                payload + sha256_digest(sha256_digest(payload)).take(4),
            )
        }),
        coin == CoinType::Solana && r is Ok ==> r->Ok_0@ == base58_encode(
            ed25519_public_key(priv_bytes@),
        ),
{
    match coin {
        CoinType::Bitcoin => {
            let point = match secp256k1_public_key(priv_bytes) {
                Ok(p) => p,
                Err(e) => {
                    let mut msg = String::from_str("Invalid BTC key: ");
                    msg.append(e.as_str());
                    return Err(msg);
                },
            };
            let sha = sha256(point.as_slice());
            let ripe = ripemd160(&sha);
            let mut payload: Vec<u8> = Vec::new();
            payload.push(0x00);
            push_all(&mut payload, &ripe);
            assert(payload@ =~= bitcoin_payload(priv_bytes@));
            append_checksum(&mut payload);
            proof {
                lemma_leading_zero_base58(payload@);
            }
            Ok(bs58_encode(payload.as_slice()))
        },
        CoinType::Ethereum => {
            let point = match secp256k1_public_key(priv_bytes) {
                Ok(p) => p,
                Err(e) => {
                    let mut msg = String::from_str("Invalid ETH key: ");
                    msg.append(e.as_str());
                    return Err(msg);
                },
            };
            let account = keccak_account_of(&point);
            let mut out = String::from_str("0x");
            proof {
                reveal_strlit("0x");
            }
            let digits = hex_encode(account.as_slice());
            out.append(digits.as_str());
            assert(out@.take(2) =~= "0x"@);
            Ok(out)
        },
        CoinType::Tron => {
            let point = match secp256k1_public_key(priv_bytes) {
                Ok(p) => p,
                Err(e) => {
                    let mut msg = String::from_str("Invalid TRX key: ");
                    msg.append(e.as_str());
                    return Err(msg);
                },
            };
            let account = keccak_account_of(&point);
            let mut payload: Vec<u8> = Vec::new();
            payload.push(0x41);
            push_all(&mut payload, account.as_slice());
            assert(payload@ =~= tron_payload(priv_bytes@));
            append_checksum(&mut payload);
            proof {
                lemma_base58_of_0x41_payload(payload@);
            }
            Ok(bs58_encode(payload.as_slice()))
        },
        CoinType::Solana => {
            if priv_bytes.len() != 32 {
                return Err(String::from_str("Invalid SOL key length"));
            }
            let mut bytes: [u8; 32] = [0u8; 32];
            let mut i: usize = 0;
            while i < 32
                invariant
                    i <= 32,
                    priv_bytes@.len() == 32,
                    forall|j: int| 0 <= j < i ==> bytes@[j] == priv_bytes@[j],
                decreases 32 - i,
            {
                bytes[i] = priv_bytes[i];
                i = i + 1;
            }
            assert(bytes@ =~= priv_bytes@);
            let public = ed25519_public(&bytes);
            Ok(bs58_encode(&public))
        },
    }
}

} // verus!

verus! {

/// Every address is computed from the secret's public key, whatever its
/// bytes: Bitcoin's is Base58 of `0x00`, RIPEMD-160 of SHA-256 of the
/// uncompressed point, and the first four bytes of the double SHA-256 of
/// those 21 bytes; Ethereum's is `0x` and the lowercase hexadecimal of the
/// last 20 bytes of Keccak-256 of the point without its prefix byte; Tron's
/// is Base58 of `0x41` and those 20 bytes with the same four-byte check;
/// Solana's is Base58 of the Ed25519 public key.
pub proof fn law_address_from_public_key(secret: Seq<u8>)
    ensures
        ({
            let hash = seq![0x00u8] + ripemd160_digest(
                sha256_digest(secp256k1_public_point(secret)),
            );
            address_text(secret, CoinType::Bitcoin) == base58_encode(
                hash + sha256_digest(sha256_digest(hash)).take(4),
            )
        }),
        ({
            let account = keccak256_digest(secp256k1_public_point(secret).drop_first()).skip(12);
            let payload = seq![0x41u8] + account;
            &&& address_text(secret, CoinType::Ethereum) == "0x"@ + hex_lower(account)
            &&& address_text(secret, CoinType::Tron) == base58_encode(
                payload + sha256_digest(sha256_digest(payload)).take(4),
            )
        }),
        address_text(secret, CoinType::Solana) == base58_encode(ed25519_public_key(secret)),
{
}

/// Ethereum and Tron accept the same secrets, and a secret's Tron address
/// is the Base58Check text, under version `0x41`, of the very 20-byte
/// account that its Ethereum address writes in hexadecimal after `0x`.
pub proof fn law_tron_account_is_ethereum_account(secret: Seq<u8>)
    ensures
        secret_accepted(secret, CoinType::Tron) == secret_accepted(secret, CoinType::Ethereum),
        address_text(secret, CoinType::Ethereum).take(2) == "0x"@,
        address_text(secret, CoinType::Tron) == base58_encode(
            with_checksum(
                seq![tron_version()] + hex_decoded(
                    ascii_bytes(address_text(secret, CoinType::Ethereum).skip(2)),
                ),
            ),
        ),
{
    reveal_strlit("0x");
    let account = keccak_account(secret);
    let eth = address_text(secret, CoinType::Ethereum);
    assert(eth.take(2) =~= "0x"@);
    assert(eth.skip(2) =~= hex_lower(account));
    lemma_hex_lower_decodes(account);
}

} // verus!
