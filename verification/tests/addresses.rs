use qp_hd::address::derive_address;
use qp_hd::qp44::CoinType;

fn key_one() -> [u8; 32] {
    let mut k = [0u8; 32];
    k[31] = 1;
    k
}

fn hex32(s: &str) -> [u8; 32] {
    let v = hex::decode(s).unwrap();
    let mut out = [0u8; 32];
    out.copy_from_slice(&v);
    out
}

#[test]
fn bitcoin_address_of_key_one() {
    assert_eq!(
        derive_address(&key_one(), CoinType::Bitcoin),
        Ok("1EHNa6Q4Jz2uvNExL497mE43ikXhwF6kZm".to_string())
    );
}

#[test]
fn ethereum_address_of_key_one() {
    assert_eq!(
        derive_address(&key_one(), CoinType::Ethereum),
        Ok("0x7e5f4552091a69125d5dfcb7b8c2659029395bdf".to_string())
    );
}

#[test]
fn tron_address_of_key_one() {
    assert_eq!(
        derive_address(&key_one(), CoinType::Tron),
        Ok("TMVQGm1qAQYVdetCeGRRkTWYYrLXuHK2HC".to_string())
    );
}

#[test]
fn solana_address_of_rfc8032_key() {
    let secret = hex32("9d61b19deffd5a60ba844af492ec2cc44449c5697b326919703bac031cae7f60");
    assert_eq!(
        derive_address(&secret, CoinType::Solana),
        Ok("FVen3X669xLzsi6N2V91DoiyzHzg1uAgqiT8jZ9nS96Z".to_string())
    );
}

#[test]
fn zero_key_is_refused_on_secp256k1_chains() {
    let zero = [0u8; 32];
    assert_eq!(
        derive_address(&zero, CoinType::Bitcoin),
        Err("Invalid BTC key: crypto error".to_string())
    );
    assert_eq!(
        derive_address(&zero, CoinType::Ethereum),
        Err("Invalid ETH key: crypto error".to_string())
    );
    assert_eq!(
        derive_address(&zero, CoinType::Tron),
        Err("Invalid TRX key: crypto error".to_string())
    );
}

#[test]
fn key_at_group_order_is_refused() {
    let order = hex32("FFFFFFFFFFFFFFFFFFFFFFFFFFFFFFFEBAAEDCE6AF48A03BBFD25E8CD0364141");
    assert!(derive_address(&order, CoinType::Bitcoin).is_err());
    let below = hex32("FFFFFFFFFFFFFFFFFFFFFFFFFFFFFFFEBAAEDCE6AF48A03BBFD25E8CD0364140");
    assert!(derive_address(&below, CoinType::Bitcoin).is_ok());
}

#[test]
fn short_keys() {
    let short = [1u8; 20];
    assert!(derive_address(&short, CoinType::Bitcoin).is_err());
    let mut padded = [0u8; 24];
    padded[23] = 1;
    assert_eq!(
        derive_address(&padded, CoinType::Bitcoin),
        Ok("1EHNa6Q4Jz2uvNExL497mE43ikXhwF6kZm".to_string())
    );
    assert_eq!(
        derive_address(&[1u8; 31], CoinType::Solana),
        Err("Invalid SOL key length".to_string())
    );
    assert_eq!(
        derive_address(&[1u8; 33], CoinType::Solana),
        Err("Invalid SOL key length".to_string())
    );
}

#[test]
fn address_shapes() {
    let mut key = [7u8; 32];
    key[0] = 0x12;
    let eth = derive_address(&key, CoinType::Ethereum).unwrap();
    assert_eq!(eth.len(), 42);
    assert!(eth.starts_with("0x"));
    assert!(eth[2..].chars().all(|c| c.is_ascii_digit() || ('a'..='f').contains(&c)));
    let btc = derive_address(&key, CoinType::Bitcoin).unwrap();
    assert!(btc.starts_with('1'));
    let trx = derive_address(&key, CoinType::Tron).unwrap();
    assert!(trx.starts_with('T'));
}

#[test]
fn tron_address_carries_the_ethereum_account() {
    let mut key = [9u8; 32];
    key[5] = 0xab;
    let eth = derive_address(&key, CoinType::Ethereum).unwrap();
    let trx = derive_address(&key, CoinType::Tron).unwrap();
    let payload = bs58::decode(&trx).into_vec().unwrap();
    assert_eq!(payload.len(), 25);
    assert_eq!(payload[0], 0x41);
    assert_eq!(&payload[1..21], &hex::decode(&eth[2..]).unwrap()[..]);
}
