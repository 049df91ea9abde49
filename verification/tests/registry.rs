use qp_hd::pathsregistry::PathsRegistry;
use qp_hd::qp44::CoinType;

#[test]
fn registry_paths_and_endpoints() {
    let btc = PathsRegistry::get(CoinType::Bitcoin).unwrap();
    assert_eq!(btc.path, "m/44'/0'/0'/0/0");
    assert_eq!(btc.rpc, "https://blockstream.info/api");
    let eth = PathsRegistry::get(CoinType::Ethereum).unwrap();
    assert_eq!(eth.path, "m/44'/60'/0'/0/0");
    assert_eq!(eth.rpc, "https://rpc.ankr.com/eth");
    let sol = PathsRegistry::get(CoinType::Solana).unwrap();
    assert_eq!(sol.path, "m/44'/501'/0'/0'");
    assert_eq!(sol.rpc, "https://api.mainnet-beta.solana.com");
    let trx = PathsRegistry::get(CoinType::Tron).unwrap();
    assert_eq!(trx.path, "m/44'/195'/0'/0/0");
    assert_eq!(trx.rpc, "https://api.trongrid.io");
}

#[test]
fn every_path_starts_with_its_coin_index() {
    for coin in CoinType::all() {
        let info = PathsRegistry::get(*coin).unwrap();
        let prefix = format!("m/44'/{}'/0'", coin.retained_mass());
        assert!(info.path.starts_with(&prefix), "{} does not start with {}", info.path, prefix);
    }
}

#[test]
fn balance_urls() {
    assert_eq!(
        PathsRegistry::balance_url(CoinType::Bitcoin, "1abc"),
        "https://blockstream.info/api/address/1abc/utxo"
    );
    assert_eq!(
        PathsRegistry::balance_url(CoinType::Tron, "Txyz"),
        "https://api.trongrid.io/wallet/getaccount"
    );
    assert_eq!(PathsRegistry::balance_url(CoinType::Ethereum, "0x12"), "https://rpc.ankr.com/eth");
    assert_eq!(
        PathsRegistry::balance_url(CoinType::Solana, "So1"),
        "https://api.mainnet-beta.solana.com"
    );
}

#[test]
fn utxo_totals() {
    assert_eq!(PathsRegistry::utxo_total(&vec![]), 0);
    assert_eq!(PathsRegistry::utxo_total(&vec![1, 2, 3]), 6);
    assert_eq!(
        PathsRegistry::utxo_total(&vec![u64::MAX, u64::MAX, 5]),
        2 * (u64::MAX as u128) + 5
    );
}

#[test]
fn wei_parsing() {
    assert_eq!(PathsRegistry::parse_wei("0x1bc16d674ec80000"), Ok(2_000_000_000_000_000_000));
    assert_eq!(PathsRegistry::parse_wei("0x0"), Ok(0));
    assert_eq!(PathsRegistry::parse_wei("0xFF"), Ok(255));
    assert_eq!(PathsRegistry::parse_wei("ff"), Ok(255));
    assert_eq!(PathsRegistry::parse_wei("0x0x10"), Ok(16));
    assert_eq!(PathsRegistry::parse_wei("0x+10"), Ok(16));
    assert_eq!(
        PathsRegistry::parse_wei("0xffffffffffffffffffffffffffffffff"),
        Ok(u128::MAX)
    );
}

#[test]
fn wei_parsing_rejects_non_numerals() {
    assert!(PathsRegistry::parse_wei("0x").is_err());
    assert!(PathsRegistry::parse_wei("").is_err());
    assert!(PathsRegistry::parse_wei("0xzz").is_err());
    assert!(PathsRegistry::parse_wei("0x-1").is_err());
    assert!(PathsRegistry::parse_wei("0x1 ").is_err());
    assert!(PathsRegistry::parse_wei("0x100000000000000000000000000000000").is_err());
}

#[test]
fn wei_parse_errors_carry_the_parser_text() {
    for (text, digits) in [("0x", ""), ("0xzz", "zz"), ("0x100000000000000000000000000000000", "100000000000000000000000000000000")] {
        let expected = u128::from_str_radix(digits, 16).unwrap_err().to_string();
        assert_eq!(PathsRegistry::parse_wei(text), Err(expected));
    }
}
