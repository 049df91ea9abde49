use qp_hd::balance::{bitcoin_satoshi, find_usdt, TokenEntry};

fn token(name: &str, abbr: &str, quantity: &str) -> TokenEntry {
    TokenEntry { name: name.to_string(), abbr: abbr.to_string(), quantity: quantity.to_string() }
}

#[test]
fn first_tether_holding_is_found() {
    let tokens = vec![
        token("TRON", "TRX", "100"),
        token("Tether USD", "USDT", "12.5"),
        token("Other", "USDT", "7"),
    ];
    assert_eq!(find_usdt(&tokens), Some(1));
    assert_eq!(tokens[1].quantity, "12.5");
}

#[test]
fn tether_found_by_name_or_abbreviation() {
    assert_eq!(find_usdt(&vec![token("x", "USDT", "1")]), Some(0));
    assert_eq!(find_usdt(&vec![token("Tether USD", "", "1")]), Some(0));
}

#[test]
fn no_tether_holding() {
    assert_eq!(find_usdt(&vec![]), None);
    assert_eq!(find_usdt(&vec![token("TRON", "TRX", "1"), token("tether usd", "usdt", "2")]), None);
}

#[test]
fn bitcoin_balance_never_below_zero() {
    assert_eq!(bitcoin_satoshi(10, 3), 7);
    assert_eq!(bitcoin_satoshi(3, 10), 0);
    assert_eq!(bitcoin_satoshi(u64::MAX, 0), u64::MAX);
}
