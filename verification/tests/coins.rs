use qp_hd::qp44::{coin_from_str, CoinType, Purpose, HARDENED_OFFSET, PURPOSE_44};

#[test]
fn retained_mass_is_coin_type_index() {
    assert_eq!(CoinType::Bitcoin.retained_mass(), 0);
    assert_eq!(CoinType::Ethereum.retained_mass(), 60);
    assert_eq!(CoinType::Tron.retained_mass(), 195);
    assert_eq!(CoinType::Solana.retained_mass(), 501);
}

#[test]
fn coin_type_indices_are_distinct() {
    let all = CoinType::all();
    for (i, a) in all.iter().enumerate() {
        for (j, b) in all.iter().enumerate() {
            if i != j {
                assert_ne!(a.retained_mass(), b.retained_mass());
            }
        }
    }
}

#[test]
fn names_of_coins() {
    assert_eq!(CoinType::Bitcoin.name(), "Bitcoin");
    assert_eq!(CoinType::Ethereum.name(), "Ethereum");
    assert_eq!(CoinType::Tron.name(), "Tron");
    assert_eq!(CoinType::Solana.name(), "Solana");
}

#[test]
fn all_lists_every_coin_once_in_order() {
    assert_eq!(
        CoinType::all(),
        &[CoinType::Bitcoin, CoinType::Ethereum, CoinType::Solana, CoinType::Tron]
    );
}

#[test]
fn purpose_values() {
    assert_eq!(Purpose::BIP44.value(), 44);
    assert_eq!(Purpose::BIP32.value(), 32);
    assert_eq!(Purpose::Custom(7).value(), 7);
    assert_eq!(Purpose::Custom(u32::MAX).value(), u32::MAX as u128);
    assert_eq!(Purpose::BIP44.value(), PURPOSE_44);
}

#[test]
fn hardened_offset_is_two_to_the_31() {
    assert_eq!(HARDENED_OFFSET, 1u128 << 31);
}

#[test]
fn coin_from_str_ignores_case() {
    assert_eq!(coin_from_str("bitcoin"), Some(CoinType::Bitcoin));
    assert_eq!(coin_from_str("BitCoin"), Some(CoinType::Bitcoin));
    assert_eq!(coin_from_str("ETHEREUM"), Some(CoinType::Ethereum));
    assert_eq!(coin_from_str("tRoN"), Some(CoinType::Tron));
    assert_eq!(coin_from_str("Solana"), Some(CoinType::Solana));
}

#[test]
fn coin_from_str_rejects_unknown_names() {
    assert_eq!(coin_from_str("dogecoin"), None);
    assert_eq!(coin_from_str(""), None);
    assert_eq!(coin_from_str(" bitcoin"), None);
    assert_eq!(coin_from_str("bitcoins"), None);
}

#[test]
fn every_name_parses_back_to_its_coin() {
    for coin in CoinType::all() {
        assert_eq!(coin_from_str(coin.name()), Some(*coin));
    }
}
