use qp_hd::qp44::{
    CoinType, Purpose, QP44Wallet, SeedSource, WalletRequest, HARDENED_OFFSET, PURPOSE_44, QP44,
};
use quantom_value::{Perm, QuantPerm};

fn base(dimension: u128) -> QuantPerm {
    QuantPerm::new(Perm::from_u128(dimension))
}

fn protocol_seed() -> [u8; 32] {
    [42u8; 32]
}

fn path_mass(coin: CoinType, change: u32, external: u32) -> u128 {
    PURPOSE_44 + coin.retained_mass() + 3 * HARDENED_OFFSET + change as u128 + external as u128
}

#[test]
fn wallet_starts_at_its_perm_dimension() {
    let wallet = QP44Wallet::from_quantperm(base(0x1_0000_0000_0000_0005), CoinType::Bitcoin, 0);
    let m = wallet.into_manifold();
    assert_eq!(m.dimension(), 5);
    assert_eq!(m.activations(), 0);
    assert_eq!(m.retained_mass(), 0);
    assert_eq!(m.structural_value(), 0);
}

#[test]
fn next_receive_realizes_the_receive_path() {
    let seed = protocol_seed();
    let mut wallet = QP44Wallet::from_quantperm(base(77), CoinType::Ethereum, 3);
    let transition = wallet.next_receive(&seed).transition;
    let m = wallet.into_manifold();
    assert_eq!(m.activations(), 1);
    assert_eq!(m.retained_mass(), path_mass(CoinType::Ethereum, 0, 3));
    // Σ was zero before the transition, so all gross work is net work.
    assert_eq!(transition.net_work, transition.gross_work);
    let (tau, delta, gross) =
        QuantPerm::calculate_work(m.retained_mass(), &seed, m.dimension(), 77);
    assert_eq!((transition.tau, transition.delta, transition.gross_work), (tau, delta, gross));
}

#[test]
fn change_path_retains_one_more_unit_than_receive_path() {
    let seed = protocol_seed();
    let mut receive = QP44Wallet::from_quantperm(base(9), CoinType::Tron, 0);
    let _ = receive.next_receive(&seed);
    let mut change = QP44Wallet::from_quantperm(base(9), CoinType::Tron, 0);
    let _ = change.next_change(&seed);
    assert_eq!(
        change.into_manifold().retained_mass(),
        receive.into_manifold().retained_mass() + 1
    );
}

#[test]
fn second_realization_counts_and_keeps_structural_value() {
    let seed = protocol_seed();
    let mut wallet = QP44Wallet::from_quantperm(base(1234), CoinType::Solana, 0);
    let first = wallet.next_receive(&seed).transition;
    let sigma_after_first = wallet.next_receive(&seed).state.structural_value();
    let m = wallet.into_manifold();
    assert_eq!(m.activations(), 2);
    assert_eq!(m.retained_mass(), 2 * path_mass(CoinType::Solana, 0, 0));
    assert!(sigma_after_first >= first.net_work);
}

#[test]
fn replay_moves_the_address_index() {
    let seed = protocol_seed();
    let mut wallet = QP44Wallet::from_quantperm(base(5), CoinType::Bitcoin, 0);
    wallet.replay(9);
    let _ = wallet.next_receive(&seed);
    assert_eq!(wallet.into_manifold().retained_mass(), path_mass(CoinType::Bitcoin, 0, 9));
}

#[test]
fn derive_wallet_realizes_each_coin_in_order() {
    let seed = protocol_seed();
    let request = WalletRequest {
        seed: SeedSource::Raw(vec![1, 2, 3]),
        purpose: Purpose::BIP44,
        coins: vec![CoinType::Tron, CoinType::Bitcoin],
        account: 0,
        index: 4,
    };
    let out = QP44::derive_wallet(&request, vec![base(11), base(12)], &seed);
    assert_eq!(out.len(), 2);
    assert_eq!(out[0].coin, CoinType::Tron);
    assert_eq!(out[1].coin, CoinType::Bitcoin);
    assert_eq!(out[0].manifold.retained_mass(), path_mass(CoinType::Tron, 0, 4));
    assert_eq!(out[1].manifold.retained_mass(), path_mass(CoinType::Bitcoin, 0, 4));
    assert_eq!(out[0].manifold.activations(), 1);

    let mut single = QP44Wallet::from_quantperm(base(12), CoinType::Bitcoin, 4);
    let expected = single.next_receive(&seed).transition;
    assert_eq!(out[1].transition, expected);
    assert_eq!(out[1].manifold.dimension(), single.into_manifold().dimension());
}

#[test]
fn derive_wallet_of_no_coins_is_empty() {
    let request = WalletRequest {
        seed: SeedSource::Raw(vec![]),
        purpose: Purpose::BIP32,
        coins: vec![],
        account: 0,
        index: 0,
    };
    assert!(QP44::derive_wallet(&request, vec![], &protocol_seed()).is_empty());
}

#[test]
fn different_seeds_move_to_different_dimensions() {
    let mut a = QP44Wallet::from_quantperm(base(3), CoinType::Bitcoin, 0);
    let _ = a.next_receive(&[1u8; 32]);
    let mut b = QP44Wallet::from_quantperm(base(3), CoinType::Bitcoin, 0);
    let _ = b.next_receive(&[2u8; 32]);
    assert_ne!(a.into_manifold().dimension(), b.into_manifold().dimension());
}

#[test]
fn change_and_receive_make_the_same_transition() {
    let seed = protocol_seed();
    let mut r = QP44Wallet::from_quantperm(base(321), CoinType::Ethereum, 2);
    let hr = r.next_receive(&seed).transition;
    let mut c = QP44Wallet::from_quantperm(base(321), CoinType::Ethereum, 2);
    let hc = c.next_change(&seed).transition;
    assert_eq!(hr.origin, hc.origin);
    let (mr, mc) = (r.into_manifold(), c.into_manifold());
    assert_eq!(mr.dimension(), mc.dimension());
    assert_eq!(mr.structural_value(), mc.structural_value());
    assert_eq!(mc.retained_mass(), mr.retained_mass() + 1);
}

fn request(coins: Vec<CoinType>, purpose: Purpose, account: u32) -> WalletRequest {
    WalletRequest { seed: SeedSource::Raw(vec![5]), purpose, coins, account, index: 1 }
}

#[test]
fn deriving_concatenated_lists_concatenates_wallets() {
    let seed = protocol_seed();
    let a = QP44::derive_wallet(&request(vec![CoinType::Bitcoin], Purpose::BIP44, 0), vec![base(8)], &seed);
    let b = QP44::derive_wallet(&request(vec![CoinType::Solana], Purpose::BIP44, 0), vec![base(8)], &seed);
    let ab = QP44::derive_wallet(
        &request(vec![CoinType::Bitcoin, CoinType::Solana], Purpose::BIP44, 0),
        vec![base(8), base(8)],
        &seed,
    );
    assert_eq!(ab[0].transition, a[0].transition);
    assert_eq!(ab[1].transition, b[0].transition);
    assert_eq!(ab[1].manifold.retained_mass(), b[0].manifold.retained_mass());
    let twice = QP44::derive_wallet(
        &request(vec![CoinType::Tron, CoinType::Tron], Purpose::BIP44, 0),
        vec![base(8), base(8)],
        &seed,
    );
    assert_eq!(twice[0].transition, twice[1].transition);
}

#[test]
fn purpose_and_account_do_not_change_wallets() {
    let seed = protocol_seed();
    let x = QP44::derive_wallet(&request(vec![CoinType::Tron], Purpose::BIP44, 0), vec![base(8)], &seed);
    let y = QP44::derive_wallet(&request(vec![CoinType::Tron], Purpose::Custom(9), 77), vec![base(8)], &seed);
    assert_eq!(x[0].transition, y[0].transition);
    assert_eq!(x[0].manifold.dimension(), y[0].manifold.dimension());
}

#[test]
fn try_derive_wallet_checks_its_conditions() {
    let seed = protocol_seed();
    let req = request(vec![CoinType::Bitcoin, CoinType::Tron], Purpose::BIP44, 0);
    assert!(QP44::try_derive_wallet(&req, vec![base(1)], &seed).is_none());
    let out = QP44::try_derive_wallet(&req, vec![base(1), base(2)], &seed).unwrap();
    let direct = QP44::derive_wallet(&req, vec![base(1), base(2)], &seed);
    assert_eq!(out.len(), 2);
    assert_eq!(out[1].transition, direct[1].transition);
}

#[test]
fn wallet_reports_its_activations() {
    let seed = protocol_seed();
    let mut wallet = QP44Wallet::from_quantperm(base(4), CoinType::Bitcoin, 0);
    assert_eq!(wallet.activations(), 0);
    let _ = wallet.next_receive(&seed);
    let _ = wallet.next_change(&seed);
    assert_eq!(wallet.activations(), 2);
}
