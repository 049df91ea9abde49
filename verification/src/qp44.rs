use vstd::prelude::*;
use quantom_value::QuantPerm;
use vstd::string::StringExecFns;
use crate::text::{ascii_lowercase, is_ascii_text, to_lowercase, unicode_lowercase};
use crate::manifold::{
    activations, calculate_work, dimension, get_activations, get_dimension, get_retained_mass,
    get_structural_value, manifold_state, perm_dimension, quantperm_work, retain, retained_mass,
    set_initial_dimension_from_perm, structural_value, transition, transition_outcome,
};

verus! {

/// Purpose level of a QP44 path.
pub const PURPOSE_44: u128 = 44;

/// Offset that marks a hardened derivation index.
pub const HARDENED_OFFSET: u128 = 0x8000_0000;

// ─────────────────────────────────────────────
// Coin types
// ─────────────────────────────────────────────

/// The chains a wallet can be derived for.
#[derive(Debug, Clone, Copy, PartialEq, Eq, Hash, Structural)]
pub enum CoinType {
    Bitcoin,
    Ethereum,
    Tron,
    Solana,
}

/// The registered coin-type index of each chain.
pub open spec fn coin_index(c: CoinType) -> u128 {
    match c {
        CoinType::Bitcoin => 0,
        CoinType::Ethereum => 60,
        CoinType::Tron => 195,
        CoinType::Solana => 501,
    }
}

/// Display name of each chain.
pub open spec fn coin_name(c: CoinType) -> Seq<char> {
    match c {
        CoinType::Bitcoin => "Bitcoin"@,
        CoinType::Ethereum => "Ethereum"@,
        CoinType::Tron => "Tron"@,
        CoinType::Solana => "Solana"@,
    }
}

/// Every chain, in the order in which they are listed to callers.
pub open spec fn all_coins() -> Seq<CoinType> {
    seq![CoinType::Bitcoin, CoinType::Ethereum, CoinType::Solana, CoinType::Tron]
}

impl CoinType {
    /// The coin-type index of this chain, which is the mass it contributes
    /// to a derivation path.
    pub fn retained_mass(self) -> (r: u128)
        ensures
            r == coin_index(self),
    {
        match self {
            CoinType::Bitcoin => 0,
            CoinType::Ethereum => 60,
            CoinType::Tron => 195,
            CoinType::Solana => 501,
        }
    }

    /// Human-readable name of this chain.
    pub fn name(self) -> (r: &'static str)
        ensures
            r@ == coin_name(self),
    {
        match self {
            CoinType::Bitcoin => "Bitcoin",
            CoinType::Ethereum => "Ethereum",
            CoinType::Tron => "Tron",
            CoinType::Solana => "Solana",
        }
    }

    /// All supported chains.
    pub fn all() -> (r: &'static [CoinType])
        ensures
            r@ == all_coins(),
    {
        &[CoinType::Bitcoin, CoinType::Ethereum, CoinType::Solana, CoinType::Tron]
    }
}

} // verus!

verus! {

// ─────────────────────────────────────────────
// Purpose
// ─────────────────────────────────────────────

/// Purpose level of a derivation path.
#[derive(Debug, Clone, Copy, PartialEq, Eq, Structural)]
pub enum Purpose {
    BIP44,
    BIP32,
    Custom(u32),
}

/// The numeric purpose of each variant.
pub open spec fn purpose_value(p: Purpose) -> u128 {
    match p {
        Purpose::BIP44 => 44,
        Purpose::BIP32 => 32,
        Purpose::Custom(v) => v as u128,
    }
}

impl Purpose {
    /// The numeric purpose level.
    pub fn value(self) -> (r: u128)
        ensures
            r == purpose_value(self),
    {
        match self {
            Purpose::BIP44 => 44,
            Purpose::BIP32 => 32,
            Purpose::Custom(v) => v as u128,
        }
    }
}

} // verus!

verus! {

// ─────────────────────────────────────────────
// Wallet output and heritage
// ─────────────────────────────────────────────

/// A derived wallet as handed to callers: its chain, its coordinate (the
/// secret from which addresses are derived) and its economic commitment.
#[derive(Debug, Clone)]
pub struct WalletOutput {
    pub coin: CoinType,
    pub coordinate: [u8; 32],
    pub commitment: [u8; 32],
}

/// The forensic signals of one transition: τ, Δ, gross work, net work
/// (gross work beyond Σ), and the τ of the field the transition left.
#[derive(Debug, Clone, Copy, PartialEq, Eq, Structural)]
pub struct TransitionHeritage {
    pub tau: u128,
    pub delta: u128,
    pub gross_work: u128,
    pub net_work: u128,
    pub origin: u128,
}

/// The state a wallet reached, with the signals of the transition that led
/// there.
pub struct Heritage<'a> {
    pub state: &'a QuantPerm,
    pub transition: TransitionHeritage,
}

/// The mass a derivation path retains: purpose, coin and account levels,
/// each hardened, plus the change and address indices.
pub open spec fn path_mass(coin: CoinType, change: u32, external: u32) -> u128 {
    ((PURPOSE_44 + HARDENED_OFFSET) + (coin_index(coin) + HARDENED_OFFSET) + (0 + HARDENED_OFFSET)
        + change + external) as u128
}

/// A manifold state: PERM dimension, retained mass, activation count,
/// dimension, Σ.
pub type ManifoldState = (u128, u128, u64, u64, u128);

/// What realizing the path `(coin, change, external)` under a seed makes of
/// a manifold state, and the heritage it reports: one transition, then the
/// path mass retained, then the work of moving back from the new dimension
/// to the old one weighed with the new mass, net of the Σ held before.
pub open spec fn realized(
    state: ManifoldState,
    coin: CoinType,
    change: u32,
    external: u32,
    seed: Seq<u8>,
) -> (ManifoldState, TransitionHeritage) {
    let (p, e, a, d, s) = state;
    let outcome = transition_outcome(seed, d, a, e, s);
    let mass = e.saturating_add(path_mass(coin, change, external));
    let work = quantperm_work(mass, seed, outcome.0, d);
    (
        (p, mass, (a + 1) as u64, outcome.0, outcome.1),
        TransitionHeritage {
            tau: work.0,
            delta: work.1,
            gross_work: work.2,
            net_work: work.2.saturating_sub(s),
            origin: outcome.2,
        },
    )
}

// ─────────────────────────────────────────────
// Stateful wallet engine
// ─────────────────────────────────────────────

/// A manifold driven along the QP44 path of one chain and address index.
pub struct QP44Wallet {
    manifold: QuantPerm,
    external: u32,
    coin: CoinType,
}

impl QP44Wallet {
    /// The manifold the wallet drives.
    pub closed spec fn manifold(&self) -> QuantPerm {
        self.manifold
    }

    /// The address index.
    pub closed spec fn external(&self) -> u32 {
        self.external
    }

    /// The chain.
    pub closed spec fn coin(&self) -> CoinType {
        self.coin
    }

    /// A wallet over `manifold`, its dimension first set from its PERM.
    pub fn from_quantperm(manifold: QuantPerm, coin: CoinType, external: u32) -> (r: Self)
        ensures
            manifold_state(r.manifold()) == (
                perm_dimension(manifold),
                retained_mass(manifold),
                activations(manifold),
                perm_dimension(manifold) as u64,
                structural_value(manifold),
            ),
            r.coin() == coin,
            r.external() == external,
    {
        let mut manifold = manifold;
        set_initial_dimension_from_perm(&mut manifold);
        QP44Wallet { manifold, coin, external }
    }

    /// Realizes the path with the given change index under the protocol
    /// seed.
    fn realize(&mut self, change: u32, protocol_seed: &[u8; 32]) -> (h: Heritage<'_>)
        requires
            activations(old(self).manifold()) < u64::MAX,
        ensures
            ({
                let (state, heritage) = realized(
                    manifold_state(old(self).manifold()),
                    old(self).coin(),
                    change,
                    old(self).external(),
                    protocol_seed@,
                );
                &&& manifold_state(final(self).manifold()) == state
                &&& h.transition == heritage
            }),
            *h.state == final(self).manifold(),
            final(self).coin() == old(self).coin(),
            final(self).external() == old(self).external(),
            structural_value(final(self).manifold()) >= structural_value(old(self).manifold()),
            ({
                let before = old(self).manifold();
                let after = final(self).manifold();
                let outcome = transition_outcome(
                    protocol_seed@,
                    dimension(before),
                    activations(before),
                    retained_mass(before),
                    structural_value(before),
                );
                &&& perm_dimension(after) == perm_dimension(before)
                &&& activations(after) == activations(before) + 1
                &&& dimension(after) == outcome.0
                &&& structural_value(after) == outcome.1
                &&& retained_mass(after) == retained_mass(before).saturating_add(
                    (PURPOSE_44 + coin_index(old(self).coin()) + 3 * HARDENED_OFFSET + change
                        + old(self).external()) as u128,
                )
                &&& h.transition.origin == outcome.2
                &&& (h.transition.tau, h.transition.delta, h.transition.gross_work)
                    == quantperm_work(
                    retained_mass(after),
                    protocol_seed@,
                    dimension(after),
                    dimension(before),
                )
                &&& h.transition.net_work == h.transition.gross_work.saturating_sub(
                    structural_value(before),
                )
            }),
    {
        let total_mass: u128 = (PURPOSE_44 + HARDENED_OFFSET) + (self.coin.retained_mass()
            + HARDENED_OFFSET) + (0 + HARDENED_OFFSET) + (change as u128) + (self.external as u128);
        let sigma = get_structural_value(&self.manifold);
        let before_dim = get_dimension(&self.manifold);
        let gravity = transition(&mut self.manifold, protocol_seed);
        let after_dim = get_dimension(&self.manifold);
        retain(&mut self.manifold, total_mass);
        let (tau, delta, gross_work) = calculate_work(
            get_retained_mass(&self.manifold),
            protocol_seed,
            after_dim,
            before_dim,
        );
        let net_work = gross_work.saturating_sub(sigma);
        Heritage {
            state: &self.manifold,
            transition: TransitionHeritage { tau, delta, gross_work, net_work, origin: gravity },
        }
    }

    /// Realizes the next receiving address (change index 0).
    pub fn next_receive(&mut self, protocol_seed: &[u8; 32]) -> (h: Heritage<'_>)
        requires
            activations(old(self).manifold()) < u64::MAX,
        ensures
            ({
                let (state, heritage) = realized(
                    manifold_state(old(self).manifold()),
                    old(self).coin(),
                    0,
                    old(self).external(),
                    protocol_seed@,
                );
                &&& manifold_state(final(self).manifold()) == state
                &&& h.transition == heritage
            }),
            *h.state == final(self).manifold(),
            final(self).coin() == old(self).coin(),
            final(self).external() == old(self).external(),
            structural_value(final(self).manifold()) >= structural_value(old(self).manifold()),
            ({
                let before = old(self).manifold();
                let after = final(self).manifold();
                let outcome = transition_outcome(
                    protocol_seed@,
                    dimension(before),
                    activations(before),
                    retained_mass(before),
                    structural_value(before),
                );
                &&& perm_dimension(after) == perm_dimension(before)
                &&& activations(after) == activations(before) + 1
                &&& dimension(after) == outcome.0
                &&& structural_value(after) == outcome.1
                &&& retained_mass(after) == retained_mass(before).saturating_add(
                    (PURPOSE_44 + coin_index(old(self).coin()) + 3 * HARDENED_OFFSET + 0
                        + old(self).external()) as u128,
                )
                &&& h.transition.origin == outcome.2
                &&& (h.transition.tau, h.transition.delta, h.transition.gross_work)
                    == quantperm_work(
                    retained_mass(after),
                    protocol_seed@,
                    dimension(after),
                    dimension(before),
                )
                &&& h.transition.net_work == h.transition.gross_work.saturating_sub(
                    structural_value(before),
                )
            }),
    {
        self.realize(0, protocol_seed)
    }

    /// Realizes the next change address (change index 1).
    pub fn next_change(&mut self, protocol_seed: &[u8; 32]) -> (h: Heritage<'_>)
        requires
            activations(old(self).manifold()) < u64::MAX,
        ensures
            ({
                let (state, heritage) = realized(
                    manifold_state(old(self).manifold()),
                    old(self).coin(),
                    1,
                    old(self).external(),
                    protocol_seed@,
                );
                &&& manifold_state(final(self).manifold()) == state
                &&& h.transition == heritage
            }),
            *h.state == final(self).manifold(),
            final(self).coin() == old(self).coin(),
            final(self).external() == old(self).external(),
            structural_value(final(self).manifold()) >= structural_value(old(self).manifold()),
            ({
                let before = old(self).manifold();
                let after = final(self).manifold();
                let outcome = transition_outcome(
                    protocol_seed@,
                    dimension(before),
                    activations(before),
                    retained_mass(before),
                    structural_value(before),
                );
                &&& perm_dimension(after) == perm_dimension(before)
                &&& activations(after) == activations(before) + 1
                &&& dimension(after) == outcome.0
                &&& structural_value(after) == outcome.1
                &&& retained_mass(after) == retained_mass(before).saturating_add(
                    (PURPOSE_44 + coin_index(old(self).coin()) + 3 * HARDENED_OFFSET + 1
                        + old(self).external()) as u128,
                )
                &&& h.transition.origin == outcome.2
                &&& (h.transition.tau, h.transition.delta, h.transition.gross_work)
                    == quantperm_work(
                    retained_mass(after),
                    protocol_seed@,
                    dimension(after),
                    dimension(before),
                )
                &&& h.transition.net_work == h.transition.gross_work.saturating_sub(
                    structural_value(before),
                )
            }),
    {
        self.realize(1, protocol_seed)
    }

    /// The number of transitions the wallet's manifold has made; a wallet
    /// can realize another address while this is below `u64::MAX`.
    pub fn activations(&self) -> (r: u64)
        ensures
            r == activations(self.manifold()),
    {
        get_activations(&self.manifold)
    }

    /// Moves the wallet to another address index.
    pub fn replay(&mut self, index: u32)
        ensures
            final(self).external() == index,
            final(self).coin() == old(self).coin(),
            final(self).manifold() == old(self).manifold(),
    {
        self.external = index;
    }

    /// The manifold the wallet has driven.
    pub fn into_manifold(self) -> (r: QuantPerm)
        ensures
            r == self.manifold(),
    {
        self.manifold
    }
}

} // verus!

verus! {

// ─────────────────────────────────────────────
// Wallet request and the QP44 engine
// ─────────────────────────────────────────────

/// Where the base manifold of a wallet comes from.
#[derive(Clone)]
pub enum SeedSource {
    /// Raw seed bytes.
    Raw(Vec<u8>),
}

/// A request for wallets on several chains from one seed.
pub struct WalletRequest {
    pub seed: SeedSource,
    pub purpose: Purpose,
    pub coins: Vec<CoinType>,
    pub account: u32,
    pub index: u32,
}

/// One chain's realized wallet: the post-transition manifold, which is what
/// gets committed to, and the signals of its transition.
pub struct WalletRealization {
    pub coin: CoinType,
    pub manifold: QuantPerm,
    pub transition: TransitionHeritage,
}

/// A manifold state once its dimension is set from its PERM.
pub open spec fn initialized(state: ManifoldState) -> ManifoldState {
    (state.0, state.1, state.2, state.0 as u64, state.4)
}

/// What a wallet over a base manifold yields for a chain: its first
/// receiving address realized at the requested index.
pub open spec fn receive_realized(
    base: ManifoldState,
    coin: CoinType,
    index: u32,
    seed: Seq<u8>,
) -> (ManifoldState, TransitionHeritage) {
    realized(initialized(base), coin, 0, index, seed)
}

/// What a realized wallet consists of: its chain, its manifold state and
/// its transition heritage.
pub open spec fn realization_view(r: WalletRealization) -> (CoinType, ManifoldState, TransitionHeritage) {
    (r.coin, manifold_state(r.manifold), r.transition)
}

/// The states of a sequence of manifolds.
pub open spec fn states_of(ms: Seq<QuantPerm>) -> Seq<ManifoldState> {
    ms.map_values(|m: QuantPerm| manifold_state(m))
}

/// The wallets realized for a list of chains, one per chain in order, each
/// from its own base state, at one address index under one seed.
pub open spec fn derived(
    bases: Seq<ManifoldState>,
    coins: Seq<CoinType>,
    index: u32,
    seed: Seq<u8>,
) -> Seq<(CoinType, ManifoldState, TransitionHeritage)> {
    Seq::new(
        coins.len(),
        |i: int|
            {
                let (state, heritage) = receive_realized(bases[i], coins[i], index, seed);
                (coins[i], state, heritage)
            },
    )
}

/// The wallets a request yields from given base states under a seed.
pub open spec fn request_derived(
    request: WalletRequest,
    bases: Seq<ManifoldState>,
    seed: Seq<u8>,
) -> Seq<(CoinType, ManifoldState, TransitionHeritage)> {
    derived(bases, request.coins@, request.index, seed)
}

/// The QP44 engine.
pub struct QP44;

impl QP44 {
    /// Realizes one wallet per requested chain, in the order requested, each
    /// from its own base manifold (built from the request's seed) at the
    /// requested address index.
    pub fn derive_wallet(
        request: &WalletRequest,
        bases: Vec<QuantPerm>,
        protocol_seed: &[u8; 32],
    ) -> (r: Vec<WalletRealization>)
        requires
            bases@.len() == request.coins@.len(),
            forall|i: int| 0 <= i < bases@.len() ==> activations(#[trigger] bases@[i]) < u64::MAX,
        ensures
            r@.len() == request.coins@.len(),
            forall|i: int|
                #![trigger r@[i]]
                0 <= i < r@.len() ==> {
                    &&& r@[i].coin == request.coins@[i]
                    &&& (manifold_state(r@[i].manifold), r@[i].transition) == receive_realized(
                        manifold_state(bases@[i]),
                        request.coins@[i],
                        request.index,
                        protocol_seed@,
                    )
                },
            r@.map_values(|x: WalletRealization| realization_view(x)) == request_derived(
                *request,
                states_of(bases@),
                protocol_seed@,
            ),
            forall|i: int|
                #![trigger r@[i]]
                0 <= i < r@.len() ==> {
                    let base = bases@[i];
                    let after = r@[i].manifold;
                    let t = r@[i].transition;
                    let start = perm_dimension(base) as u64;
                    let outcome = transition_outcome(
                        protocol_seed@,
                        start,
                        activations(base),
                        retained_mass(base),
                        structural_value(base),
                    );
                    &&& perm_dimension(after) == perm_dimension(base)
                    &&& activations(after) == activations(base) + 1
                    &&& dimension(after) == outcome.0
                    &&& structural_value(after) == outcome.1
                    &&& retained_mass(after) == retained_mass(base).saturating_add(
                        (PURPOSE_44 + coin_index(request.coins@[i]) + 3 * HARDENED_OFFSET
                            + request.index) as u128,
                    )
                    &&& t.origin == outcome.2
                    &&& (t.tau, t.delta, t.gross_work) == quantperm_work(
                        retained_mass(after),
                        protocol_seed@,
                        dimension(after),
                        start,
                    )
                    &&& t.net_work == t.gross_work.saturating_sub(structural_value(base))
                },
    {
        let ghost given = bases@;
        let mut bases = bases;
        let mut outputs: Vec<WalletRealization> = Vec::new();
        let n = request.coins.len();
        let mut i: usize = 0;
        while i < n
            invariant
                n == request.coins@.len(),
                given.len() == n,
                i <= n,
                bases@ == given.skip(i as int),
                forall|k: int| 0 <= k < given.len() ==> activations(#[trigger] given[k]) < u64::MAX,
                outputs@.len() == i,
                forall|k: int|
                    #![trigger outputs@[k]]
                    0 <= k < i ==> {
                        &&& outputs@[k].coin == request.coins@[k]
                        &&& (manifold_state(outputs@[k].manifold), outputs@[k].transition)
                            == receive_realized(
                            manifold_state(given[k]),
                            request.coins@[k],
                            request.index,
                            protocol_seed@,
                        )
                    },
            decreases n - i,
        {
            let coin = request.coins[i];
            assert(bases@[0] == given[i as int]);
            let base = bases.remove(0);
            assert(bases@ =~= given.skip(i + 1));
            let mut wallet = QP44Wallet::from_quantperm(base, coin, request.index);
            let transition = wallet.next_receive(protocol_seed).transition;
            let manifold = wallet.into_manifold();
            outputs.push(WalletRealization { coin, manifold, transition });
            i = i + 1;
        }
        assert(outputs@.map_values(|x: WalletRealization| realization_view(x)) =~= request_derived(
            *request,
            states_of(given),
            protocol_seed@,
        ));
        outputs
    }
}

} // verus!

verus! {

/// The chain a lowercase name stands for.
pub open spec fn coin_by_name(lower: Seq<char>) -> Option<CoinType> {
    if lower == "bitcoin"@ {
        Some(CoinType::Bitcoin)
    } else if lower == "ethereum"@ {
        Some(CoinType::Ethereum)
    } else if lower == "tron"@ {
        Some(CoinType::Tron)
    } else if lower == "solana"@ {
        Some(CoinType::Solana)
    } else {
        None
    }
}

/// The chain named by `s`, in any letter case.
pub fn coin_from_str(s: &str) -> (r: Option<CoinType>)
    ensures
        r == coin_by_name(unicode_lowercase(s@)),
        is_ascii_text(s@) ==> r == coin_by_name(ascii_lowercase(s@)),
{
    let lower = to_lowercase(s);
    if lower == String::from_str("bitcoin") {
        Some(CoinType::Bitcoin)
    } else if lower == String::from_str("ethereum") {
        Some(CoinType::Ethereum)
    } else if lower == String::from_str("tron") {
        Some(CoinType::Tron)
    } else if lower == String::from_str("solana") {
        Some(CoinType::Solana)
    } else {
        None
    }
}

} // verus!

verus! {

/// Every chain's name is ASCII, and read in any letter case it names that
/// chain again.
pub proof fn law_name_names_coin(c: CoinType)
    ensures
        is_ascii_text(coin_name(c)),
        coin_by_name(ascii_lowercase(coin_name(c))) == Some(c),
{
    reveal_strlit("Bitcoin");
    reveal_strlit("Ethereum");
    reveal_strlit("Tron");
    reveal_strlit("Solana");
    reveal_strlit("bitcoin");
    reveal_strlit("ethereum");
    reveal_strlit("tron");
    reveal_strlit("solana");
    match c {
        CoinType::Bitcoin => {
            assert(ascii_lowercase(coin_name(c)) =~= "bitcoin"@);
        },
        CoinType::Ethereum => {
            assert(ascii_lowercase(coin_name(c)) =~= "ethereum"@);
            assert("ethereum"@ != "bitcoin"@);
        },
        CoinType::Tron => {
            assert(ascii_lowercase(coin_name(c)) =~= "tron"@);
            assert("tron"@ != "bitcoin"@);
            assert("tron"@ != "ethereum"@);
        },
        CoinType::Solana => {
            assert(ascii_lowercase(coin_name(c)) =~= "solana"@);
            assert("solana"@ != "bitcoin"@);
            assert("solana"@ != "ethereum"@);
            assert("solana"@ != "tron"@);
        },
    }
}

/// The list of all chains holds every chain, each exactly once.
pub proof fn law_all_lists_every_coin_once(c: CoinType)
    ensures
        all_coins().contains(c),
        all_coins().len() == 4,
        forall|i: int, j: int|
            0 <= i < j < all_coins().len() ==> all_coins()[i] != all_coins()[j],
{
    match c {
        CoinType::Bitcoin => assert(all_coins()[0] == c),
        CoinType::Ethereum => assert(all_coins()[1] == c),
        CoinType::Solana => assert(all_coins()[2] == c),
        CoinType::Tron => assert(all_coins()[3] == c),
    }
}

/// Distinct chains retain distinct masses.
pub proof fn law_coin_indices_distinct(a: CoinType, b: CoinType)
    requires
        a != b,
    ensures
        coin_index(a) != coin_index(b),
{
}

/// The BIP44 purpose is the purpose level of every QP44 path.
pub proof fn law_bip44_is_qp44_purpose()
    ensures
        purpose_value(Purpose::BIP44) == PURPOSE_44,
{
}

/// A path's mass is its purpose and coin levels plus three hardening
/// offsets and its change and address indices; so a change address retains
/// exactly one unit more than the receiving address at the same index.
pub proof fn law_path_mass(c: CoinType, change: u32, external: u32)
    ensures
        path_mass(c, change, external) == PURPOSE_44 + coin_index(c) + 3 * HARDENED_OFFSET + change
            + external,
        path_mass(c, 1, external) == path_mass(c, 0, external) + 1,
{
}

/// Realizing a path keeps the PERM, counts one more activation, retains
/// the path mass (saturating), and reports as net work the gross work beyond
/// the Σ held before, which never exceeds the gross work.
pub proof fn law_realize_accounts(
    state: ManifoldState,
    coin: CoinType,
    change: u32,
    external: u32,
    seed: Seq<u8>,
)
    requires
        state.2 < u64::MAX,
    ensures
        ({
            let (after, heritage) = realized(state, coin, change, external, seed);
            &&& after.0 == state.0
            &&& after.1 == state.1.saturating_add(path_mass(coin, change, external))
            &&& after.2 == state.2 + 1
            &&& heritage.net_work == heritage.gross_work.saturating_sub(state.4)
            &&& heritage.net_work <= heritage.gross_work
        }),
{
}

/// Realizing a path moves the manifold from where it stands: the transition
/// starts at the state's current dimension, with its activation count,
/// retained mass and Σ, and the new dimension, the new Σ and the reported
/// field τ are what that transition names; the retained mass grows by the
/// path's purpose, coin and account levels, three hardening offsets, and
/// the change and address indices; τ, Δ and gross work are those of moving
/// back from the new dimension to the one the state stood at, weighed with
/// the new mass.
pub proof fn law_realize_from_current_state(
    state: ManifoldState,
    coin: CoinType,
    change: u32,
    external: u32,
    seed: Seq<u8>,
)
    ensures
        ({
            let (after, heritage) = realized(state, coin, change, external, seed);
            let outcome = transition_outcome(seed, state.3, state.2, state.1, state.4);
            &&& after.3 == outcome.0
            &&& after.4 == outcome.1
            &&& heritage.origin == outcome.2
            &&& after.1 == state.1.saturating_add(
                (PURPOSE_44 + coin_index(coin) + 3 * HARDENED_OFFSET + change + external) as u128,
            )
            &&& (heritage.tau, heritage.delta, heritage.gross_work) == quantperm_work(
                after.1,
                seed,
                after.3,
                state.3,
            )
        }),
{
}

/// What a request yields at each position, written out: the requested
/// chain, and a state that keeps the base's PERM, counts one more
/// activation, makes the transition that starts at the PERM's dimension
/// with the base's activation count, mass and Σ, and retains the path mass
/// of the requested address index (whatever the chain) on top of the base's
/// mass; with τ, Δ and gross work of the move back to the PERM's dimension,
/// and as net work the gross work beyond the base's Σ.
pub proof fn law_request_yields(
    request: WalletRequest,
    bases: Seq<ManifoldState>,
    seed: Seq<u8>,
    i: int,
)
    requires
        bases.len() == request.coins@.len(),
        0 <= i < bases.len(),
        bases[i].2 < u64::MAX,
    ensures
        ({
            let (coin, state, t) = request_derived(request, bases, seed)[i];
            let base = bases[i];
            let start = base.0 as u64;
            let outcome = transition_outcome(seed, start, base.2, base.1, base.4);
            &&& request_derived(request, bases, seed).len() == bases.len()
            &&& coin == request.coins@[i]
            &&& state.0 == base.0
            &&& state.1 == base.1.saturating_add(
                (PURPOSE_44 + coin_index(coin) + 3 * HARDENED_OFFSET + request.index) as u128,
            )
            &&& state.2 == base.2 + 1
            &&& state.3 == outcome.0
            &&& state.4 == outcome.1
            &&& t.origin == outcome.2
            &&& (t.tau, t.delta, t.gross_work) == quantperm_work(state.1, seed, state.3, start)
            &&& t.net_work == t.gross_work.saturating_sub(base.4)
        }),
{
}

/// Two requests for the same chains that differ only in their address
/// index make, from the same bases, the same transitions (same PERM,
/// activation count, dimension, Σ and field τ), and the later index retains
/// exactly as much more mass as it is larger, wherever the sum does not
/// saturate.
pub proof fn law_index_moves_retained_mass(
    r1: WalletRequest,
    r2: WalletRequest,
    bases: Seq<ManifoldState>,
    seed: Seq<u8>,
    i: int,
)
    requires
        r1.coins@ == r2.coins@,
        bases.len() == r1.coins@.len(),
        0 <= i < bases.len(),
        r1.index <= r2.index,
    ensures
        ({
            let (_, s1, t1) = request_derived(r1, bases, seed)[i];
            let (_, s2, t2) = request_derived(r2, bases, seed)[i];
            &&& s1.0 == s2.0
            &&& s1.2 == s2.2
            &&& s1.3 == s2.3
            &&& s1.4 == s2.4
            &&& t1.origin == t2.origin
            &&& bases[i].1 + PURPOSE_44 + coin_index(r1.coins@[i]) + 3 * HARDENED_OFFSET + r2.index
                <= u128::MAX ==> s2.1 == s1.1 + (r2.index - r1.index)
        }),
{
}

} // verus!

verus! {

impl QP44 {
    /// `derive_wallet` where its conditions hold: one base per requested
    /// chain, each with room for one more activation. `None` where they do
    /// not.
    pub fn try_derive_wallet(
        request: &WalletRequest,
        bases: Vec<QuantPerm>,
        protocol_seed: &[u8; 32],
    ) -> (r: Option<Vec<WalletRealization>>)
        ensures
            r is Some <==> (bases@.len() == request.coins@.len() && forall|i: int|
                0 <= i < bases@.len() ==> activations(#[trigger] bases@[i]) < u64::MAX),
            r matches Some(out) ==> out@.map_values(|x: WalletRealization| realization_view(x))
                == request_derived(*request, states_of(bases@), protocol_seed@),
    {
        if bases.len() != request.coins.len() {
            return None;
        }
        let mut i: usize = 0;
        while i < bases.len()
            invariant
                i <= bases@.len(),
                forall|k: int| 0 <= k < i ==> activations(#[trigger] bases@[k]) < u64::MAX,
            decreases bases@.len() - i,
        {
            if get_activations(&bases[i]) == u64::MAX {
                return None;
            }
            i = i + 1;
        }
        Some(QP44::derive_wallet(request, bases, protocol_seed))
    }
}

/// A change address and a receiving address realized from the same state
/// make the same transition: the same PERM, activation count, dimension, Σ
/// and field τ; only the retained mass differs, the change path retaining
/// one unit more (exactly one more where the sum does not saturate).
pub proof fn law_change_and_receive_share_transition(
    state: ManifoldState,
    coin: CoinType,
    external: u32,
    seed: Seq<u8>,
)
    ensures
        ({
            let (change, hc) = realized(state, coin, 1, external, seed);
            let (receive, hr) = realized(state, coin, 0, external, seed);
            &&& change.0 == receive.0
            &&& change.2 == receive.2
            &&& change.3 == receive.3
            &&& change.4 == receive.4
            &&& hc.origin == hr.origin
            &&& change.1 == state.1.saturating_add((path_mass(coin, 0, external) + 1) as u128)
            &&& receive.1 == state.1.saturating_add(path_mass(coin, 0, external))
            &&& state.1 + path_mass(coin, 1, external) <= u128::MAX ==> change.1 == receive.1 + 1
        }),
{
}

/// Deriving for two lists of chains one after the other gives the wallets
/// of each list, in order; and two positions with the same chain and the
/// same base state give the same wallet.
pub proof fn law_derive_concatenates(
    bases_a: Seq<ManifoldState>,
    coins_a: Seq<CoinType>,
    bases_b: Seq<ManifoldState>,
    coins_b: Seq<CoinType>,
    index: u32,
    seed: Seq<u8>,
)
    requires
        bases_a.len() == coins_a.len(),
        bases_b.len() == coins_b.len(),
    ensures
        derived(bases_a + bases_b, coins_a + coins_b, index, seed) == derived(
            bases_a,
            coins_a,
            index,
            seed,
        ) + derived(bases_b, coins_b, index, seed),
        forall|i: int, j: int|
            0 <= i < coins_a.len() && 0 <= j < coins_a.len() && coins_a[i] == coins_a[j]
                && bases_a[i] == bases_a[j] ==> #[trigger] derived(bases_a, coins_a, index, seed)[i]
                == #[trigger] derived(bases_a, coins_a, index, seed)[j],
{
    assert(derived(bases_a + bases_b, coins_a + coins_b, index, seed) =~= derived(
        bases_a,
        coins_a,
        index,
        seed,
    ) + derived(bases_b, coins_b, index, seed));
}

/// The purpose and the account of a request are never read: requests that
/// differ only in them yield the same wallets.
pub proof fn law_purpose_and_account_unread(
    r1: WalletRequest,
    r2: WalletRequest,
    bases: Seq<ManifoldState>,
    seed: Seq<u8>,
)
    requires
        r1.coins@ == r2.coins@,
        r1.index == r2.index,
    ensures
        request_derived(r1, bases, seed) == request_derived(r2, bases, seed),
{
}

} // verus!
