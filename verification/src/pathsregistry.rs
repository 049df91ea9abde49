//! Where each chain's wallets live: derivation path and balance endpoint,
//! and the arithmetic that turns an endpoint's reply into a balance.
use vstd::prelude::*;
use vstd::string::StringExecFns;
use crate::qp44::{coin_index, CoinType, PURPOSE_44};
use crate::text::{
    hex_digits_value, is_hex_char, is_u128_hex_numeral, parse_u128_hex, radix16_digits, strip_hex_prefixes,
    trim_hex_prefixes, u128_hex_error_text,
};

verus! {

/// A chain's derivation path and RPC endpoint.
pub struct ChainInfo {
    pub path: &'static str,
    pub rpc: &'static str,
}

/// The derivation path of each chain.
pub open spec fn chain_path(coin: CoinType) -> Seq<char> {
    match coin {
        CoinType::Bitcoin => "m/44'/0'/0'/0/0"@,
        CoinType::Ethereum => "m/44'/60'/0'/0/0"@,
        CoinType::Solana => "m/44'/501'/0'/0'"@,
        CoinType::Tron => "m/44'/195'/0'/0/0"@,
    }
}

/// The RPC endpoint of each chain.
pub open spec fn chain_rpc(coin: CoinType) -> Seq<char> {
    match coin {
        CoinType::Bitcoin => "https://blockstream.info/api"@,
        CoinType::Ethereum => "https://rpc.ankr.com/eth"@,
        CoinType::Solana => "https://api.mainnet-beta.solana.com"@,
        CoinType::Tron => "https://api.trongrid.io"@,
    }
}

/// The URL a balance query for an address goes to: the unspent outputs of
/// the address for Bitcoin, the account call for Tron, and the RPC endpoint
/// itself for Ethereum and Solana.
pub open spec fn balance_url(coin: CoinType, address: Seq<char>) -> Seq<char> {
    match coin {
        CoinType::Bitcoin => chain_rpc(coin) + "/address/"@ + address + "/utxo"@,
        CoinType::Tron => chain_rpc(coin) + "/wallet/getaccount"@,
        _ => chain_rpc(coin),
    }
}

/// The Bitcoin balance URL carries the address as given, letter for letter:
/// the UTXO endpoint of the address under `https://blockstream.info/api`,
/// whose 37 characters the address follows; so two distinct addresses are
/// never queried at one URL.
pub proof fn law_balance_url_carries_address(address: Seq<char>)
    ensures
        balance_url(CoinType::Bitcoin, address) == "https://blockstream.info/api/address/"@ + address
            + "/utxo"@,
        "https://blockstream.info/api/address/"@.len() == 37,
        balance_url(CoinType::Bitcoin, address).subrange(37, 37 + address.len() as int) == address,
        forall|other: Seq<char>|
            #[trigger] balance_url(CoinType::Bitcoin, other) == balance_url(CoinType::Bitcoin, address)
                ==> other == address,
{
    reveal_strlit("https://blockstream.info/api");
    reveal_strlit("/address/");
    reveal_strlit("/utxo");
    reveal_strlit("https://blockstream.info/api/address/");
    let head = "https://blockstream.info/api/address/"@;
    assert(chain_rpc(CoinType::Bitcoin) + "/address/"@ =~= head);
    assert(balance_url(CoinType::Bitcoin, address) =~= head + address + "/utxo"@);
    assert((head + address + "/utxo"@).subrange(37, 37 + address.len() as int) =~= address);
    assert forall|other: Seq<char>|
        #[trigger] balance_url(CoinType::Bitcoin, other) == balance_url(CoinType::Bitcoin, address)
            implies other == address by {
        let u = balance_url(CoinType::Bitcoin, address);
        assert(balance_url(CoinType::Bitcoin, other) =~= head + other + "/utxo"@);
        assert(other.len() == address.len());
        assert(other =~= u.subrange(37, 37 + other.len() as int));
    }
}

/// The balance URLs of the other chains do not depend on the address: the
/// Ethereum and Solana RPC endpoints themselves, and Tron's account call.
pub proof fn law_balance_url_per_chain()
    ensures
        forall|a: Seq<char>| #[trigger]
            balance_url(CoinType::Ethereum, a) == "https://rpc.ankr.com/eth"@,
        forall|a: Seq<char>| #[trigger]
            balance_url(CoinType::Solana, a) == "https://api.mainnet-beta.solana.com"@,
        forall|a: Seq<char>| #[trigger]
            balance_url(CoinType::Tron, a) == "https://api.trongrid.io/wallet/getaccount"@,
{
    reveal_strlit("https://api.trongrid.io");
    reveal_strlit("/wallet/getaccount");
    reveal_strlit("https://api.trongrid.io/wallet/getaccount");
    assert("https://api.trongrid.io"@ + "/wallet/getaccount"@
        =~= "https://api.trongrid.io/wallet/getaccount"@);
}

/// Sum of the values of a sequence of outputs.
pub open spec fn total_value(values: Seq<u64>) -> nat
    decreases values.len(),
{
    if values.len() == 0 {
        0
    } else {
        total_value(values.drop_last()) + values.last() as nat
    }
}

/// The balance an Ethereum node reports as hexadecimal text, `0x` prefixes
/// dropped, when that text is a numeral that fits in 128 bits.
pub open spec fn reported_wei(text: Seq<char>) -> Option<u128> {
    let digits = strip_hex_prefixes(text);
    if is_u128_hex_numeral(digits) {
        Some(hex_digits_value(radix16_digits(digits)) as u128)
    } else {
        None
    }
}

/// A node's balance text is read as hexadecimal digits with or without a
/// `0x` prefix: nonempty digits stand for the number they write where it
/// fits in 128 bits, and for nothing where it does not; a bare `0x` stands
/// for nothing.
pub proof fn law_reported_wei_reads_hex(digits: Seq<char>)
    requires
        digits.len() > 0,
        forall|i: int| 0 <= i < digits.len() ==> is_hex_char(#[trigger] digits[i]),
    ensures
        reported_wei("0x"@ + digits) == reported_wei(digits),
        reported_wei(digits) == (if hex_digits_value(digits) <= u128::MAX {
            Some(hex_digits_value(digits) as u128)
        } else {
            None
        }),
        reported_wei("0x"@) is None,
{
    reveal_strlit("0x");
    let prefixed = "0x"@ + digits;
    assert(prefixed.skip(2) =~= digits);
    assert(is_hex_char(digits[0]));
    assert(digits.len() >= 2 ==> is_hex_char(digits[1]));
    assert(strip_hex_prefixes(digits) == digits);
    assert(strip_hex_prefixes(prefixed) == strip_hex_prefixes(digits));
    assert(radix16_digits(digits) == digits);
    assert("0x"@.skip(2) =~= Seq::<char>::empty());
    assert(strip_hex_prefixes("0x"@) == strip_hex_prefixes("0x"@.skip(2)));
}

/// The total of outputs adds up over any split of them, and one output's
/// total is its value.
pub proof fn law_total_value_adds(a: Seq<u64>, b: Seq<u64>)
    ensures
        total_value(a + b) == total_value(a) + total_value(b),
        b.len() == 1 ==> total_value(b) == b[0],
    decreases b.len(),
{
    if b.len() == 0 {
        assert(a + b =~= a);
    } else {
        law_total_value_adds(a, b.drop_last());
        assert((a + b).drop_last() =~= a + b.drop_last());
        if b.len() == 1 {
            assert(b.drop_last().len() == 0);
        }
    }
}

/// The total of `n` values below `2^64` is below `n * 2^64`.
proof fn lemma_total_value_bound(values: Seq<u64>)
    ensures
        total_value(values) <= values.len() * (u64::MAX as nat),
    decreases values.len(),
{
    if values.len() > 0 {
        lemma_total_value_bound(values.drop_last());
    }
}

/// The registry of chains.
pub struct PathsRegistry;

impl PathsRegistry {
    /// The derivation path and RPC endpoint of a chain.
    pub fn get(coin: CoinType) -> (r: Result<ChainInfo, String>)
        ensures
            r matches Ok(info) && info.path@ == chain_path(coin) && info.rpc@ == chain_rpc(coin),
    {
        match coin {
            CoinType::Bitcoin => Ok(
                ChainInfo { path: "m/44'/0'/0'/0/0", rpc: "https://blockstream.info/api" },
            ),
            CoinType::Ethereum => Ok(
                ChainInfo { path: "m/44'/60'/0'/0/0", rpc: "https://rpc.ankr.com/eth" },
            ),
            CoinType::Solana => Ok(
                ChainInfo { path: "m/44'/501'/0'/0'", rpc: "https://api.mainnet-beta.solana.com" },
            ),
            CoinType::Tron => Ok(
                ChainInfo { path: "m/44'/195'/0'/0/0", rpc: "https://api.trongrid.io" },
            ),
        }
    }

    /// The URL that a balance query for `address` on `coin` is sent to.
    pub fn balance_url(coin: CoinType, address: &str) -> (r: String)
        ensures
            r@ == balance_url(coin, address@),
            coin == CoinType::Bitcoin ==> r@ == "https://blockstream.info/api/address/"@ + address@
                + "/utxo"@,
            coin == CoinType::Bitcoin ==> r@.subrange(37, 37 + address@.len() as int) == address@,
            coin == CoinType::Ethereum ==> r@ == "https://rpc.ankr.com/eth"@,
            coin == CoinType::Solana ==> r@ == "https://api.mainnet-beta.solana.com"@,
            coin == CoinType::Tron ==> r@ == "https://api.trongrid.io/wallet/getaccount"@,
    {
        proof {
            law_balance_url_carries_address(address@);
            law_balance_url_per_chain();
        }
        let info = match Self::get(coin) {
            Ok(info) => info,
            Err(_) => return String::new(),
        };
        let mut url = String::from_str(info.rpc);
        match coin {
            CoinType::Bitcoin => {
                url.append("/address/");
                url.append(address);
                url.append("/utxo");
            },
            CoinType::Tron => {
                url.append("/wallet/getaccount");
            },
            _ => {},
        }
        url
    }

    /// The Bitcoin balance of an address: the sum of its unspent outputs.
    pub fn utxo_total(values: &Vec<u64>) -> (r: u128)
        ensures
            r == total_value(values@),
    {
        let mut total: u128 = 0;
        let mut i: usize = 0;
        while i < values.len()
            invariant
                i <= values@.len(),
                total == total_value(values@.subrange(0, i as int)),
            decreases values@.len() - i,
        {
            proof {
                let prefix = values@.subrange(0, i + 1);
                assert(prefix.drop_last() =~= values@.subrange(0, i as int));
                lemma_total_value_bound(prefix);
                assert((i + 1) * (u64::MAX as nat) <= u128::MAX) by (nonlinear_arith)
                    requires
                        i < values@.len(),
                        values@.len() <= usize::MAX,
                ;
                assert(prefix.len() == i + 1);
                assert(total_value(prefix) <= (i + 1) * (u64::MAX as nat)) by (nonlinear_arith)
                    requires
                        total_value(prefix) <= prefix.len() * (u64::MAX as nat),
                        prefix.len() == i + 1,
                ;
            }
            total = total + values[i] as u128;
            i = i + 1;
        }
        assert(values@.subrange(0, values@.len() as int) =~= values@);
        total
    }

    /// The Ethereum balance in wei from the node's hexadecimal text, `0x`
    /// prefixes dropped; the parser's complaint when the text is no numeral
    /// that fits in 128 bits.
    pub fn parse_wei(text: &str) -> (r: Result<u128, String>)
        ensures
            r is Ok <==> reported_wei(text@) is Some,
            r matches Ok(v) ==> reported_wei(text@) == Some(v),
            r matches Err(e) ==> e@ == u128_hex_error_text(strip_hex_prefixes(text@)),
    {
        let digits = trim_hex_prefixes(text);
        parse_u128_hex(digits)
    }
}

} // verus!

verus! {

/// Decimal digits of a number, most significant first.
pub open spec fn decimal(n: nat) -> Seq<char>
    decreases n,
{
    if n < 10 {
        seq![(48 + n) as char]
    } else {
        decimal(n / 10).push((48 + n % 10) as char)
    }
}

/// The QP44 prefix of a chain's path: purpose, coin-type index and account
/// zero, each hardened.
pub open spec fn qp44_prefix(c: CoinType) -> Seq<char> {
    "m/"@ + decimal(PURPOSE_44 as nat) + "'/"@ + decimal(coin_index(c) as nat) + "'/0'"@
}

/// Every chain's registered path begins with its QP44 prefix: purpose 44,
/// then the chain's coin-type index (the mass the chain retains), then
/// account 0, all hardened.
pub proof fn law_path_follows_coin_index(c: CoinType)
    ensures
        qp44_prefix(c).len() <= chain_path(c).len(),
        chain_path(c).take(qp44_prefix(c).len() as int) == qp44_prefix(c),
        chain_path(c) == qp44_prefix(c) + (if c == CoinType::Solana {
            "/0'"@
        } else {
            "/0/0"@
        }),
{
    reveal_strlit("/0'");
    reveal_strlit("/0/0");
    reveal_strlit("m/");
    reveal_strlit("'/");
    reveal_strlit("'/0'");
    reveal_strlit("m/44'/0'/0'/0/0");
    reveal_strlit("m/44'/60'/0'/0/0");
    reveal_strlit("m/44'/501'/0'/0'");
    reveal_strlit("m/44'/195'/0'/0/0");
    reveal_with_fuel(decimal, 3);
    assert(decimal(44) =~= seq!['4', '4']);
    match c {
        CoinType::Bitcoin => {
            assert(decimal(0) =~= seq!['0']);
            assert(chain_path(c).take(qp44_prefix(c).len() as int) =~= qp44_prefix(c));
            assert(chain_path(c) =~= qp44_prefix(c) + (if c == CoinType::Solana {
                "/0'"@
            } else {
                "/0/0"@
            }));
        },
        CoinType::Ethereum => {
            assert(decimal(60) =~= seq!['6', '0']);
            assert(chain_path(c).take(qp44_prefix(c).len() as int) =~= qp44_prefix(c));
            assert(chain_path(c) =~= qp44_prefix(c) + (if c == CoinType::Solana {
                "/0'"@
            } else {
                "/0/0"@
            }));
        },
        CoinType::Solana => {
            assert(decimal(50) =~= seq!['5', '0']);
            assert(decimal(501) =~= seq!['5', '0', '1']);
            assert(chain_path(c).take(qp44_prefix(c).len() as int) =~= qp44_prefix(c));
            assert(chain_path(c) =~= qp44_prefix(c) + (if c == CoinType::Solana {
                "/0'"@
            } else {
                "/0/0"@
            }));
        },
        CoinType::Tron => {
            assert(decimal(19) =~= seq!['1', '9']);
            assert(decimal(195) =~= seq!['1', '9', '5']);
            assert(chain_path(c).take(qp44_prefix(c).len() as int) =~= qp44_prefix(c));
            assert(chain_path(c) =~= qp44_prefix(c) + (if c == CoinType::Solana {
                "/0'"@
            } else {
                "/0/0"@
            }));
        },
    }
}

} // verus!
