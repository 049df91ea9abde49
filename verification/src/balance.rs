//! The arithmetic and selection behind the balance queries of the wallet
//! service.
use vstd::prelude::*;
use vstd::string::StringExecFns;

verus! {

/// One token holding of a Tron account as the explorer lists it: its name,
/// abbreviation and quantity text (empty when the explorer omits them,
/// quantity `0`).
pub struct TokenEntry {
    pub name: String,
    pub abbr: String,
    pub quantity: String,
}

/// A holding of Tether USD.
pub open spec fn is_usdt(t: TokenEntry) -> bool {
    t.name@ == "Tether USD"@ || t.abbr@ == "USDT"@
}

/// A holding counts as Tether USD exactly when it is named `Tether USD` or
/// abbreviated `USDT`; any other name and abbreviation, such as another
/// stablecoin's, never count.
pub proof fn law_usdt_by_fields(t: TokenEntry)
    ensures
        is_usdt(t) <==> (t.name@ == "Tether USD"@ || t.abbr@ == "USDT"@),
{
}

/// The position of the first Tether USD holding in a token list, if any.
pub fn find_usdt(tokens: &Vec<TokenEntry>) -> (r: Option<usize>)
    ensures
        r matches Some(i) ==> i < tokens@.len() && is_usdt(tokens@[i as int]) && forall|j: int|
            0 <= j < i ==> !is_usdt(#[trigger] tokens@[j]),
        r is None ==> forall|j: int| 0 <= j < tokens@.len() ==> !is_usdt(#[trigger] tokens@[j]),
        r matches Some(i) ==> tokens@[i as int].name@ == "Tether USD"@ || tokens@[i as int].abbr@
            == "USDT"@,
        forall|j: int|
            0 <= j < (if r is Some { r->0 as int } else { tokens@.len() as int }) ==> (
            #[trigger] tokens@[j]).name@ != "Tether USD"@ && tokens@[j].abbr@ != "USDT"@,
{
    let tether = String::from_str("Tether USD");
    let usdt = String::from_str("USDT");
    let mut i: usize = 0;
    while i < tokens.len()
        invariant
            i <= tokens@.len(),
            tether@ == "Tether USD"@,
            usdt@ == "USDT"@,
            forall|j: int| 0 <= j < i ==> !is_usdt(#[trigger] tokens@[j]),
        decreases tokens@.len() - i,
    {
        if tokens[i].name == tether || tokens[i].abbr == usdt {
            return Some(i);
        }
        i = i + 1;
    }
    None
}

/// The confirmed Bitcoin balance in satoshi: funded outputs less spent
/// ones, never below zero.
pub fn bitcoin_satoshi(funded: u64, spent: u64) -> (r: u64)
    ensures
        r == (if funded >= spent { funded - spent } else { 0 }),
{
    funded.saturating_sub(spent)
}

} // verus!
