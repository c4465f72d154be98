//! Assets and the symbols of their currencies.

use vstd::prelude::*;

verus! {

/// Asset Identifier
pub type AssetId = u64;

/// Amount of an asset, in its smallest unit
pub type AssetBalance = u128;

/// The symbol of the currency that `asset_id` stands for, if it is a known one.
pub open spec fn currency_symbol(asset_id: AssetId) -> Option<Seq<char>> {
    if asset_id == 1 {
        Some("DOT"@)
    } else if asset_id == 2 {
        Some("KSM"@)
    } else {
        None
    }
}

/// The characters of an optional string slice.
pub open spec fn optional_text(text: Option<&'static str>) -> Option<Seq<char>> {
    match text {
        Some(s) => Some(s@),
        None => None,
    }
}

/// Returns the currency symbol for the given `asset_id`.
pub fn get_currency_symbol_by_asset_id(asset_id: AssetId) -> (symbol: Option<&'static str>)
    ensures
        optional_text(symbol) == currency_symbol(asset_id),
{
    match asset_id {
        1 => Some("DOT"),
        2 => Some("KSM"),
        _ => None,
    }
}

/// No two assets share a symbol: a symbol that is shown tells which asset is meant.
pub proof fn law_symbol_identifies_asset(a: AssetId, b: AssetId)
    requires
        currency_symbol(a) is Some,
        currency_symbol(a) == currency_symbol(b),
    ensures
        a == b,
{
    reveal_strlit("DOT");
    reveal_strlit("KSM");
    assert("DOT"@[0] != "KSM"@[0]);
}

/// The known assets are 1, whose symbol is DOT, and 2, whose symbol is KSM. No other has a symbol.
pub proof fn law_known_symbols(asset_id: AssetId, symbol: Option<&'static str>)
    requires
        call_ensures(get_currency_symbol_by_asset_id, (asset_id,), symbol),
    ensures
        asset_id == 1 <==> (symbol matches Some(s) && s@ == seq!['D', 'O', 'T']),
        asset_id == 2 <==> (symbol matches Some(s) && s@ == seq!['K', 'S', 'M']),
        symbol is None <==> asset_id != 1 && asset_id != 2,
{
    reveal_strlit("DOT");
    reveal_strlit("KSM");
    assert("DOT"@ =~= seq!['D', 'O', 'T']);
    assert("KSM"@ =~= seq!['K', 'S', 'M']);
    assert("DOT"@[0] != "KSM"@[0]);
}

} // verus!
