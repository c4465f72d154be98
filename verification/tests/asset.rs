use manta_signer::asset::get_currency_symbol_by_asset_id;

#[test]
fn known_assets_have_symbols() {
    assert_eq!(get_currency_symbol_by_asset_id(1), Some("DOT"));
    assert_eq!(get_currency_symbol_by_asset_id(2), Some("KSM"));
}

#[test]
fn unknown_assets_have_no_symbol() {
    assert_eq!(get_currency_symbol_by_asset_id(0), None);
    assert_eq!(get_currency_symbol_by_asset_id(3), None);
    assert_eq!(get_currency_symbol_by_asset_id(u64::MAX), None);
}
