use savegraph::war_asset::WarAsset;

#[test]
fn known_asset_names_resolve() {
    assert_eq!(WarAsset(6).as_str(), "TerminusFleet_Military");
    assert_eq!(WarAsset(0).as_str(), "AllianceEngineeringCorp_Military");
    assert_eq!(WarAsset(267).as_str(), "BlackMarketArtifacts_Quest");
    assert_eq!(WarAsset(187).as_str(), "Normandy_Military");
}

#[test]
fn unknown_asset_names_fall_back() {
    assert_eq!(WarAsset(5).as_str(), "<Unknown>");
    assert_eq!(WarAsset(-1).as_str(), "<Unknown>");
    assert_eq!(WarAsset(1000).as_str(), "<Unknown>");
}

#[test]
fn asset_converts_to_and_from_bare_integer() {
    let a = WarAsset::from(42);
    assert_eq!(a.0, 42);
    let back: i32 = i32::from(a);
    assert_eq!(back, 42);
}

#[test]
fn asset_default_is_zero_valued() {
    let d = WarAsset::default();
    assert_eq!(d.0, 0);
    assert_eq!(d, WarAsset(0));
}
