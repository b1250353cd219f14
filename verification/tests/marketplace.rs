use intelligence_rail::ledger::{Address, Party, Transfer};
use intelligence_rail::marketplace::{
    initial_calls, AssetType, IntelligenceAsset, License, LicenseType, MarketAction, MarketError,
    MarketEvent, MarketplaceContract, MAX_ASSETS, USAGE_CALL_BUNDLE,
};

fn addr(key: &str) -> Address {
    Address::from_text(key.to_string())
}

fn text(s: &str) -> String {
    s.to_string()
}

fn setup() -> (MarketplaceContract, Address) {
    let admin = addr("GADMINAAAAAAAAAAAAAAAAAAAAAAAAAAAAAAAAAAAAAAAAAAAAAAAAAA");
    (MarketplaceContract::new(), admin)
}

fn list(
    client: &mut MarketplaceContract,
    owner: &Address,
    name: &str,
    description: &str,
    asset_type: AssetType,
    license: LicenseType,
    price: i128,
) -> u64 {
    client
        .list_asset(owner.clone(), text(name), text(description), asset_type, license, price, 0)
        .unwrap()
}

#[test]
fn test_initialize() {
    let (mut client, admin) = setup();
    client.initialize(admin.clone());
    assert_eq!(client.asset_count(), 0);
    assert_eq!(client.admin().unwrap().text(), admin.text());
}

#[test]
fn test_list_and_get_asset() {
    let (mut client, admin) = setup();
    client.initialize(admin.clone());

    let asset_id = list(
        &mut client,
        &admin,
        "GPT-4 Chain-of-Thought Prompt",
        "Advanced reasoning prompt for complex analysis",
        AssetType::Prompt,
        LicenseType::Perpetual,
        5_000_000i128, // 0.5 XLM
    );

    assert_eq!(asset_id, 1);
    assert_eq!(client.asset_count(), 1);

    let asset = client.get_asset(1).unwrap();
    assert_eq!(asset.id, 1);
    assert!(asset.is_active);
    assert_eq!(asset.price, 5_000_000);
}

#[test]
fn test_multiple_assets() {
    let (mut client, admin) = setup();
    client.initialize(admin.clone());

    for i in 0..5u32 {
        let name = if i == 0 {
            "Asset One"
        } else if i == 1 {
            "Asset Two"
        } else if i == 2 {
            "Asset Three"
        } else if i == 3 {
            "Asset Four"
        } else {
            "Asset Five"
        };

        list(
            &mut client,
            &admin,
            name,
            "A test intelligence asset",
            AssetType::Workflow,
            LicenseType::UsageBased,
            1_000_000i128,
        );
    }

    assert_eq!(client.asset_count(), 5);
}

#[test]
fn test_delist_asset() {
    let (mut client, admin) = setup();
    client.initialize(admin.clone());

    let asset_id = list(
        &mut client,
        &admin,
        "Deprecated Evaluator",
        "Old evaluator being retired",
        AssetType::Evaluator,
        LicenseType::Perpetual,
        2_000_000i128,
    );

    client.delist_asset(admin.clone(), asset_id).unwrap();

    let asset = client.get_asset(asset_id).unwrap();
    assert!(!asset.is_active);
}

#[test]
fn test_update_price() {
    let (mut client, admin) = setup();
    client.initialize(admin.clone());

    let asset_id = list(
        &mut client,
        &admin,
        "Memory System v1",
        "Persistent agent memory module",
        AssetType::MemorySystem,
        LicenseType::Subscription,
        10_000_000i128,
    );

    client.update_price(admin.clone(), asset_id, 15_000_000i128).unwrap();

    let asset = client.get_asset(asset_id).unwrap();
    assert_eq!(asset.price, 15_000_000);
}

#[test]
fn test_purchase_license() {
    let (mut client, admin) = setup();
    let buyer = addr("GBUYERAAAAAAAAAAAAAAAAAAAAAAAAAAAAAAAAAAAAAAAAAAAAAAAAAA");
    let token_addr = addr("CTOKENAAAAAAAAAAAAAAAAAAAAAAAAAAAAAAAAAAAAAAAAAAAAAAAAAA");
    client.initialize(admin.clone());

    let asset_id = list(
        &mut client,
        &admin,
        "Reasoning Chain Alpha",
        "Multi-step reasoning for legal analysis",
        AssetType::ReasoningChain,
        LicenseType::Perpetual,
        10_000_000i128,
    );

    assert!(!client.has_license(buyer.clone(), asset_id));

    let license = client.purchase_license(buyer.clone(), asset_id, token_addr, 0).unwrap();
    assert_eq!(license.asset_id, asset_id);
    assert!(client.has_license(buyer, asset_id));
}

#[test]
fn test_has_no_license_by_default() {
    let (mut client, admin) = setup();
    let stranger = addr("GSTRANGERAAAAAAAAAAAAAAAAAAAAAAAAAAAAAAAAAAAAAAAAAAAAAAA");
    client.initialize(admin.clone());

    list(
        &mut client,
        &admin,
        "Tool Pack",
        "Collection of agent tools",
        AssetType::Tool,
        LicenseType::UsageBased,
        3_000_000i128,
    );

    assert!(!client.has_license(stranger, 1));
}

// ---------------------------------------------------------------------------
// Further cases of the contracts and laws.

fn alice() -> Address {
    addr("GALICE")
}

fn bob() -> Address {
    addr("GBOB")
}

fn token() -> Address {
    addr("CTOKEN")
}

fn market_with_asset(license: LicenseType, price: i128) -> MarketplaceContract {
    let mut m = MarketplaceContract::new();
    m.initialize(alice());
    m.list_asset(alice(), text("Asset"), text("Desc"), AssetType::Dataset, license, price, 42)
        .unwrap();
    m
}

#[test]
fn listing_records_every_field_and_queues_event() {
    let mut m = MarketplaceContract::new();
    let id = m
        .list_asset(
            alice(),
            text("Name"),
            text("About"),
            AssetType::Evaluator,
            LicenseType::OpenSource,
            -7,
            1234,
        )
        .unwrap();
    assert_eq!(id, 1);
    let a: IntelligenceAsset = m.get_asset(1).unwrap();
    assert_eq!(a.owner.text(), "GALICE");
    assert_eq!(a.name, "Name");
    assert_eq!(a.description, "About");
    assert_eq!(a.asset_type, AssetType::Evaluator);
    assert_eq!(a.license, LicenseType::OpenSource);
    assert_eq!(a.price, -7);
    assert_eq!(a.usage_count, 0);
    assert!(a.is_active);
    assert_eq!(a.created_at, 1234);
    let actions = m.take_actions();
    assert_eq!(actions.len(), 1);
    match &actions[0] {
        MarketAction::Emit(MarketEvent::Listed { owner, asset_id }) => {
            assert_eq!(owner.text(), "GALICE");
            assert_eq!(*asset_id, 1);
        }
        other => panic!("unexpected action {:?}", other),
    }
    assert!(m.take_actions().is_empty());
}

#[test]
fn listing_without_initialize_starts_at_one() {
    let mut m = MarketplaceContract::new();
    assert_eq!(m.asset_count(), 0);
    let id = m
        .list_asset(alice(), text("a"), text("b"), AssetType::Prompt, LicenseType::Perpetual, 1, 0)
        .unwrap();
    assert_eq!(id, 1);
    assert!(m.admin().is_none());
}

#[test]
fn reinitialize_keeps_ids_and_assets() {
    let mut m = market_with_asset(LicenseType::Perpetual, 5);
    m.delist_asset(alice(), 1).unwrap();
    m.initialize(bob());
    assert_eq!(m.admin().unwrap().text(), "GBOB");
    assert_eq!(m.asset_count(), 1);
    let id = m
        .list_asset(bob(), text("new"), text("d"), AssetType::Tool, LicenseType::Perpetual, 9, 0)
        .unwrap();
    assert_eq!(id, 2);
    assert_eq!(m.asset_count(), 2);
    let a = m.get_asset(1).unwrap();
    assert_eq!(a.owner.text(), "GALICE");
    assert_eq!(a.price, 5);
    assert!(!a.is_active);
    assert_eq!(m.get_asset(2).unwrap().owner.text(), "GBOB");
}

#[test]
fn listing_limit_is_enforced() {
    let mut m = MarketplaceContract::restore(None, MAX_ASSETS, vec![], vec![]);
    let r = m.list_asset(alice(), text("a"), text("b"), AssetType::Prompt, LicenseType::Perpetual, 1, 0);
    assert_eq!(r.unwrap_err(), MarketError::AssetLimitReached);
    assert_eq!(m.asset_count(), MAX_ASSETS);
    assert!(m.get_asset(MAX_ASSETS + 1).is_none());

    let mut m = MarketplaceContract::restore(None, MAX_ASSETS - 1, vec![], vec![]);
    let r = m.list_asset(alice(), text("a"), text("b"), AssetType::Prompt, LicenseType::Perpetual, 1, 0);
    assert_eq!(r.unwrap(), MAX_ASSETS);
}

#[test]
fn unknown_asset_is_refused_everywhere() {
    let mut m = market_with_asset(LicenseType::Perpetual, 5);
    assert!(m.get_asset(2).is_none());
    assert_eq!(m.delist_asset(alice(), 2).unwrap_err(), MarketError::AssetNotFound);
    assert_eq!(m.update_price(alice(), 2, 1).unwrap_err(), MarketError::AssetNotFound);
    assert_eq!(m.purchase_license(bob(), 2, token(), 0).unwrap_err(), MarketError::AssetNotFound);
}

#[test]
fn non_owner_cannot_change_asset() {
    let mut m = market_with_asset(LicenseType::Perpetual, 5);
    m.take_actions();
    assert_eq!(m.delist_asset(bob(), 1).unwrap_err(), MarketError::NotAssetOwner);
    assert_eq!(m.update_price(bob(), 1, 99).unwrap_err(), MarketError::NotAssetOwner);
    let a = m.get_asset(1).unwrap();
    assert!(a.is_active);
    assert_eq!(a.price, 5);
    assert!(m.take_actions().is_empty());
}

#[test]
fn delisted_asset_cannot_be_repriced_or_bought() {
    let mut m = market_with_asset(LicenseType::Perpetual, 5);
    m.delist_asset(alice(), 1).unwrap();
    assert_eq!(m.update_price(alice(), 1, 6).unwrap_err(), MarketError::AssetInactive);
    assert_eq!(m.purchase_license(bob(), 1, token(), 0).unwrap_err(), MarketError::AssetInactive);
    assert!(!m.has_license(bob(), 1));
    // Delisting again is allowed and keeps it inactive.
    m.delist_asset(alice(), 1).unwrap();
    assert!(!m.get_asset(1).unwrap().is_active);
}

#[test]
fn owner_cannot_buy_own_asset() {
    let mut m = market_with_asset(LicenseType::Perpetual, 5);
    assert_eq!(
        m.purchase_license(alice(), 1, token(), 0).unwrap_err(),
        MarketError::CannotBuyOwnAsset
    );
    assert_eq!(m.get_asset(1).unwrap().usage_count, 0);
}

#[test]
fn usage_based_license_gets_call_bundle() {
    let mut m = market_with_asset(LicenseType::UsageBased, 700);
    m.take_actions();
    let lic: License = m.purchase_license(bob(), 1, token(), 77).unwrap();
    assert_eq!(lic.calls_remaining, 100);
    assert_eq!(lic.calls_remaining, USAGE_CALL_BUNDLE);
    assert_eq!(lic.license_type, LicenseType::UsageBased);
    assert_eq!(lic.purchased_at, 77);
    assert_eq!(lic.buyer.text(), "GBOB");
    let stored = m.get_license(bob(), 1).unwrap();
    assert_eq!(stored.calls_remaining, 100);
    assert_eq!(m.get_asset(1).unwrap().usage_count, 1);

    let actions = m.take_actions();
    assert_eq!(actions.len(), 2);
    match &actions[0] {
        MarketAction::Pay(Transfer { token, from: Party::Account(from), to: Party::Account(to), amount }) => {
            assert_eq!(token.text(), "CTOKEN");
            assert_eq!(from.text(), "GBOB");
            assert_eq!(to.text(), "GALICE");
            assert_eq!(*amount, 700);
        }
        other => panic!("unexpected action {:?}", other),
    }
    match &actions[1] {
        MarketAction::Emit(MarketEvent::Purchased { buyer, asset_id, price }) => {
            assert_eq!(buyer.text(), "GBOB");
            assert_eq!(*asset_id, 1);
            assert_eq!(*price, 700);
        }
        other => panic!("unexpected action {:?}", other),
    }
}

#[test]
fn other_licenses_are_unlimited() {
    assert_eq!(initial_calls(LicenseType::Perpetual), u64::MAX);
    assert_eq!(initial_calls(LicenseType::Subscription), u64::MAX);
    assert_eq!(initial_calls(LicenseType::OpenSource), u64::MAX);
    assert_eq!(initial_calls(LicenseType::UsageBased), 100);
    let mut m = market_with_asset(LicenseType::Subscription, 1);
    let lic = m.purchase_license(bob(), 1, token(), 0).unwrap();
    assert_eq!(lic.calls_remaining, u64::MAX);
}

#[test]
fn repeated_purchase_replaces_license_and_counts_usage() {
    let mut m = market_with_asset(LicenseType::Perpetual, 1);
    m.purchase_license(bob(), 1, token(), 10).unwrap();
    m.purchase_license(bob(), 1, token(), 20).unwrap();
    assert_eq!(m.get_license(bob(), 1).unwrap().purchased_at, 20);
    assert_eq!(m.get_asset(1).unwrap().usage_count, 2);
    assert!(m.get_license(addr("GCAROL"), 1).is_none());
    assert!(m.get_license(bob(), 2).is_none());
}

#[test]
fn usage_counter_overflow_is_refused() {
    let asset = IntelligenceAsset {
        id: 3,
        owner: alice(),
        name: text("n"),
        description: text("d"),
        asset_type: AssetType::Prompt,
        license: LicenseType::Perpetual,
        price: 1,
        usage_count: u64::MAX,
        is_active: true,
        created_at: 0,
    };
    let mut m = MarketplaceContract::restore(Some(alice()), 3, vec![asset], vec![]);
    assert_eq!(
        m.purchase_license(bob(), 3, token(), 0).unwrap_err(),
        MarketError::UsageCountOverflow
    );
    assert!(!m.has_license(bob(), 3));
}

#[test]
fn restore_keeps_latest_records() {
    let mk = |id: u64, price: i128| IntelligenceAsset {
        id,
        owner: alice(),
        name: text("n"),
        description: text("d"),
        asset_type: AssetType::Prompt,
        license: LicenseType::Perpetual,
        price,
        usage_count: 0,
        is_active: true,
        created_at: 0,
    };
    let lic = |at: u64| License {
        asset_id: 1,
        buyer: bob(),
        license_type: LicenseType::Perpetual,
        purchased_at: at,
        calls_remaining: 1,
    };
    let m = MarketplaceContract::restore(
        Some(alice()),
        2,
        vec![mk(1, 10), mk(2, 20), mk(1, 30)],
        vec![lic(5), lic(6)],
    );
    assert_eq!(m.asset_count(), 2);
    assert_eq!(m.get_asset(1).unwrap().price, 30);
    assert_eq!(m.get_asset(2).unwrap().price, 20);
    assert_eq!(m.get_license(bob(), 1).unwrap().purchased_at, 6);
}
