//! Properties of the marketplace that span several calls.
use vstd::prelude::*;

use crate::ledger::{Address, Party, Transfer};
use crate::marketplace::{
    calls_granted, new_asset, AssetType, IntelligenceAsset, LicenseType, MarketAction, MarketError,
    MarketEvent, MarketplaceModel, MAX_ASSETS,
};

verus! {

/// A listing gets the next id, is readable under it exactly as listed (active,
/// unused, stamped with the listing time), raises the counter to that id and
/// grants no license; it is refused only when the governance limit is reached.
pub proof fn law_listing_is_readable(
    m: MarketplaceModel,
    owner: Address,
    name: String,
    description: String,
    asset_type: AssetType,
    license: LicenseType,
    price: i128,
    now: u64,
)
    requires
        m.wf(),
    ensures
        match m.list_asset(owner, name, description, asset_type, license, price, now) {
            Ok((post, id)) => {
                &&& m.asset_count < MAX_ASSETS
                &&& id == m.asset_count + 1
                &&& post.asset_count == id
                &&& post.asset(id) == Some(
                    new_asset(id, owner, name, description, asset_type, license, price, now),
                )
                &&& post.assets[id].id == id && post.assets[id].owner == owner
                &&& post.assets[id].name == name && post.assets[id].description == description
                &&& post.assets[id].asset_type == asset_type && post.assets[id].license == license
                &&& post.assets[id].price == price && post.assets[id].usage_count == 0
                &&& post.assets[id].is_active && post.assets[id].created_at == now
                &&& post.licenses == m.licenses
                &&& post.wf()
            },
            Err(e) => e == MarketError::AssetLimitReached && m.asset_count >= MAX_ASSETS,
        },
{
}

/// A fresh marketplace is sound.
pub proof fn law_fresh_marketplace_is_sound()
    ensures
        (MarketplaceModel {
            admin: None,
            asset_count: 0,
            assets: Map::empty(),
            licenses: Map::empty(),
            actions: Seq::empty(),
        }).sound(),
{
}

/// Every call keeps the marketplace sound: asset ids stay exactly 1 to
/// `asset_count`, within the governance limit.
pub proof fn law_soundness_is_kept(
    m: MarketplaceModel,
    caller: Address,
    name: String,
    description: String,
    asset_type: AssetType,
    license: LicenseType,
    price: i128,
    now: u64,
    asset_id: u64,
    token: Address,
)
    requires
        m.sound(),
    ensures
        m.initialize(caller).sound(),
        m.list_asset(caller, name, description, asset_type, license, price, now) matches Ok(
            (post, _),
        ) ==> post.sound(),
        m.delist_asset(caller, asset_id) matches Ok(post) ==> post.sound(),
        m.update_price(caller, asset_id, price) matches Ok(post) ==> post.sound(),
        m.purchase_license(caller, asset_id, token, now) matches Ok((post, _)) ==> post.sound(),
{
}

/// The asset counter counts listings: a successful listing raises it by one
/// and no other call changes it, so it is the total number of assets ever
/// listed.
pub proof fn law_asset_count_counts_listings(
    m: MarketplaceModel,
    caller: Address,
    name: String,
    description: String,
    asset_type: AssetType,
    license: LicenseType,
    price: i128,
    now: u64,
    asset_id: u64,
    token: Address,
)
    ensures
        m.initialize(caller).asset_count == m.asset_count,
        m.list_asset(caller, name, description, asset_type, license, price, now) matches Ok(
            (post, _),
        ) ==> post.asset_count == m.asset_count + 1,
        m.delist_asset(caller, asset_id) matches Ok(post) ==> post.asset_count == m.asset_count,
        m.update_price(caller, asset_id, price) matches Ok(post) ==> post.asset_count
            == m.asset_count,
        m.purchase_license(caller, asset_id, token, now) matches Ok((post, _)) ==> post.asset_count
            == m.asset_count,
{
}

/// In a sound marketplace a listing never reuses an id: the new id was free,
/// and every asset listed before is left exactly as it was.
pub proof fn law_listing_never_overwrites(
    m: MarketplaceModel,
    owner: Address,
    name: String,
    description: String,
    asset_type: AssetType,
    license: LicenseType,
    price: i128,
    now: u64,
    other: u64,
)
    requires
        m.sound(),
        m.assets.contains_key(other),
    ensures
        m.list_asset(owner, name, description, asset_type, license, price, now) matches Ok(
            (post, id),
        ) ==> !m.assets.contains_key(id) && post.assets[other] == m.assets[other],
{
}

/// In a sound marketplace a delisted asset stays as it is for good: no call
/// changes its record again (in particular nothing re-activates it), and it
/// can be neither bought nor repriced.
pub proof fn law_delisted_asset_stays_delisted(
    m: MarketplaceModel,
    caller: Address,
    name: String,
    description: String,
    asset_type: AssetType,
    license: LicenseType,
    price: i128,
    now: u64,
    asset_id: u64,
    any_asset: u64,
    token: Address,
)
    requires
        m.sound(),
        m.assets.contains_key(asset_id),
        !m.assets[asset_id].is_active,
    ensures
        m.initialize(caller).assets[asset_id] == m.assets[asset_id],
        m.list_asset(caller, name, description, asset_type, license, price, now) matches Ok(
            (post, _),
        ) ==> post.assets[asset_id] == m.assets[asset_id],
        m.delist_asset(caller, any_asset) matches Ok(post) ==> post.assets[asset_id]
            == m.assets[asset_id],
        m.update_price(caller, any_asset, price) matches Ok(post) ==> post.assets[asset_id]
            == m.assets[asset_id],
        m.purchase_license(caller, any_asset, token, now) matches Ok((post, _))
            ==> post.assets[asset_id] == m.assets[asset_id],
        m.purchase_license(caller, asset_id, token, now) is Err,
        m.update_price(caller, asset_id, price) is Err,
{
}

/// In a sound marketplace an asset's usage counter counts its purchases: a
/// successful purchase of it raises the counter by one, and no other call
/// changes it.
pub proof fn law_usage_counts_purchases(
    m: MarketplaceModel,
    caller: Address,
    name: String,
    description: String,
    asset_type: AssetType,
    license: LicenseType,
    price: i128,
    now: u64,
    asset_id: u64,
    any_asset: u64,
    token: Address,
)
    requires
        m.sound(),
        m.assets.contains_key(asset_id),
    ensures
        m.initialize(caller).assets[asset_id].usage_count == m.assets[asset_id].usage_count,
        m.list_asset(caller, name, description, asset_type, license, price, now) matches Ok(
            (post, _),
        ) ==> post.assets[asset_id].usage_count == m.assets[asset_id].usage_count,
        m.delist_asset(caller, any_asset) matches Ok(post) ==> post.assets[asset_id].usage_count
            == m.assets[asset_id].usage_count,
        m.update_price(caller, any_asset, price) matches Ok(post)
            ==> post.assets[asset_id].usage_count == m.assets[asset_id].usage_count,
        m.purchase_license(caller, any_asset, token, now) matches Ok((post, _))
            ==> post.assets[asset_id].usage_count == m.assets[asset_id].usage_count + (
        if any_asset == asset_id {
            1int
        } else {
            0int
        }),
{
}

/// Only the owner of an asset may delist it or change its price; anyone else
/// is refused and nothing changes.
pub proof fn law_only_owner_changes_asset(
    m: MarketplaceModel,
    caller: Address,
    asset_id: u64,
    new_price: i128,
)
    requires
        m.assets.contains_key(asset_id),
        m.assets[asset_id].owner@ != caller@,
    ensures
        m.delist_asset(caller, asset_id) == Err::<MarketplaceModel, MarketError>(
            MarketError::NotAssetOwner,
        ),
        m.update_price(caller, asset_id, new_price) == Err::<MarketplaceModel, MarketError>(
            MarketError::NotAssetOwner,
        ),
{
}

/// Delisting deactivates the asset and changes nothing else about it; a
/// delisted asset can then be neither bought nor repriced.
pub proof fn law_delisted_asset_is_closed(
    m: MarketplaceModel,
    owner: Address,
    asset_id: u64,
    buyer: Address,
    token: Address,
    now: u64,
    new_price: i128,
)
    requires
        m.wf(),
        m.delist_asset(owner, asset_id) is Ok,
    ensures
        ({
            let post = m.delist_asset(owner, asset_id)->Ok_0;
            &&& post.assets[asset_id] == (IntelligenceAsset {
                is_active: false,
                ..m.assets[asset_id]
            })
            &&& post.licenses == m.licenses
            &&& post.purchase_license(buyer, asset_id, token, now) == Err::<
                (MarketplaceModel, crate::marketplace::License),
                MarketError,
            >(MarketError::AssetInactive)
            &&& post.update_price(owner, asset_id, new_price) == Err::<MarketplaceModel, MarketError>(
                MarketError::AssetInactive,
            )
        }),
{
}

/// A repricing by the owner changes the price and nothing else.
pub proof fn law_update_price_sets_price(
    m: MarketplaceModel,
    owner: Address,
    asset_id: u64,
    new_price: i128,
)
    requires
        m.update_price(owner, asset_id, new_price) is Ok,
    ensures
        ({
            let post = m.update_price(owner, asset_id, new_price)->Ok_0;
            &&& post.asset(asset_id) == Some(
                IntelligenceAsset { price: new_price, ..m.assets[asset_id] },
            )
            &&& post.licenses == m.licenses
            &&& post.actions == m.actions
        }),
{
}

/// A purchase makes the buyer hold the license it returns: of the asset's
/// license type, stamped with the purchase time, with the usage bundle for
/// usage-based licenses and unlimited calls otherwise. The asset's usage
/// counter goes up by one, and the buyer pays the asset's price to its owner.
pub proof fn law_purchase_grants_license(
    m: MarketplaceModel,
    buyer: Address,
    asset_id: u64,
    token: Address,
    now: u64,
)
    requires
        m.wf(),
        m.purchase_license(buyer, asset_id, token, now) is Ok,
    ensures
        ({
            let (post, license) = m.purchase_license(buyer, asset_id, token, now)->Ok_0;
            let asset = m.assets[asset_id];
            &&& post.license(buyer, asset_id) == Some(license)
            &&& license.asset_id == asset_id
            &&& license.buyer == buyer
            &&& license.license_type == asset.license
            &&& license.purchased_at == now
            &&& license.calls_remaining == calls_granted(asset.license)
            &&& license.calls_remaining == (if asset.license == LicenseType::UsageBased {
                100u64
            } else {
                u64::MAX
            })
            &&& post.assets[asset_id].usage_count == asset.usage_count + 1
            &&& post.actions == m.actions.push(
                MarketAction::Pay(
                    Transfer {
                        token,
                        from: Party::Account(buyer),
                        to: Party::Account(asset.owner),
                        amount: asset.price,
                    },
                ),
            ).push(
                MarketAction::Emit(
                    MarketEvent::Purchased { buyer, asset_id, price: asset.price },
                ),
            )
            &&& post.wf()
        }),
{
}

/// Nobody buys a license for an asset they own.
pub proof fn law_no_purchase_of_own_asset(
    m: MarketplaceModel,
    buyer: Address,
    asset_id: u64,
    token: Address,
    now: u64,
)
    requires
        m.assets.contains_key(asset_id),
        m.assets[asset_id].is_active,
        m.assets[asset_id].owner@ == buyer@,
    ensures
        m.purchase_license(buyer, asset_id, token, now) == Err::<
            (MarketplaceModel, crate::marketplace::License),
            MarketError,
        >(MarketError::CannotBuyOwnAsset),
{
}

/// Licenses come only from purchases: initialising, listing, delisting and
/// repricing leave every license as it was, so nobody holds a license
/// they did not buy.
pub proof fn law_licenses_only_from_purchases(
    m: MarketplaceModel,
    caller: Address,
    name: String,
    description: String,
    asset_type: AssetType,
    license: LicenseType,
    price: i128,
    now: u64,
    asset_id: u64,
    someone: Address,
    other_asset: u64,
)
    ensures
        m.initialize(caller).license(someone, other_asset) == m.license(someone, other_asset),
        m.list_asset(caller, name, description, asset_type, license, price, now) matches Ok(
            (post, _),
        ) ==> post.license(someone, other_asset) == m.license(someone, other_asset),
        m.delist_asset(caller, asset_id) matches Ok(post) ==> post.license(someone, other_asset)
            == m.license(someone, other_asset),
        m.update_price(caller, asset_id, price) matches Ok(post) ==> post.license(
            someone,
            other_asset,
        ) == m.license(someone, other_asset),
{
}

/// A purchase leaves every other license as it was, and every other asset.
pub proof fn law_purchase_touches_only_its_license(
    m: MarketplaceModel,
    buyer: Address,
    asset_id: u64,
    token: Address,
    now: u64,
    someone: Address,
    other_asset: u64,
)
    ensures
        m.purchase_license(buyer, asset_id, token, now) matches Ok((post, _)) ==> {
            &&& (someone@ != buyer@ || other_asset != asset_id) ==> post.license(someone, other_asset)
                == m.license(someone, other_asset)
            &&& other_asset != asset_id ==> post.asset(other_asset) == m.asset(other_asset)
            &&& post.asset_count == m.asset_count
        },
{
}

/// Anyone but the owner can buy a license for an active asset (as long as
/// its usage counter can still count the sale).
pub proof fn law_active_asset_is_for_sale(
    m: MarketplaceModel,
    buyer: Address,
    asset_id: u64,
    token: Address,
    now: u64,
)
    requires
        m.assets.contains_key(asset_id),
        m.assets[asset_id].is_active,
        m.assets[asset_id].owner@ != buyer@,
        m.assets[asset_id].usage_count < u64::MAX,
    ensures
        m.purchase_license(buyer, asset_id, token, now) is Ok,
{
}

/// The owner can always delist its asset, whatever happened to it before
/// (bought, repriced or already delisted); delisting changes nothing but the
/// asset's active flag and leaves every other asset and every license as it
/// was.
pub proof fn law_owner_can_delist(m: MarketplaceModel, caller: Address, asset_id: u64, other: u64)
    requires
        m.assets.contains_key(asset_id),
        m.assets[asset_id].owner@ == caller@,
    ensures
        m.delist_asset(caller, asset_id) is Ok,
        ({
            let post = m.delist_asset(caller, asset_id)->Ok_0;
            let (a, b) = (post.assets[asset_id], m.assets[asset_id]);
            &&& !a.is_active
            &&& a.price == b.price && a.usage_count == b.usage_count && a.owner == b.owner
            &&& a.id == b.id && a.name == b.name && a.description == b.description
            &&& a.license == b.license && a.asset_type == b.asset_type && a.created_at == b.created_at
            &&& other != asset_id ==> post.asset(other) == m.asset(other)
            &&& post.licenses == m.licenses
            &&& post.asset_count == m.asset_count
            &&& post.actions == m.actions.push(
                MarketAction::Emit(MarketEvent::Delisted { owner: caller, asset_id }),
            )
        }),
{
}

/// The owner of an active asset can set any price, higher or lower, even
/// zero or negative; repricing changes only that asset's price.
pub proof fn law_owner_can_reprice(
    m: MarketplaceModel,
    caller: Address,
    asset_id: u64,
    new_price: i128,
    other: u64,
)
    requires
        m.assets.contains_key(asset_id),
        m.assets[asset_id].owner@ == caller@,
        m.assets[asset_id].is_active,
    ensures
        m.update_price(caller, asset_id, new_price) is Ok,
        ({
            let post = m.update_price(caller, asset_id, new_price)->Ok_0;
            let (a, b) = (post.assets[asset_id], m.assets[asset_id]);
            &&& a.price == new_price
            &&& a.is_active && a.usage_count == b.usage_count && a.owner == b.owner && a.id == b.id
            &&& a.name == b.name && a.description == b.description && a.license == b.license
            &&& a.asset_type == b.asset_type && a.created_at == b.created_at
            &&& other != asset_id ==> post.asset(other) == m.asset(other)
            &&& post.licenses == m.licenses
        }),
{
}

/// Initialising records the admin and changes nothing else.
pub proof fn law_initialize_records_admin(m: MarketplaceModel, owner: Address)
    ensures
        m.initialize(owner).admin == Some(owner),
        m.initialize(owner).asset_count == m.asset_count,
        m.initialize(owner).assets == m.assets,
        m.initialize(owner).licenses == m.licenses,
        m.initialize(owner).actions == m.actions,
{
}

} // verus!
