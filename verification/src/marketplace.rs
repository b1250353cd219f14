use std::collections::HashMap;
use vstd::prelude::*;

use crate::ledger::{Address, Party, Transfer};

verus! {

broadcast use vstd::std_specs::hash::group_hash_axioms;

/// Governance limit on the number of assets one marketplace instance lists.
pub const MAX_ASSETS: u64 = 10_000;

/// Number of calls granted by a usage-based license.
pub const USAGE_CALL_BUNDLE: u64 = 100;

/// Categories of intelligence assets that can be traded
#[derive(Clone, Copy, Debug, PartialEq, Eq, Structural)]
pub enum AssetType {
    Prompt,
    Workflow,
    ReasoningChain,
    Dataset,
    Evaluator,
    MemorySystem,
    ModelInstruction,
    Tool,
}

/// Licensing model for an intelligence asset
#[derive(Clone, Copy, Debug, PartialEq, Eq, Structural)]
pub enum LicenseType {
    /// One-time purchase, perpetual use
    Perpetual,
    /// Pay-per-call usage-based billing
    UsageBased,
    /// Time-bound subscription
    Subscription,
    /// Attribution required; derivative works allowed
    OpenSource,
}

/// Core intelligence asset record held by the marketplace
#[derive(Clone, Debug)]
pub struct IntelligenceAsset {
    pub id: u64,
    pub owner: Address,
    pub name: String,
    pub description: String,
    pub asset_type: AssetType,
    pub license: LicenseType,
    /// Price in stroops (1 XLM = 10_000_000 stroops)
    pub price: i128,
    pub usage_count: u64,
    pub is_active: bool,
    pub created_at: u64,
}

/// A purchase record / license grant
#[derive(Clone, Debug)]
pub struct License {
    pub asset_id: u64,
    pub buyer: Address,
    pub license_type: LicenseType,
    pub purchased_at: u64,
    pub calls_remaining: u64,
}

/// Why the marketplace refuses a call.
#[derive(Clone, Copy, Debug, PartialEq, Eq, Structural)]
pub enum MarketError {
    /// No asset is listed under the given id.
    AssetNotFound,
    /// The caller does not own the asset ("not the asset owner").
    NotAssetOwner,
    /// The asset has been delisted ("asset is not active").
    AssetInactive,
    /// The buyer owns the asset ("cannot buy own asset").
    CannotBuyOwnAsset,
    /// The marketplace already holds `MAX_ASSETS` listings.
    AssetLimitReached,
    /// The asset's usage counter is at its maximum.
    UsageCountOverflow,
}

/// Events the marketplace publishes.
#[derive(Clone, Debug)]
pub enum MarketEvent {
    /// Topic `LISTED` with the owner; data: the new asset id.
    Listed { owner: Address, asset_id: u64 },
    /// Topic `DELISTED` with the owner; data: the asset id.
    Delisted { owner: Address, asset_id: u64 },
    /// Topic `PURCHASED` with the buyer; data: the asset id and the price paid.
    Purchased { buyer: Address, asset_id: u64, price: i128 },
}

/// Work that a marketplace call leaves for the host, in the order it is due.
#[derive(Clone, Debug)]
pub enum MarketAction {
    Pay(Transfer),
    Emit(MarketEvent),
}

/// The abstract state of a marketplace instance.
#[verifier::ext_equal]
pub struct MarketplaceModel {
    /// The administrator recorded by `initialize`.
    pub admin: Option<Address>,
    /// The last asset id handed out.
    pub asset_count: u64,
    /// Assets by id.
    pub assets: Map<u64, IntelligenceAsset>,
    /// Licenses by (buyer strkey, asset id).
    pub licenses: Map<(Seq<char>, u64), License>,
    /// Transfers and events not yet handed to the host.
    pub actions: Seq<MarketAction>,
}

/// The asset record that `list_asset` creates.
pub open spec fn new_asset(
    id: u64,
    owner: Address,
    name: String,
    description: String,
    asset_type: AssetType,
    license: LicenseType,
    price: i128,
    now: u64,
) -> IntelligenceAsset {
    IntelligenceAsset {
        id,
        owner,
        name,
        description,
        asset_type,
        license,
        price,
        usage_count: 0,
        is_active: true,
        created_at: now,
    }
}

/// Calls granted by a license of the given type: a bundle of
/// `USAGE_CALL_BUNDLE` for usage-based licenses, unlimited otherwise.
pub open spec fn calls_granted(license: LicenseType) -> u64 {
    match license {
        LicenseType::UsageBased => USAGE_CALL_BUNDLE,
        _ => u64::MAX,
    }
}

/// The key under which the license of `buyer` for `asset_id` is kept.
pub open spec fn license_key(buyer: Address, asset_id: u64) -> (Seq<char>, u64) {
    (buyer@, asset_id)
}

impl MarketplaceModel {
    /// Every asset is kept under its own id, every license under its buyer
    /// and asset id.
    pub open spec fn wf(self) -> bool {
        &&& forall|id: u64| #[trigger] self.assets.contains_key(id) ==> self.assets[id].id == id
        &&& forall|k: (Seq<char>, u64)|
            #[trigger] self.licenses.contains_key(k) ==> license_key(self.licenses[k].buyer, self.licenses[k].asset_id) == k
    }

    /// The state every sequence of calls from a fresh marketplace keeps: the
    /// assets are exactly those numbered 1 to `asset_count`, which stays
    /// within the governance limit, and every record sits under its key.
    pub open spec fn sound(self) -> bool {
        &&& self.wf()
        &&& self.asset_count <= MAX_ASSETS
        &&& forall|id: u64| #[trigger] self.assets.contains_key(id) <==> 1 <= id <= self.asset_count
    }

    /// The asset listed under `asset_id`, if any.
    pub open spec fn asset(self, asset_id: u64) -> Option<IntelligenceAsset> {
        if self.assets.contains_key(asset_id) {
            Some(self.assets[asset_id])
        } else {
            None
        }
    }

    /// The license `buyer` holds for `asset_id`, if any.
    pub open spec fn license(self, buyer: Address, asset_id: u64) -> Option<License> {
        if self.licenses.contains_key(license_key(buyer, asset_id)) {
            Some(self.licenses[license_key(buyer, asset_id)])
        } else {
            None
        }
    }

    /// The state after `initialize(owner)`: `owner` becomes the admin; the
    /// asset counter and the assets are kept, so ids are never reused.
    pub open spec fn initialize(self, owner: Address) -> MarketplaceModel {
        MarketplaceModel { admin: Some(owner), ..self }
    }

    /// The outcome of `list_asset`: the next state and the new asset id.
    pub open spec fn list_asset(
        self,
        owner: Address,
        name: String,
        description: String,
        asset_type: AssetType,
        license: LicenseType,
        price: i128,
        now: u64,
    ) -> Result<(MarketplaceModel, u64), MarketError> {
        if self.asset_count >= MAX_ASSETS {
            Err(MarketError::AssetLimitReached)
        } else {
            let id = (self.asset_count + 1) as u64;
            Ok(
                (
                    MarketplaceModel {
                        asset_count: id,
                        assets: self.assets.insert(
                            id,
                            new_asset(id, owner, name, description, asset_type, license, price, now),
                        ),
                        actions: self.actions.push(
                            MarketAction::Emit(MarketEvent::Listed { owner, asset_id: id }),
                        ),
                        ..self
                    },
                    id,
                ),
            )
        }
    }

    /// Why `owner` may not change asset `asset_id`, if it may not.
    pub open spec fn owner_refusal(self, owner: Address, asset_id: u64) -> Option<MarketError> {
        if !self.assets.contains_key(asset_id) {
            Some(MarketError::AssetNotFound)
        } else if self.assets[asset_id].owner@ != owner@ {
            Some(MarketError::NotAssetOwner)
        } else {
            None
        }
    }

    /// The outcome of `delist_asset`.
    pub open spec fn delist_asset(self, owner: Address, asset_id: u64) -> Result<
        MarketplaceModel,
        MarketError,
    > {
        match self.owner_refusal(owner, asset_id) {
            Some(e) => Err(e),
            None => Ok(
                MarketplaceModel {
                    assets: self.assets.insert(
                        asset_id,
                        IntelligenceAsset { is_active: false, ..self.assets[asset_id] },
                    ),
                    actions: self.actions.push(
                        MarketAction::Emit(MarketEvent::Delisted { owner, asset_id }),
                    ),
                    ..self
                },
            ),
        }
    }

    /// The outcome of `update_price`.
    pub open spec fn update_price(self, owner: Address, asset_id: u64, new_price: i128) -> Result<
        MarketplaceModel,
        MarketError,
    > {
        match self.owner_refusal(owner, asset_id) {
            Some(e) => Err(e),
            None => if !self.assets[asset_id].is_active {
                Err(MarketError::AssetInactive)
            } else {
                Ok(
                    MarketplaceModel {
                        assets: self.assets.insert(
                            asset_id,
                            IntelligenceAsset { price: new_price, ..self.assets[asset_id] },
                        ),
                        ..self
                    },
                )
            },
        }
    }

    /// Why `buyer` may not buy a license for `asset_id`, if it may not.
    pub open spec fn purchase_refusal(self, buyer: Address, asset_id: u64) -> Option<MarketError> {
        if !self.assets.contains_key(asset_id) {
            Some(MarketError::AssetNotFound)
        } else if !self.assets[asset_id].is_active {
            Some(MarketError::AssetInactive)
        } else if buyer@ == self.assets[asset_id].owner@ {
            Some(MarketError::CannotBuyOwnAsset)
        } else if self.assets[asset_id].usage_count == u64::MAX {
            Some(MarketError::UsageCountOverflow)
        } else {
            None
        }
    }

    /// The outcome of `purchase_license`: the next state and the license granted.
    pub open spec fn purchase_license(self, buyer: Address, asset_id: u64, token: Address, now: u64) -> Result<
        (MarketplaceModel, License),
        MarketError,
    > {
        match self.purchase_refusal(buyer, asset_id) {
            Some(e) => Err(e),
            None => {
                let asset = self.assets[asset_id];
                let license = License {
                    asset_id,
                    buyer,
                    license_type: asset.license,
                    purchased_at: now,
                    calls_remaining: calls_granted(asset.license),
                };
                let payment = Transfer {
                    token,
                    from: Party::Account(buyer),
                    to: Party::Account(asset.owner),
                    amount: asset.price,
                };
                Ok(
                    (
                        MarketplaceModel {
                            assets: self.assets.insert(
                                asset_id,
                                IntelligenceAsset {
                                    usage_count: (asset.usage_count + 1) as u64,
                                    ..asset
                                },
                            ),
                            licenses: self.licenses.insert(license_key(buyer, asset_id), license),
                            actions: self.actions.push(MarketAction::Pay(payment)).push(
                                MarketAction::Emit(
                                    MarketEvent::Purchased { buyer, asset_id, price: asset.price },
                                ),
                            ),
                            ..self
                        },
                        license,
                    ),
                )
            },
        }
    }
}


/// The licenses that a sequence of grants leaves: a later grant for the same
/// buyer and asset replaces an earlier one.
pub open spec fn licenses_granted(grants: Seq<License>) -> Map<(Seq<char>, u64), License>
    decreases grants.len(),
{
    if grants.len() == 0 {
        Map::empty()
    } else {
        let last = grants.last();
        licenses_granted(grants.drop_last()).insert(license_key(last.buyer, last.asset_id), last)
    }
}

/// The assets that a sequence of records leaves, each under its own id: a
/// later record with the same id replaces an earlier one.
pub open spec fn assets_recorded(records: Seq<IntelligenceAsset>) -> Map<u64, IntelligenceAsset>
    decreases records.len(),
{
    if records.len() == 0 {
        Map::empty()
    } else {
        assets_recorded(records.drop_last()).insert(records.last().id, records.last())
    }
}

proof fn lemma_grants_keyed(grants: Seq<License>)
    ensures
        forall|k: (Seq<char>, u64)|
            #[trigger] licenses_granted(grants).contains_key(k) ==> license_key(
                licenses_granted(grants)[k].buyer,
                licenses_granted(grants)[k].asset_id,
            ) == k,
    decreases grants.len(),
{
    if grants.len() > 0 {
        lemma_grants_keyed(grants.drop_last());
    }
}

proof fn lemma_records_keyed(records: Seq<IntelligenceAsset>)
    ensures
        forall|id: u64| #[trigger]
            assets_recorded(records).contains_key(id) ==> assets_recorded(records)[id].id == id,
    decreases records.len(),
{
    if records.len() > 0 {
        lemma_records_keyed(records.drop_last());
    }
}

proof fn lemma_latest_grant(grants: Seq<License>, i: int)
    requires
        0 <= i < grants.len(),
        forall|j: int|
            i < j < grants.len() ==> license_key(grants[j].buyer, grants[j].asset_id)
                != license_key(grants[i].buyer, grants[i].asset_id),
    ensures
        licenses_granted(grants).contains_key(license_key(grants[i].buyer, grants[i].asset_id)),
        licenses_granted(grants)[license_key(grants[i].buyer, grants[i].asset_id)] == grants[i],
    decreases grants.len(),
{
    if i < grants.len() - 1 {
        let rest = grants.drop_last();
        assert forall|j: int| i < j < rest.len() implies license_key(rest[j].buyer, rest[j].asset_id)
            != license_key(rest[i].buyer, rest[i].asset_id) by {
            assert(rest[j] == grants[j]);
        }
        lemma_latest_grant(rest, i);
        assert(grants.last() == grants[grants.len() - 1]);
    }
}

proof fn lemma_no_grant(grants: Seq<License>, key: (Seq<char>, u64))
    requires
        forall|j: int| 0 <= j < grants.len() ==> license_key(grants[j].buyer, grants[j].asset_id) != key,
    ensures
        !licenses_granted(grants).contains_key(key),
    decreases grants.len(),
{
    if grants.len() > 0 {
        let rest = grants.drop_last();
        assert forall|j: int| 0 <= j < rest.len() implies license_key(rest[j].buyer, rest[j].asset_id)
            != key by {
            assert(rest[j] == grants[j]);
        }
        lemma_no_grant(rest, key);
        assert(grants.last() == grants[grants.len() - 1]);
    }
}

/// Calls that a freshly bought license of the given type grants.
pub fn initial_calls(license: LicenseType) -> (calls: u64)
    ensures
        calls == calls_granted(license),
{
    match license {
        LicenseType::UsageBased => USAGE_CALL_BUNDLE,
        _ => u64::MAX,
    }
}

impl IntelligenceAsset {
    /// An exact copy of this record.
    pub fn duplicate(&self) -> (r: IntelligenceAsset)
        ensures
            r == *self,
    {
        IntelligenceAsset {
            id: self.id,
            owner: self.owner.duplicate(),
            name: self.name.clone(),
            description: self.description.clone(),
            asset_type: self.asset_type,
            license: self.license,
            price: self.price,
            usage_count: self.usage_count,
            is_active: self.is_active,
            created_at: self.created_at,
        }
    }
}

impl License {
    /// An exact copy of this record.
    pub fn duplicate(&self) -> (r: License)
        ensures
            r == *self,
    {
        License {
            asset_id: self.asset_id,
            buyer: self.buyer.duplicate(),
            license_type: self.license_type,
            purchased_at: self.purchased_at,
            calls_remaining: self.calls_remaining,
        }
    }
}

/// A marketplace instance: its stored state and the work queued for the host.
pub struct MarketplaceContract {
    admin: Option<Address>,
    asset_count: u64,
    assets: HashMap<u64, IntelligenceAsset>,
    licenses: Vec<License>,
    actions: Vec<MarketAction>,
}

impl View for MarketplaceContract {
    type V = MarketplaceModel;

    closed spec fn view(&self) -> MarketplaceModel {
        MarketplaceModel {
            admin: self.admin,
            asset_count: self.asset_count,
            assets: self.assets@,
            licenses: licenses_granted(self.licenses@),
            actions: self.actions@,
        }
    }
}

impl MarketplaceContract {
    /// A marketplace that nothing has been done to yet.
    pub fn new() -> (m: MarketplaceContract)
        ensures
            m@ == (MarketplaceModel {
                admin: None,
                asset_count: 0,
                assets: Map::empty(),
                licenses: Map::empty(),
                actions: Seq::empty(),
            }),
            m@.wf(),
            m@.sound(),
    {
        MarketplaceContract {
            admin: None,
            asset_count: 0,
            assets: HashMap::new(),
            licenses: Vec::new(),
            actions: Vec::new(),
        }
    }

    /// Rebuilds a marketplace from its stored parts: the administrator, the
    /// asset counter, the asset records and the license grants (later entries
    /// replace earlier ones with the same key). Nothing is queued.
    pub fn restore(
        admin: Option<Address>,
        asset_count: u64,
        records: Vec<IntelligenceAsset>,
        grants: Vec<License>,
    ) -> (m: MarketplaceContract)
        ensures
            m@ == (MarketplaceModel {
                admin,
                asset_count,
                assets: assets_recorded(records@),
                licenses: licenses_granted(grants@),
                actions: Seq::empty(),
            }),
            m@.wf(),
    {
        let mut assets: HashMap<u64, IntelligenceAsset> = HashMap::new();
        let mut i: usize = 0;
        while i < records.len()
            invariant
                i <= records.len(),
                assets@ == assets_recorded(records@.subrange(0, i as int)),
            decreases records.len() - i,
        {
            let record = records[i].duplicate();
            assets.insert(record.id, record);
            proof {
                assert(records@.subrange(0, i + 1).drop_last() =~= records@.subrange(0, i as int));
            }
            i = i + 1;
        }
        assert(records@.subrange(0, records.len() as int) =~= records@);
        proof {
            lemma_records_keyed(records@);
            lemma_grants_keyed(grants@);
        }
        MarketplaceContract { admin, asset_count, assets, licenses: grants, actions: Vec::new() }
    }

    /// Index of the latest grant to `buyer` for `asset_id`.
    fn find_license(&self, buyer: &Address, asset_id: u64) -> (found: Option<usize>)
        ensures
            match found {
                Some(i) => {
                    &&& i < self.licenses@.len()
                    &&& license_key(self.licenses@[i as int].buyer, self.licenses@[i as int].asset_id)
                        == license_key(*buyer, asset_id)
                    &&& forall|j: int|
                        i < j < self.licenses@.len() ==> license_key(
                            self.licenses@[j].buyer,
                            self.licenses@[j].asset_id,
                        ) != license_key(*buyer, asset_id)
                },
                None => forall|j: int|
                    0 <= j < self.licenses@.len() ==> license_key(
                        self.licenses@[j].buyer,
                        self.licenses@[j].asset_id,
                    ) != license_key(*buyer, asset_id),
            },
    {
        let mut i: usize = self.licenses.len();
        while i > 0
            invariant
                i <= self.licenses@.len(),
                forall|j: int|
                    i <= j < self.licenses@.len() ==> license_key(
                        self.licenses@[j].buyer,
                        self.licenses@[j].asset_id,
                    ) != license_key(*buyer, asset_id),
            decreases i,
        {
            i = i - 1;
            if self.licenses[i].asset_id == asset_id && self.licenses[i].buyer.matches(buyer) {
                return Some(i);
            }
        }
        None
    }

    /// Initialise the marketplace; `owner` becomes the admin. Assets listed
    /// before keep their ids, and the counter goes on from where it was.
    pub fn initialize(&mut self, owner: Address)
        requires
            old(self)@.wf(),
        ensures
            final(self)@ == old(self)@.initialize(owner),
            final(self)@.wf(),
    {
        self.admin = Some(owner);
    }

    /// List a new intelligence asset on the marketplace; returns its id.
    pub fn list_asset(
        &mut self,
        owner: Address,
        name: String,
        description: String,
        asset_type: AssetType,
        license: LicenseType,
        price: i128,
        now: u64,
    ) -> (r: Result<u64, MarketError>)
        requires
            old(self)@.wf(),
        ensures
            final(self)@.wf(),
            match r {
                Ok(id) => old(self)@.list_asset(
                    owner,
                    name,
                    description,
                    asset_type,
                    license,
                    price,
                    now,
                ) == Ok::<(MarketplaceModel, u64), MarketError>((final(self)@, id)),
                Err(e) => {
                    &&& old(self)@.list_asset(owner, name, description, asset_type, license, price, now)
                        == Err::<(MarketplaceModel, u64), MarketError>(e)
                    &&& final(self)@ == old(self)@
                },
            },
    {
        if self.asset_count >= MAX_ASSETS {
            return Err(MarketError::AssetLimitReached);
        }
        let asset_id: u64 = self.asset_count + 1;
        let event_owner = owner.duplicate();
        let asset = IntelligenceAsset {
            id: asset_id,
            owner,
            name,
            description,
            asset_type,
            license,
            price,
            usage_count: 0,
            is_active: true,
            created_at: now,
        };
        self.assets.insert(asset_id, asset);
        self.asset_count = asset_id;
        self.actions.push(MarketAction::Emit(MarketEvent::Listed { owner: event_owner, asset_id }));
        Ok(asset_id)
    }

    /// Delist / deactivate an asset. Only the owner can do this.
    pub fn delist_asset(&mut self, owner: Address, asset_id: u64) -> (r: Result<(), MarketError>)
        requires
            old(self)@.wf(),
        ensures
            final(self)@.wf(),
            match r {
                Ok(()) => old(self)@.delist_asset(owner, asset_id) == Ok::<MarketplaceModel, MarketError>(
                    final(self)@,
                ),
                Err(e) => {
                    &&& old(self)@.delist_asset(owner, asset_id) == Err::<MarketplaceModel, MarketError>(e)
                    &&& final(self)@ == old(self)@
                },
            },
    {
        let mut asset = match self.assets.get(&asset_id) {
            Some(a) => a.duplicate(),
            None => return Err(MarketError::AssetNotFound),
        };
        if !asset.owner.matches(&owner) {
            return Err(MarketError::NotAssetOwner);
        }
        asset.is_active = false;
        self.assets.insert(asset_id, asset);
        self.actions.push(MarketAction::Emit(MarketEvent::Delisted { owner, asset_id }));
        Ok(())
    }

    /// Update the price of a listed asset. Only the owner can do this, and
    /// only while the asset is active.
    pub fn update_price(&mut self, owner: Address, asset_id: u64, new_price: i128) -> (r: Result<
        (),
        MarketError,
    >)
        requires
            old(self)@.wf(),
        ensures
            final(self)@.wf(),
            match r {
                Ok(()) => old(self)@.update_price(owner, asset_id, new_price) == Ok::<
                    MarketplaceModel,
                    MarketError,
                >(final(self)@),
                Err(e) => {
                    &&& old(self)@.update_price(owner, asset_id, new_price) == Err::<
                        MarketplaceModel,
                        MarketError,
                    >(e)
                    &&& final(self)@ == old(self)@
                },
            },
    {
        let mut asset = match self.assets.get(&asset_id) {
            Some(a) => a.duplicate(),
            None => return Err(MarketError::AssetNotFound),
        };
        if !asset.owner.matches(&owner) {
            return Err(MarketError::NotAssetOwner);
        }
        if !asset.is_active {
            return Err(MarketError::AssetInactive);
        }
        asset.price = new_price;
        self.assets.insert(asset_id, asset);
        Ok(())
    }

    /// Purchase a license for an intelligence asset. The buyer pays the
    /// asset's price in `token` to the asset's owner.
    pub fn purchase_license(&mut self, buyer: Address, asset_id: u64, token: Address, now: u64) -> (r:
        Result<License, MarketError>)
        requires
            old(self)@.wf(),
        ensures
            final(self)@.wf(),
            match r {
                Ok(license) => old(self)@.purchase_license(buyer, asset_id, token, now) == Ok::<
                    (MarketplaceModel, License),
                    MarketError,
                >((final(self)@, license)),
                Err(e) => {
                    &&& old(self)@.purchase_license(buyer, asset_id, token, now) == Err::<
                        (MarketplaceModel, License),
                        MarketError,
                    >(e)
                    &&& final(self)@ == old(self)@
                },
            },
    {
        let mut asset = match self.assets.get(&asset_id) {
            Some(a) => a.duplicate(),
            None => return Err(MarketError::AssetNotFound),
        };
        if !asset.is_active {
            return Err(MarketError::AssetInactive);
        }
        if buyer.matches(&asset.owner) {
            return Err(MarketError::CannotBuyOwnAsset);
        }
        if asset.usage_count == u64::MAX {
            return Err(MarketError::UsageCountOverflow);
        }
        let license = License {
            asset_id,
            buyer: buyer.duplicate(),
            license_type: asset.license,
            purchased_at: now,
            calls_remaining: initial_calls(asset.license),
        };
        let payment = Transfer {
            token,
            from: Party::Account(buyer.duplicate()),
            to: Party::Account(asset.owner.duplicate()),
            amount: asset.price,
        };
        let ghost old_grants = self.licenses@;
        self.licenses.push(license.duplicate());
        proof {
            assert(self.licenses@.drop_last() =~= old_grants);
            lemma_grants_keyed(self.licenses@);
        }
        let price: i128 = asset.price;
        asset.usage_count = asset.usage_count + 1;
        self.assets.insert(asset_id, asset);
        self.actions.push(MarketAction::Pay(payment));
        self.actions.push(MarketAction::Emit(MarketEvent::Purchased { buyer, asset_id, price }));
        Ok(license)
    }

    /// Retrieve an asset by ID.
    pub fn get_asset(&self, asset_id: u64) -> (r: Option<IntelligenceAsset>)
        ensures
            r == self@.asset(asset_id),
    {
        match self.assets.get(&asset_id) {
            Some(a) => Some(a.duplicate()),
            None => None,
        }
    }

    /// Total number of assets ever listed.
    pub fn asset_count(&self) -> (n: u64)
        ensures
            n == self@.asset_count,
    {
        self.asset_count
    }

    /// The administrator recorded by `initialize`, if any.
    pub fn admin(&self) -> (a: Option<Address>)
        ensures
            a == self@.admin,
    {
        match &self.admin {
            Some(a) => Some(a.duplicate()),
            None => None,
        }
    }

    /// Check whether a buyer holds a valid license for an asset.
    pub fn has_license(&self, buyer: Address, asset_id: u64) -> (held: bool)
        ensures
            held == self@.license(buyer, asset_id) is Some,
    {
        let found = self.find_license(&buyer, asset_id);
        proof {
            match found {
                Some(i) => lemma_latest_grant(self.licenses@, i as int),
                None => lemma_no_grant(self.licenses@, license_key(buyer, asset_id)),
            }
        }
        found.is_some()
    }

    /// Get a buyer's license details.
    pub fn get_license(&self, buyer: Address, asset_id: u64) -> (r: Option<License>)
        ensures
            r == self@.license(buyer, asset_id),
    {
        match self.find_license(&buyer, asset_id) {
            Some(i) => {
                proof {
                    lemma_latest_grant(self.licenses@, i as int);
                }
                Some(self.licenses[i].duplicate())
            },
            None => {
                proof {
                    lemma_no_grant(self.licenses@, license_key(buyer, asset_id));
                }
                None
            },
        }
    }

    /// Hands over the transfers and events queued so far, oldest first, and
    /// clears the queue.
    pub fn take_actions(&mut self) -> (queued: Vec<MarketAction>)
        requires
            old(self)@.wf(),
        ensures
            queued@ == old(self)@.actions,
            final(self)@ == (MarketplaceModel { actions: Seq::empty(), ..old(self)@ }),
            final(self)@.wf(),
    {
        let mut queued = Vec::new();
        std::mem::swap(&mut queued, &mut self.actions);
        queued
    }
}

} // verus!
