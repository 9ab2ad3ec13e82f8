use crate::address::Address;
use crate::error::MarketplaceError;
use crate::fees::split_spec;
use crate::instructions::initialize::{check_name, name_is_valid, Initialize};
use crate::instructions::list::{collection_spec, List, ListBumps};
use crate::instructions::purchase::Purchase;
use crate::laws::{
    law_listing_keeps_custody, law_other_records_keep_custody, law_purchase_keeps_custody,
    law_registration_keeps_custody, law_transfers_keep_custody,
};
use crate::keys::{
    listing_check, listing_check_spec, listing_key, listing_key_spec, marketplace_check,
    marketplace_check_spec, marketplace_keys, marketplace_keys_spec, treasury_check,
    treasury_check_spec, ListingKeys, MarketplaceKeys, PurchaseKeys,
};
use crate::seeds::{listing_seeds_spec, with_bump_spec};
use crate::state::{
    AssetTransfer, AssetTransferView, CollectionRecord, HoldingId, Listing, Marketplace, Payment,
    Record, RewardsIssuer,
};
use crate::table::Table;
use crate::transfer::{amount_at, amount_of, credit, credited, moved, transfer, TransferError};
use vstd::prelude::*;

verus! {

/// The records of the marketplaces of one program, the currency that each
/// address holds, and the units of each asset that each owner holds.
pub struct Ledger {
    program: Address,
    marketplaces: Table<Address, Marketplace>,
    issuers: Table<Address, RewardsIssuer>,
    listings: Table<Address, Listing>,
    collections: Table<Address, CollectionRecord>,
    balances: Table<Address, u64>,
    holdings: Table<HoldingId, u64>,
}

/// A ledger as a value.
#[verifier::ext_equal]
pub struct LedgerView {
    /// The program under which every address is derived.
    pub program: Address,
    /// The marketplace records, by address.
    pub marketplaces: Map<Address, Marketplace>,
    /// The rewards issuers, by address.
    pub issuers: Map<Address, RewardsIssuer>,
    /// The listings on offer, by address.
    pub listings: Map<Address, Listing>,
    /// What each asset's metadata says of its collection, by asset.
    pub collections: Map<Address, CollectionRecord>,
    /// The currency held, by address.
    pub balances: Map<Address, u64>,
    /// The units held, by owner and asset. The vault of a listing is the
    /// holding that the listing's address owns.
    pub holdings: Map<HoldingId, u64>,
}

impl View for Ledger {
    type V = LedgerView;

    closed spec fn view(&self) -> LedgerView {
        LedgerView {
            program: self.program,
            marketplaces: self.marketplaces@,
            issuers: self.issuers@,
            listings: self.listings@,
            collections: self.collections@,
            balances: self.balances@,
            holdings: self.holdings@,
        }
    }
}

/// The balances after a payment: refused where the payer holds too little or
/// the payee would hold more than 64 bits can count.
pub open spec fn paid(balances: Map<Address, u64>, payment: Payment) -> Result<
    Map<Address, u64>,
    MarketplaceError,
> {
    match moved(balances, payment.from, payment.to, payment.amount) {
        Ok(after) => Ok(after),
        Err(TransferError::Shortfall) => Err(MarketplaceError::InsufficientFunds),
        Err(TransferError::Overflow) => Err(MarketplaceError::ArithmeticOverflow),
    }
}

/// The holdings after units of an asset have moved as ordered: refused where
/// the source holds too few units or the destination would hold more than 64
/// bits can count.
pub open spec fn units_moved(holdings: Map<HoldingId, u64>, order: AssetTransferView) -> Result<
    Map<HoldingId, u64>,
    MarketplaceError,
> {
    match moved(
        holdings,
        HoldingId { owner: order.from, asset: order.asset },
        HoldingId { owner: order.to, asset: order.asset },
        order.amount,
    ) {
        Ok(after) => Ok(after),
        Err(TransferError::Shortfall) => Err(MarketplaceError::InsufficientAssetBalance),
        Err(TransferError::Overflow) => Err(MarketplaceError::ArithmeticOverflow),
    }
}

/// The holdings after an actor has moved units of an asset: refused where
/// the authority is not the owner of the source, or where the owner of the
/// source is a standing listing, whose vault answers to the listing alone
/// and is opened only by a purchase; else as [`units_moved`].
pub open spec fn asset_moved(pre: LedgerView, order: AssetTransferView) -> Result<
    Map<HoldingId, u64>,
    MarketplaceError,
> {
    if order.authority != order.from || pre.listings.contains_key(order.from) {
        Err(MarketplaceError::Unauthorized)
    } else {
        units_moved(pre.holdings, order)
    }
}

/// Every standing listing has its asset in custody: the vault that the
/// listing owns holds at least one unit of the listed asset.
pub open spec fn in_custody(s: LedgerView) -> bool {
    forall|listing: Address| #[trigger]
        s.listings.contains_key(listing) ==> amount_at(
            s.holdings,
            HoldingId { owner: listing, asset: s.listings[listing].asset },
        ) >= 1
}

/// What the metadata of `asset` says of its collection, if anything.
pub open spec fn metadata_of(pre: LedgerView, asset: Address) -> Option<CollectionRecord> {
    if pre.collections.contains_key(asset) {
        Some(pre.collections[asset])
    } else {
        None
    }
}

/// The deposit that a listing starts with.
pub open spec fn deposit_order(maker: Address, asset: Address, listing: Address) -> AssetTransferView {
    AssetTransferView {
        asset,
        from: maker,
        to: listing,
        amount: 1,
        authority: maker,
        signer_seeds: Seq::<Seq<u8>>::empty(),
    }
}

/// The release that a purchase ends with.
pub open spec fn release_order(
    marketplace: Address,
    listing: Address,
    record: Listing,
    buyer: Address,
) -> AssetTransferView {
    AssetTransferView {
        asset: record.asset,
        from: listing,
        to: buyer,
        amount: 1,
        authority: listing,
        signer_seeds: with_bump_spec(listing_seeds_spec(marketplace, record.asset), record.bump),
    }
}

/// Registering a marketplace, given the addresses derived from its name:
/// the ledger afterwards and the marketplace's address, or why not.
pub open spec fn registered(
    pre: LedgerView,
    admin: Address,
    name: String,
    fee: u16,
    keys: Option<MarketplaceKeys>,
) -> Result<(LedgerView, Address), MarketplaceError> {
    if !name_is_valid(name@) {
        Err(MarketplaceError::NameInvalid)
    } else {
        match keys {
            None => Err(MarketplaceError::DerivationFailed),
            Some(keys) => if pre.marketplaces.contains_key(keys.marketplace)
                || pre.issuers.contains_key(keys.rewards) {
                Err(MarketplaceError::AddressCollision)
            } else if fee > 10_000 {
                Err(MarketplaceError::FeeInvalid)
            } else {
                Ok(
                    (
                        LedgerView {
                            marketplaces: pre.marketplaces.insert(
                                keys.marketplace,
                                Marketplace {
                                    admin,
                                    name,
                                    fee,
                                    bump: keys.bumps.marketplace,
                                    treasury_bump: keys.bumps.treasury,
                                    rewards_bump: keys.bumps.rewards_mint,
                                },
                            ),
                            issuers: pre.issuers.insert(
                                keys.rewards,
                                RewardsIssuer { decimals: 6, authority: keys.marketplace },
                            ),
                            ..pre
                        },
                        keys.marketplace,
                    ),
                )
            },
        }
    }
}

/// Listing an asset, given what was derived for it: the ledger afterwards
/// and the listing's address, or why not.
pub open spec fn listed(
    pre: LedgerView,
    maker: Address,
    marketplace: Address,
    asset: Address,
    price: u64,
    collection: Address,
    keys: ListingKeys,
) -> Result<(LedgerView, Address), MarketplaceError> {
    if !pre.marketplaces.contains_key(marketplace) {
        Err(MarketplaceError::MissingRecord)
    } else if keys.marketplace != Some(marketplace) {
        Err(MarketplaceError::DerivationMismatch)
    } else {
        match keys.listing {
            None => Err(MarketplaceError::DerivationFailed),
            Some((listing, bump)) => match collection_spec(metadata_of(pre, asset), collection) {
                Err(e) => Err(e),
                Ok(()) => if pre.listings.contains_key(listing) || pre.holdings.contains_key(
                    HoldingId { owner: listing, asset },
                ) {
                    Err(MarketplaceError::AddressCollision)
                } else if price == 0 {
                    Err(MarketplaceError::PriceInvalid)
                } else {
                    match asset_moved(pre, deposit_order(maker, asset, listing)) {
                        Err(e) => Err(e),
                        Ok(holdings) => Ok(
                            (
                                LedgerView {
                                    listings: pre.listings.insert(
                                        listing,
                                        Listing { maker, asset, price, bump },
                                    ),
                                    holdings,
                                    ..pre
                                },
                                listing,
                            ),
                        ),
                    }
                },
            },
        }
    }
}

/// Buying a listed asset, given what was recomputed for it: the ledger
/// afterwards, or why not.
pub open spec fn purchased(
    pre: LedgerView,
    buyer: Address,
    marketplace: Address,
    listing: Address,
    keys: PurchaseKeys,
) -> Result<LedgerView, MarketplaceError> {
    if !pre.listings.contains_key(listing) || !pre.marketplaces.contains_key(marketplace) {
        Err(MarketplaceError::MissingRecord)
    } else if keys.marketplace != Some(marketplace) || keys.listing != Some(listing)
        || keys.treasury is None {
        Err(MarketplaceError::DerivationMismatch)
    } else {
        let record = pre.listings[listing];
        let treasury = keys.treasury->Some_0;
        let vault = HoldingId { owner: listing, asset: record.asset };
        match split_spec(record.price, pre.marketplaces[marketplace].fee) {
            Err(e) => Err(e),
            Ok(split) => match paid(
                pre.balances,
                Payment { from: buyer, to: treasury, amount: split.fee },
            ) {
                Err(e) => Err(e),
                Ok(after_fee) => match paid(
                    after_fee,
                    Payment { from: buyer, to: record.maker, amount: split.proceeds },
                ) {
                    Err(e) => Err(e),
                    Ok(balances) => match units_moved(
                        pre.holdings,
                        release_order(marketplace, listing, record, buyer),
                    ) {
                        Err(e) => Err(e),
                        Ok(released) => if amount_at(released, vault) != 0 {
                            Err(MarketplaceError::VaultNotEmpty)
                        } else {
                            Ok(
                                LedgerView {
                                    listings: pre.listings.remove(listing),
                                    balances,
                                    holdings: released.remove(vault),
                                    ..pre
                                },
                            )
                        },
                    },
                },
            },
        }
    }
}

/// What is derived for a new listing of `asset` on `marketplace`.
pub open spec fn listing_keys_spec(pre: LedgerView, marketplace: Address, asset: Address) -> ListingKeys {
    ListingKeys {
        marketplace: if pre.marketplaces.contains_key(marketplace) {
            marketplace_check_spec(pre.marketplaces[marketplace], pre.program)
        } else {
            None
        },
        listing: listing_key_spec(marketplace, asset, pre.program),
    }
}

/// What is recomputed for a purchase of `listing` on `marketplace`.
pub open spec fn purchase_keys_spec(pre: LedgerView, marketplace: Address, listing: Address) -> PurchaseKeys {
    PurchaseKeys {
        marketplace: if pre.marketplaces.contains_key(marketplace) {
            marketplace_check_spec(pre.marketplaces[marketplace], pre.program)
        } else {
            None
        },
        treasury: if pre.marketplaces.contains_key(marketplace) {
            treasury_check_spec(marketplace, pre.marketplaces[marketplace], pre.program)
        } else {
            None
        },
        listing: if pre.listings.contains_key(listing) {
            listing_check_spec(marketplace, pre.listings[listing], pre.program)
        } else {
            None
        },
    }
}

/// Registering a marketplace under `name`.
pub open spec fn register_spec(pre: LedgerView, admin: Address, name: String, fee: u16) -> Result<
    (LedgerView, Address),
    MarketplaceError,
> {
    registered(pre, admin, name, fee, marketplace_keys_spec(name@, pre.program))
}

/// Listing `asset` on `marketplace`.
pub open spec fn list_spec(
    pre: LedgerView,
    maker: Address,
    marketplace: Address,
    asset: Address,
    price: u64,
    collection: Address,
) -> Result<(LedgerView, Address), MarketplaceError> {
    listed(pre, maker, marketplace, asset, price, collection, listing_keys_spec(pre, marketplace, asset))
}

/// Buying `listing` on `marketplace`.
pub open spec fn purchase_spec(
    pre: LedgerView,
    buyer: Address,
    marketplace: Address,
    listing: Address,
) -> Result<LedgerView, MarketplaceError> {
    purchased(pre, buyer, marketplace, listing, purchase_keys_spec(pre, marketplace, listing))
}

fn pay_in(balances: &mut Table<Address, u64>, payment: &Payment) -> (r: Result<
    (),
    MarketplaceError,
>)
    ensures
        match paid(old(balances)@, *payment) {
            Ok(after) => r is Ok && final(balances)@ == after,
            Err(e) => r == Err::<(), MarketplaceError>(e) && final(balances)@ == old(balances)@,
        },
{
    match transfer(balances, &payment.from, &payment.to, payment.amount) {
        Ok(()) => Ok(()),
        Err(TransferError::Shortfall) => Err(MarketplaceError::InsufficientFunds),
        Err(TransferError::Overflow) => Err(MarketplaceError::ArithmeticOverflow),
    }
}

fn move_in(holdings: &mut Table<HoldingId, u64>, order: &AssetTransfer) -> (r: Result<
    (),
    MarketplaceError,
>)
    ensures
        match units_moved(old(holdings)@, order@) {
            Ok(after) => r is Ok && final(holdings)@ == after,
            Err(e) => r == Err::<(), MarketplaceError>(e) && final(holdings)@ == old(holdings)@,
        },
{
    let from = HoldingId { owner: order.from, asset: order.asset };
    let to = HoldingId { owner: order.to, asset: order.asset };
    match transfer(holdings, &from, &to, order.amount) {
        Ok(()) => Ok(()),
        Err(TransferError::Shortfall) => Err(MarketplaceError::InsufficientAssetBalance),
        Err(TransferError::Overflow) => Err(MarketplaceError::ArithmeticOverflow),
    }
}

impl Ledger {
    /// A ledger without records, for the marketplaces of `program`.
    pub fn new(program: Address) -> (ledger: Self)
        ensures
            ledger@ == (LedgerView {
                program,
                marketplaces: Map::empty(),
                issuers: Map::empty(),
                listings: Map::empty(),
                collections: Map::empty(),
                balances: Map::empty(),
                holdings: Map::empty(),
            }),
            in_custody(ledger@),
    {
        Ledger {
            program,
            marketplaces: Table::new(),
            issuers: Table::new(),
            listings: Table::new(),
            collections: Table::new(),
            balances: Table::new(),
            holdings: Table::new(),
        }
    }

    /// The program under which the ledger derives addresses.
    pub fn program(&self) -> (program: Address)
        ensures
            program == self@.program,
    {
        self.program
    }

    /// The marketplace record at `key`, if there is one.
    pub fn marketplace(&self, key: &Address) -> (r: Option<&Marketplace>)
        ensures
            match r {
                Some(record) => self@.marketplaces.contains_key(*key) && *record
                    == self@.marketplaces[*key],
                None => !self@.marketplaces.contains_key(*key),
            },
    {
        self.marketplaces.get(key)
    }

    /// The rewards issuer at `key`, if there is one.
    pub fn rewards_issuer(&self, key: &Address) -> (r: Option<RewardsIssuer>)
        ensures
            match r {
                Some(record) => self@.issuers.contains_key(*key) && record == self@.issuers[*key],
                None => !self@.issuers.contains_key(*key),
            },
    {
        match self.issuers.get(key) {
            Some(record) => Some(*record),
            None => None,
        }
    }

    /// The listing at `key`, if there is one.
    pub fn listing(&self, key: &Address) -> (r: Option<Listing>)
        ensures
            match r {
                Some(record) => self@.listings.contains_key(*key) && record == self@.listings[*key],
                None => !self@.listings.contains_key(*key),
            },
    {
        match self.listings.get(key) {
            Some(record) => Some(*record),
            None => None,
        }
    }

    /// What the metadata of `asset` says of its collection, if anything.
    pub fn metadata(&self, asset: &Address) -> (r: Option<CollectionRecord>)
        ensures
            r == metadata_of(self@, *asset),
    {
        match self.collections.get(asset) {
            Some(record) => Some(*record),
            None => None,
        }
    }

    /// The currency that `holder` holds.
    pub fn balance(&self, holder: &Address) -> (amount: u64)
        ensures
            amount == amount_at(self@.balances, *holder),
    {
        amount_of(&self.balances, holder)
    }

    /// The units of `asset` that `owner` holds.
    pub fn units(&self, owner: &Address, asset: &Address) -> (amount: u64)
        ensures
            amount == amount_at(self@.holdings, HoldingId { owner: *owner, asset: *asset }),
    {
        amount_of(&self.holdings, &HoldingId { owner: *owner, asset: *asset })
    }

    /// Whether `owner` has a holding of `asset`, be it empty.
    pub fn has_holding(&self, owner: &Address, asset: &Address) -> (r: bool)
        ensures
            r == self@.holdings.contains_key(HoldingId { owner: *owner, asset: *asset }),
    {
        self.holdings.contains(&HoldingId { owner: *owner, asset: *asset })
    }

    /// The metadata of `asset` comes to say `record` of its collection.
    pub fn certify(&mut self, asset: Address, record: CollectionRecord)
        ensures
            final(self)@ == (LedgerView {
                collections: old(self)@.collections.insert(asset, record),
                ..old(self)@
            }),
            in_custody(old(self)@) ==> in_custody(final(self)@),
    {
        self.collections.insert(asset, record);
        proof {
            if in_custody(old(self)@) {
                law_other_records_keep_custody(old(self)@, self@.balances, self@.collections);
            }
        }
    }

    /// Currency arrives at `to` from outside the marketplace.
    pub fn fund(&mut self, to: Address, amount: u64) -> (r: Result<(), MarketplaceError>)
        ensures
            match credited(old(self)@.balances, to, amount) {
                Ok(balances) => r is Ok && final(self)@ == (LedgerView { balances, ..old(self)@ }),
                Err(_) => r == Err::<(), MarketplaceError>(MarketplaceError::ArithmeticOverflow)
                    && final(self)@ == old(self)@,
            },
            in_custody(old(self)@) ==> in_custody(final(self)@),
    {
        let r = credit(&mut self.balances, &to, amount);
        proof {
            if in_custody(old(self)@) {
                law_other_records_keep_custody(old(self)@, self@.balances, self@.collections);
            }
        }
        match r {
            Ok(()) => Ok(()),
            Err(_) => Err(MarketplaceError::ArithmeticOverflow),
        }
    }

    /// The issuer of `asset` hands `amount` units of it to `owner`.
    pub fn issue(&mut self, owner: Address, asset: Address, amount: u64) -> (r: Result<
        (),
        MarketplaceError,
    >)
        ensures
            match credited(old(self)@.holdings, HoldingId { owner, asset }, amount) {
                Ok(holdings) => r is Ok && final(self)@ == (LedgerView { holdings, ..old(self)@ }),
                Err(_) => r == Err::<(), MarketplaceError>(MarketplaceError::ArithmeticOverflow)
                    && final(self)@ == old(self)@,
            },
            in_custody(old(self)@) ==> in_custody(final(self)@),
    {
        proof {
            if in_custody(old(self)@) {
                law_transfers_keep_custody(
                    old(self)@,
                    deposit_order(owner, asset, owner),
                    owner,
                    asset,
                    amount,
                );
            }
        }
        match credit(&mut self.holdings, &HoldingId { owner, asset }, amount) {
            Ok(()) => Ok(()),
            Err(_) => Err(MarketplaceError::ArithmeticOverflow),
        }
    }

    /// Carries out a payment, or changes nothing.
    pub fn pay(&mut self, payment: &Payment) -> (r: Result<(), MarketplaceError>)
        ensures
            match paid(old(self)@.balances, *payment) {
                Ok(balances) => r is Ok && final(self)@ == (LedgerView { balances, ..old(self)@ }),
                Err(e) => r == Err::<(), MarketplaceError>(e) && final(self)@ == old(self)@,
            },
            in_custody(old(self)@) ==> in_custody(final(self)@),
    {
        let r = pay_in(&mut self.balances, payment);
        proof {
            if in_custody(old(self)@) {
                law_other_records_keep_custody(old(self)@, self@.balances, self@.collections);
            }
        }
        r
    }

    /// Carries out a transfer of units of an asset that an actor has ordered
    /// in the name of `order.authority`, who has signed; or changes nothing.
    pub fn move_asset(&mut self, order: &AssetTransfer) -> (r: Result<(), MarketplaceError>)
        ensures
            match asset_moved(old(self)@, order@) {
                Ok(holdings) => r is Ok && final(self)@ == (LedgerView { holdings, ..old(self)@ }),
                Err(e) => r == Err::<(), MarketplaceError>(e) && final(self)@ == old(self)@,
            },
            in_custody(old(self)@) ==> in_custody(final(self)@),
    {
        proof {
            if in_custody(old(self)@) {
                law_transfers_keep_custody(old(self)@, order@, order.from, order.asset, 0);
            }
        }
        if !order.authority.same(&order.from) || self.listings.contains(&order.from) {
            return Err(MarketplaceError::Unauthorized);
        }
        move_in(&mut self.holdings, order)
    }
}

impl Ledger {
    /// Registers a marketplace at addresses already derived from its name.
    ///
    /// Refused, in this order: for a name that is empty or too long; where no
    /// addresses could be derived; where a marketplace or a rewards issuer
    /// already stands at the derived address; for a fee above one hundred
    /// percent. Otherwise the marketplace record and its rewards issuer are
    /// written and the marketplace's address is returned.
    pub fn register_marketplace_at(
        &mut self,
        admin: Address,
        name: String,
        fee: u16,
        keys: Option<MarketplaceKeys>,
    ) -> (r: Result<Address, MarketplaceError>)
        ensures
            match registered(old(self)@, admin, name, fee, keys) {
                Ok((after, key)) => r == Ok::<Address, MarketplaceError>(key) && final(self)@
                    == after,
                Err(e) => r == Err::<Address, MarketplaceError>(e) && final(self)@ == old(self)@,
            },
            in_custody(old(self)@) ==> in_custody(final(self)@),
    {
        proof {
            if in_custody(old(self)@) && registered(old(self)@, admin, name, fee, keys) is Ok {
                law_registration_keeps_custody(old(self)@, admin, name, fee, keys);
            }
        }
        if !check_name(name.as_str()) {
            return Err(MarketplaceError::NameInvalid);
        }
        let keys = match keys {
            Some(keys) => keys,
            None => {
                return Err(MarketplaceError::DerivationFailed);
            },
        };
        if self.marketplaces.contains(&keys.marketplace) || self.issuers.contains(&keys.rewards) {
            return Err(MarketplaceError::AddressCollision);
        }
        let mut accounts = Initialize::accounts(
            admin,
            keys.marketplace,
            keys.treasury,
            keys.rewards,
        );
        match accounts.initialize(name, fee, &keys.bumps) {
            Ok(()) => {},
            Err(e) => {
                return Err(e);
            },
        }
        self.marketplaces.insert(accounts.marketplace.key, accounts.marketplace.data);
        self.issuers.insert(accounts.rewards_mint.key, accounts.rewards_mint.data);
        Ok(keys.marketplace)
    }

    /// Registers a marketplace under `name`, for `admin`, who has signed the
    /// request. The addresses of the marketplace, its treasury and its
    /// rewards issuer are derived from the name.
    pub fn register_marketplace(&mut self, admin: Address, name: String, fee: u16) -> (r: Result<
        Address,
        MarketplaceError,
    >)
        ensures
            match register_spec(old(self)@, admin, name, fee) {
                Ok((after, key)) => r == Ok::<Address, MarketplaceError>(key) && final(self)@
                    == after,
                Err(e) => r == Err::<Address, MarketplaceError>(e) && final(self)@ == old(self)@,
            },
            in_custody(old(self)@) ==> in_custody(final(self)@),
    {
        let keys = marketplace_keys(name.as_str(), &self.program);
        self.register_marketplace_at(admin, name, fee, keys)
    }

    /// Derives what a new listing of `asset` on `marketplace` needs.
    pub fn listing_keys(&self, marketplace: &Address, asset: &Address) -> (keys: ListingKeys)
        ensures
            keys == listing_keys_spec(self@, *marketplace, *asset),
    {
        ListingKeys {
            marketplace: match self.marketplaces.get(marketplace) {
                Some(record) => marketplace_check(record, &self.program),
                None => None,
            },
            listing: listing_key(marketplace, asset, &self.program),
        }
    }

    /// Lists an asset, given what was derived for the listing.
    ///
    /// Refused, in this order: where no marketplace stands at `marketplace`;
    /// where the marketplace record does not lead back to that address;
    /// where no listing address could be derived; where the asset's metadata
    /// does not prove it a verified member of `collection`; where a listing
    /// or a vault already stands at the derived address; for a price of
    /// zero; where the seller's address is that of a standing listing; where
    /// the seller does not hold a unit of the asset. Otherwise the listing record is
    /// written, one unit moves from the seller's holding into the vault, and
    /// the listing's address is returned.
    pub fn create_listing_at(
        &mut self,
        maker: Address,
        marketplace: Address,
        asset: Address,
        price: u64,
        collection: Address,
        keys: &ListingKeys,
    ) -> (r: Result<Address, MarketplaceError>)
        ensures
            match listed(old(self)@, maker, marketplace, asset, price, collection, *keys) {
                Ok((after, key)) => r == Ok::<Address, MarketplaceError>(key) && final(self)@
                    == after,
                Err(e) => r == Err::<Address, MarketplaceError>(e) && final(self)@ == old(self)@,
            },
            in_custody(old(self)@) ==> in_custody(final(self)@),
    {
        proof {
            if in_custody(old(self)@) && listed(
                old(self)@,
                maker,
                marketplace,
                asset,
                price,
                collection,
                *keys,
            ) is Ok {
                law_listing_keeps_custody(
                    old(self)@,
                    maker,
                    marketplace,
                    asset,
                    price,
                    collection,
                    *keys,
                );
            }
        }
        let record = match self.marketplaces.get(&marketplace) {
            Some(record) => record.clone(),
            None => {
                return Err(MarketplaceError::MissingRecord);
            },
        };
        match keys.marketplace {
            Some(key) => {
                if !key.same(&marketplace) {
                    return Err(MarketplaceError::DerivationMismatch);
                }
            },
            None => {
                return Err(MarketplaceError::DerivationMismatch);
            },
        }
        let (listing, bump) = match keys.listing {
            Some(found) => found,
            None => {
                return Err(MarketplaceError::DerivationFailed);
            },
        };
        let mut accounts = List::accounts(
            maker,
            Record { key: marketplace, data: record },
            asset,
            listing,
            collection,
            self.metadata(&asset),
        );
        match accounts.check_collection() {
            Ok(()) => {},
            Err(e) => {
                return Err(e);
            },
        }
        if self.listings.contains(&listing) || self.holdings.contains(
            &HoldingId { owner: listing, asset },
        ) {
            return Err(MarketplaceError::AddressCollision);
        }
        match accounts.create_listing(price, &ListBumps { listing: bump }) {
            Ok(()) => {},
            Err(e) => {
                return Err(e);
            },
        }
        let deposit = accounts.deposit_nft();
        match self.move_asset(&deposit) {
            Ok(()) => {},
            Err(e) => {
                return Err(e);
            },
        }
        self.listings.insert(listing, accounts.listing.data);
        Ok(listing)
    }

    /// Lists `asset` on `marketplace` at `price`, for `maker`, who has signed
    /// the request. `collection` is the collection that the asset is expected
    /// to belong to.
    pub fn create_listing(
        &mut self,
        maker: Address,
        marketplace: Address,
        asset: Address,
        price: u64,
        collection: Address,
    ) -> (r: Result<Address, MarketplaceError>)
        ensures
            match list_spec(old(self)@, maker, marketplace, asset, price, collection) {
                Ok((after, key)) => r == Ok::<Address, MarketplaceError>(key) && final(self)@
                    == after,
                Err(e) => r == Err::<Address, MarketplaceError>(e) && final(self)@ == old(self)@,
            },
            in_custody(old(self)@) ==> in_custody(final(self)@),
    {
        let keys = self.listing_keys(&marketplace, &asset);
        self.create_listing_at(maker, marketplace, asset, price, collection, &keys)
    }

    /// Recomputes what a purchase of `listing` on `marketplace` needs.
    pub fn purchase_keys(&self, marketplace: &Address, listing: &Address) -> (keys: PurchaseKeys)
        ensures
            keys == purchase_keys_spec(self@, *marketplace, *listing),
    {
        let (marketplace_key, treasury) = match self.marketplaces.get(marketplace) {
            Some(record) => (
                marketplace_check(record, &self.program),
                treasury_check(marketplace, record, &self.program),
            ),
            None => (None, None),
        };
        PurchaseKeys {
            marketplace: marketplace_key,
            treasury,
            listing: match self.listings.get(listing) {
                Some(record) => listing_check(marketplace, record, &self.program),
                None => None,
            },
        }
    }

    /// Sells a listed asset, given what was recomputed for the purchase.
    ///
    /// Refused, in this order: where no listing stands at `listing` or no
    /// marketplace at `marketplace`; where the marketplace record or the
    /// listing record does not lead back to its address, or no treasury
    /// address came out; where the fee cannot be computed; where the buyer
    /// cannot pay the fee or the treasury cannot take it; where the buyer
    /// cannot pay the rest or the seller cannot take it; where the vault
    /// holds no unit or the buyer's holding cannot take one; where the vault
    /// would not be empty afterwards. Otherwise the buyer pays the stored
    /// price, the fee to the treasury and the rest to the seller; the asset
    /// moves from the vault to the buyer; the vault is closed and the
    /// listing retired.
    pub fn execute_purchase_at(
        &mut self,
        buyer: Address,
        marketplace: Address,
        listing: Address,
        keys: &PurchaseKeys,
    ) -> (r: Result<(), MarketplaceError>)
        ensures
            match purchased(old(self)@, buyer, marketplace, listing, *keys) {
                Ok(after) => r is Ok && final(self)@ == after,
                Err(e) => r == Err::<(), MarketplaceError>(e) && final(self)@ == old(self)@,
            },
            in_custody(old(self)@) ==> in_custody(final(self)@),
    {
        proof {
            if in_custody(old(self)@) && purchased(
                old(self)@,
                buyer,
                marketplace,
                listing,
                *keys,
            ) is Ok {
                law_purchase_keeps_custody(old(self)@, buyer, marketplace, listing, *keys);
            }
        }
        let record = match self.listings.get(&listing) {
            Some(record) => *record,
            None => {
                return Err(MarketplaceError::MissingRecord);
            },
        };
        let market = match self.marketplaces.get(&marketplace) {
            Some(market) => market.clone(),
            None => {
                return Err(MarketplaceError::MissingRecord);
            },
        };
        let treasury = match (keys.marketplace, keys.listing, keys.treasury) {
            (Some(market_key), Some(listing_key), Some(treasury)) => {
                if !market_key.same(&marketplace) || !listing_key.same(&listing) {
                    return Err(MarketplaceError::DerivationMismatch);
                }
                treasury
            },
            _ => {
                return Err(MarketplaceError::DerivationMismatch);
            },
        };
        let accounts = Purchase {
            buyer,
            marketplace: Record { key: marketplace, data: market },
            treasury,
            listing: Record { key: listing, data: record },
        };
        let settlement = match accounts.purchase(record.price) {
            Ok(settlement) => settlement,
            Err(e) => {
                return Err(e);
            },
        };
        let mut balances = self.balances.duplicate();
        match pay_in(&mut balances, &settlement.fee) {
            Ok(()) => {},
            Err(e) => {
                return Err(e);
            },
        }
        match pay_in(&mut balances, &settlement.proceeds) {
            Ok(()) => {},
            Err(e) => {
                return Err(e);
            },
        }
        let mut holdings = self.holdings.duplicate();
        match move_in(&mut holdings, &settlement.release) {
            Ok(()) => {},
            Err(e) => {
                return Err(e);
            },
        }
        let vault = HoldingId { owner: listing, asset: record.asset };
        if amount_of(&holdings, &vault) != 0 {
            return Err(MarketplaceError::VaultNotEmpty);
        }
        holdings.remove(&vault);
        self.balances = balances;
        self.holdings = holdings;
        self.listings.remove(&listing);
        Ok(())
    }

    /// Sells the asset listed at `listing` on `marketplace` to `buyer`, who
    /// has signed the request, at the price stored in the listing.
    pub fn execute_purchase(&mut self, buyer: Address, marketplace: Address, listing: Address) -> (r:
        Result<(), MarketplaceError>)
        ensures
            match purchase_spec(old(self)@, buyer, marketplace, listing) {
                Ok(after) => r is Ok && final(self)@ == after,
                Err(e) => r == Err::<(), MarketplaceError>(e) && final(self)@ == old(self)@,
            },
            in_custody(old(self)@) ==> in_custody(final(self)@),
    {
        let keys = self.purchase_keys(&marketplace, &listing);
        self.execute_purchase_at(buyer, marketplace, listing, &keys)
    }
}

} // verus!
