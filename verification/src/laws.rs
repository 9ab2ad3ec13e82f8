use crate::address::Address;
use crate::error::MarketplaceError;
use crate::fees::{fee_amount, split_spec};
use crate::instructions::list::collection_spec;
use crate::keys::{listing_key_spec, treasury_check_spec, ListingKeys, MarketplaceKeys, PurchaseKeys};
use crate::ledger::{
    asset_moved, in_custody, list_spec, listed, metadata_of, paid, purchase_spec, purchased,
    register_spec, registered, LedgerView,
};
use crate::state::{AssetTransferView, CollectionRecord, HoldingId, Payment};
use crate::transfer::{amount_at, credited};
use vstd::prelude::*;

verus! {

/// A name registers once: after a marketplace has been registered under a
/// name, every further registration under that name is refused for the
/// address being taken, whoever asks and whatever the fee.
pub proof fn law_name_registers_once(
    pre: LedgerView,
    admin: Address,
    name: String,
    fee: u16,
    other_admin: Address,
    other_name: String,
    other_fee: u16,
)
    requires
        register_spec(pre, admin, name, fee) is Ok,
        other_name@ == name@,
    ensures
        register_spec(register_spec(pre, admin, name, fee)->Ok_0.0, other_admin, other_name, other_fee)
            == Err::<(LedgerView, Address), MarketplaceError>(MarketplaceError::AddressCollision),
{
}

/// An asset is listed on a marketplace at most once at a time. A listing
/// stands at the address derived from marketplace and asset, and its vault
/// holds exactly one unit. While it stands, every further listing of the same
/// asset on the same marketplace is refused, and for the address being taken
/// wherever the asset's collection is in order.
pub proof fn law_one_listing_per_asset(
    pre: LedgerView,
    maker: Address,
    marketplace: Address,
    asset: Address,
    price: u64,
    collection: Address,
    other_maker: Address,
    other_price: u64,
    other_collection: Address,
)
    requires
        list_spec(pre, maker, marketplace, asset, price, collection) is Ok,
    ensures
        ({
            let first = list_spec(pre, maker, marketplace, asset, price, collection)->Ok_0;
            let second = list_spec(
                first.0,
                other_maker,
                marketplace,
                asset,
                other_price,
                other_collection,
            );
            &&& first.0.listings.contains_key(first.1)
            &&& amount_at(first.0.holdings, HoldingId { owner: first.1, asset }) == 1
            &&& listing_key_spec(marketplace, asset, pre.program) is Some
            &&& listing_key_spec(marketplace, asset, pre.program)->Some_0.0 == first.1
            &&& second is Err
            &&& collection_spec(metadata_of(pre, asset), other_collection) is Ok ==> second == Err::<
                (LedgerView, Address),
                MarketplaceError,
            >(MarketplaceError::AddressCollision)
        }),
{
}

/// A purchase retires the listing: afterwards no listing stands at its
/// address and no vault under it, and a second purchase finds no record.
pub proof fn law_purchase_retires_listing(
    pre: LedgerView,
    buyer: Address,
    marketplace: Address,
    listing: Address,
    other_buyer: Address,
)
    requires
        purchase_spec(pre, buyer, marketplace, listing) is Ok,
    ensures
        ({
            let post = purchase_spec(pre, buyer, marketplace, listing)->Ok_0;
            let vault = HoldingId { owner: listing, asset: pre.listings[listing].asset };
            &&& !post.listings.contains_key(listing)
            &&& !post.holdings.contains_key(vault)
            &&& purchase_spec(post, other_buyer, marketplace, listing) == Err::<
                LedgerView,
                MarketplaceError,
            >(MarketplaceError::MissingRecord)
        }),
{
}

/// Listing an asset and selling it at once moves exactly one unit of the
/// asset from the seller to the buyer and exactly the price from the buyer:
/// the fee to the treasury, the rest to the seller. Listing and vault are
/// gone afterwards, and nothing else has changed.
pub proof fn law_round_trip(
    pre: LedgerView,
    maker: Address,
    buyer: Address,
    marketplace: Address,
    asset: Address,
    price: u64,
    collection: Address,
)
    requires
        list_spec(pre, maker, marketplace, asset, price, collection) is Ok,
        purchase_spec(
            list_spec(pre, maker, marketplace, asset, price, collection)->Ok_0.0,
            buyer,
            marketplace,
            list_spec(pre, maker, marketplace, asset, price, collection)->Ok_0.1,
        ) is Ok,
    ensures
        ({
            let listed = list_spec(pre, maker, marketplace, asset, price, collection)->Ok_0;
            let listing = listed.1;
            let post = purchase_spec(listed.0, buyer, marketplace, listing)->Ok_0;
            let market = pre.marketplaces[marketplace];
            let treasury = treasury_check_spec(marketplace, market, pre.program)->Some_0;
            let split = split_spec(price, market.fee)->Ok_0;
            let from_maker = HoldingId { owner: maker, asset };
            let to_buyer = HoldingId { owner: buyer, asset };
            let vault = HoldingId { owner: listing, asset };
            &&& split_spec(price, market.fee) is Ok
            &&& split.fee == fee_amount(price as nat, market.fee as nat)
            &&& split.fee + split.proceeds == price
            &&& paid(pre.balances, Payment { from: buyer, to: treasury, amount: split.fee }) is Ok
            &&& post.balances == paid(
                paid(pre.balances, Payment { from: buyer, to: treasury, amount: split.fee })->Ok_0,
                Payment { from: buyer, to: maker, amount: split.proceeds },
            )->Ok_0
            &&& buyer != maker && buyer != treasury && maker != treasury ==> {
                &&& amount_at(post.balances, buyer) == amount_at(pre.balances, buyer) - price
                &&& amount_at(post.balances, treasury) == amount_at(pre.balances, treasury)
                    + split.fee
                &&& amount_at(post.balances, maker) == amount_at(pre.balances, maker)
                    + split.proceeds
            }
            &&& forall|other: Address|
                other != buyer && other != treasury && other != maker ==> amount_at(
                    post.balances,
                    other,
                ) == amount_at(pre.balances, other)
            &&& buyer != maker ==> {
                &&& amount_at(post.holdings, from_maker) == amount_at(pre.holdings, from_maker) - 1
                &&& amount_at(post.holdings, to_buyer) == amount_at(pre.holdings, to_buyer) + 1
            }
            &&& buyer == maker ==> amount_at(post.holdings, from_maker) == amount_at(
                pre.holdings,
                from_maker,
            )
            &&& forall|other: HoldingId|
                other != from_maker && other != to_buyer ==> amount_at(post.holdings, other)
                    == amount_at(pre.holdings, other)
            &&& !pre.listings.contains_key(listing) && !pre.holdings.contains_key(vault)
            &&& !post.listings.contains_key(listing) && !post.holdings.contains_key(vault)
            &&& post.listings == pre.listings
            &&& post.marketplaces == pre.marketplaces
            &&& post.issuers == pre.issuers
            &&& post.collections == pre.collections
            &&& post.program == pre.program
        }),
{
    let listed = list_spec(pre, maker, marketplace, asset, price, collection)->Ok_0;
    let post = purchase_spec(listed.0, buyer, marketplace, listed.1)->Ok_0;
    assert(post.listings =~= pre.listings);
}

/// Registering a marketplace leaves every listed asset in custody.
pub proof fn law_registration_keeps_custody(
    pre: LedgerView,
    admin: Address,
    name: String,
    fee: u16,
    keys: Option<MarketplaceKeys>,
)
    requires
        in_custody(pre),
        registered(pre, admin, name, fee, keys) is Ok,
    ensures
        in_custody(registered(pre, admin, name, fee, keys)->Ok_0.0),
{
}

/// Listing an asset puts it in custody and leaves every other listed asset
/// there.
pub proof fn law_listing_keeps_custody(
    pre: LedgerView,
    maker: Address,
    marketplace: Address,
    asset: Address,
    price: u64,
    collection: Address,
    keys: ListingKeys,
)
    requires
        in_custody(pre),
        listed(pre, maker, marketplace, asset, price, collection, keys) is Ok,
    ensures
        in_custody(listed(pre, maker, marketplace, asset, price, collection, keys)->Ok_0.0),
{
    let post = listed(pre, maker, marketplace, asset, price, collection, keys)->Ok_0.0;
    assert forall|listing: Address| #[trigger] post.listings.contains_key(listing) implies amount_at(
        post.holdings,
        HoldingId { owner: listing, asset: post.listings[listing].asset },
    ) >= 1 by {
        if listing != keys.listing->Some_0.0 {
            assert(pre.listings.contains_key(listing));
        }
    }
}

/// A purchase leaves every other listed asset in custody.
pub proof fn law_purchase_keeps_custody(
    pre: LedgerView,
    buyer: Address,
    marketplace: Address,
    listing: Address,
    keys: PurchaseKeys,
)
    requires
        in_custody(pre),
        purchased(pre, buyer, marketplace, listing, keys) is Ok,
    ensures
        in_custody(purchased(pre, buyer, marketplace, listing, keys)->Ok_0),
{
    let post = purchased(pre, buyer, marketplace, listing, keys)->Ok_0;
    assert forall|other: Address| #[trigger] post.listings.contains_key(other) implies amount_at(
        post.holdings,
        HoldingId { owner: other, asset: post.listings[other].asset },
    ) >= 1 by {
        assert(pre.listings.contains_key(other));
    }
}

/// No actor's transfer takes a listed asset out of custody, and no unit that
/// arrives from the issuer does.
pub proof fn law_transfers_keep_custody(
    pre: LedgerView,
    order: AssetTransferView,
    owner: Address,
    asset: Address,
    amount: u64,
)
    requires
        in_custody(pre),
    ensures
        asset_moved(pre, order) matches Ok(holdings) ==> in_custody(LedgerView { holdings, ..pre }),
        credited(pre.holdings, HoldingId { owner, asset }, amount) matches Ok(holdings)
            ==> in_custody(LedgerView { holdings, ..pre }),
{
    if let Ok(holdings) = asset_moved(pre, order) {
        let post = LedgerView { holdings, ..pre };
        assert forall|listing: Address| #[trigger] post.listings.contains_key(listing) implies amount_at(
            post.holdings,
            HoldingId { owner: listing, asset: post.listings[listing].asset },
        ) >= 1 by {
            assert(pre.listings.contains_key(listing));
        }
    }
    if let Ok(holdings) = credited(pre.holdings, HoldingId { owner, asset }, amount) {
        let post = LedgerView { holdings, ..pre };
        assert forall|listing: Address| #[trigger] post.listings.contains_key(listing) implies amount_at(
            post.holdings,
            HoldingId { owner: listing, asset: post.listings[listing].asset },
        ) >= 1 by {
            assert(pre.listings.contains_key(listing));
        }
    }
}

/// What happens to currency and to metadata leaves every listed asset in
/// custody.
pub proof fn law_other_records_keep_custody(
    pre: LedgerView,
    balances: Map<Address, u64>,
    collections: Map<Address, CollectionRecord>,
)
    requires
        in_custody(pre),
    ensures
        in_custody(LedgerView { balances, collections, ..pre }),
{
    let post = LedgerView { balances, collections, ..pre };
    assert forall|listing: Address| #[trigger] post.listings.contains_key(listing) implies amount_at(
        post.holdings,
        HoldingId { owner: listing, asset: post.listings[listing].asset },
    ) >= 1 by {
        assert(pre.listings.contains_key(listing));
    }
}

/// An asset in custody is there to be delivered: no purchase is refused for
/// want of the asset in the vault.
pub proof fn law_listed_asset_is_delivered(
    pre: LedgerView,
    buyer: Address,
    marketplace: Address,
    listing: Address,
    keys: PurchaseKeys,
)
    requires
        in_custody(pre),
    ensures
        purchased(pre, buyer, marketplace, listing, keys) != Err::<LedgerView, MarketplaceError>(
            MarketplaceError::InsufficientAssetBalance,
        ),
{
    if pre.listings.contains_key(listing) {
        assert(amount_at(
            pre.holdings,
            HoldingId { owner: listing, asset: pre.listings[listing].asset },
        ) >= 1);
    }
}

} // verus!
