use crate::address::Address;
use crate::error::MarketplaceError;
use crate::state::{AssetTransfer, AssetTransferView, CollectionRecord, Listing, Marketplace, Record};
use vstd::prelude::*;

verus! {

/// The records that listing an asset touches.
#[derive(Debug)]
pub struct List {
    /// The seller.
    pub maker: Address,
    /// The marketplace that the asset is listed on.
    pub marketplace: Record<Marketplace>,
    /// The asset.
    pub maker_mint: Address,
    /// The new listing record. Its address is also the owner of the vault.
    pub listing: Record<Listing>,
    /// The collection that the asset is expected to belong to.
    pub collection_mint: Address,
    /// What the asset's metadata says of its collection, if anything.
    pub metadata: Option<CollectionRecord>,
}

/// The bump found while deriving the address of the listing.
#[derive(Clone, Copy, Debug, PartialEq, Eq)]
pub struct ListBumps {
    pub listing: u8,
}

/// Whether metadata proves membership in the expected collection: it must
/// name that collection, and the claim must be verified.
pub open spec fn collection_spec(metadata: Option<CollectionRecord>, expected: Address) -> Result<
    (),
    MarketplaceError,
> {
    match metadata {
        None => Err(MarketplaceError::CollectionMismatch),
        Some(record) => if record.key != expected {
            Err(MarketplaceError::CollectionMismatch)
        } else if !record.verified {
            Err(MarketplaceError::CollectionNotVerified)
        } else {
            Ok(())
        },
    }
}

impl List {
    /// The records of a listing before anything is written: the listing
    /// record is blank.
    pub fn accounts(
        maker: Address,
        marketplace: Record<Marketplace>,
        asset: Address,
        listing: Address,
        collection: Address,
        metadata: Option<CollectionRecord>,
    ) -> (r: Self)
        ensures
            r.maker == maker,
            r.marketplace == marketplace,
            r.maker_mint == asset,
            r.listing.key == listing,
            r.listing.data.is_blank(),
            r.collection_mint == collection,
            r.metadata == metadata,
    {
        List {
            maker,
            marketplace,
            maker_mint: asset,
            listing: Record { key: listing, data: Listing::blank() },
            collection_mint: collection,
            metadata,
        }
    }

    /// Checks that the asset is a verified member of the expected collection.
    pub fn check_collection(&self) -> (r: Result<(), MarketplaceError>)
        ensures
            r == collection_spec(self.metadata, self.collection_mint),
    {
        match &self.metadata {
            None => Err(MarketplaceError::CollectionMismatch),
            Some(record) => {
                if !record.key.same(&self.collection_mint) {
                    Err(MarketplaceError::CollectionMismatch)
                } else if !record.verified {
                    Err(MarketplaceError::CollectionNotVerified)
                } else {
                    Ok(())
                }
            },
        }
    }

    /// Writes the listing record: the seller, the asset, the price and the
    /// bump. Refuses a price of zero; nothing is written then.
    pub fn create_listing(&mut self, price: u64, bumps: &ListBumps) -> (r: Result<
        (),
        MarketplaceError,
    >)
        ensures
            r is Ok <==> price > 0,
            r is Err ==> r == Err::<(), MarketplaceError>(MarketplaceError::PriceInvalid)
                && *final(self) == *old(self),
            r is Ok ==> *final(self) == (List {
                listing: Record {
                    key: old(self).listing.key,
                    data: Listing {
                        maker: old(self).maker,
                        asset: old(self).maker_mint,
                        price: price,
                        bump: bumps.listing,
                    },
                },
                ..*old(self)
            }),
    {
        if price == 0 {
            return Err(MarketplaceError::PriceInvalid);
        }
        self.listing.data = Listing {
            maker: self.maker,
            asset: self.maker_mint,
            price,
            bump: bumps.listing,
        };
        Ok(())
    }

    /// The deposit that puts the asset into custody: one unit, from the
    /// seller's holding to the vault that the listing owns, in the seller's
    /// name.
    pub fn deposit_nft(&self) -> (r: AssetTransfer)
        ensures
            r@ == (AssetTransferView {
                asset: self.maker_mint,
                from: self.maker,
                to: self.listing.key,
                amount: 1,
                authority: self.maker,
                signer_seeds: Seq::<Seq<u8>>::empty(),
            }),
    {
        let r = AssetTransfer {
            asset: self.maker_mint,
            from: self.maker,
            to: self.listing.key,
            amount: 1,
            authority: self.maker,
            signer_seeds: Vec::new(),
        };
        assert(r.signer_seeds.deep_view() =~= Seq::<Seq<u8>>::empty());
        r
    }
}

} // verus!
