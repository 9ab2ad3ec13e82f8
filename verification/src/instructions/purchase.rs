use crate::address::Address;
use crate::error::MarketplaceError;
use crate::fees::{split_payment, split_spec, Split};
use crate::seeds::{listing_seeds, listing_seeds_spec, with_bump, with_bump_spec};
use crate::state::{AssetTransfer, AssetTransferView, Listing, Marketplace, Payment, Record, Settlement};
use vstd::prelude::*;

verus! {

/// The records that a purchase touches.
#[derive(Debug)]
pub struct Purchase {
    /// Who pays and receives the asset.
    pub buyer: Address,
    /// The marketplace that the asset is listed on.
    pub marketplace: Record<Marketplace>,
    /// Where the marketplace's fees gather.
    pub treasury: Address,
    /// The listing. Its address is also the owner of the vault.
    pub listing: Record<Listing>,
}

impl Purchase {
    /// The release that a purchase orders.
    pub open spec fn release_spec(&self) -> AssetTransferView {
        AssetTransferView {
            asset: self.listing.data.asset,
            from: self.listing.key,
            to: self.buyer,
            amount: 1,
            authority: self.listing.key,
            signer_seeds: with_bump_spec(
                listing_seeds_spec(self.marketplace.key, self.listing.data.asset),
                self.listing.data.bump,
            ),
        }
    }

    /// The fee payment that a purchase orders, given the split of the price.
    pub open spec fn fee_spec(&self, split: Split) -> Payment {
        Payment { from: self.buyer, to: self.treasury, amount: split.fee }
    }

    /// The payment to the seller that a purchase orders, given the split of
    /// the price.
    pub open spec fn proceeds_spec(&self, split: Split) -> Payment {
        Payment { from: self.buyer, to: self.listing.data.maker, amount: split.proceeds }
    }

    /// Settles the sale at the price stored in the listing, whatever price
    /// the caller names: the fee goes from the buyer to the treasury, the
    /// rest of the price from the buyer to the seller, and the asset from
    /// the vault to the buyer. Refused where the fee cannot be computed in 64
    /// bits or would exceed the price.
    pub fn purchase(&self, _price: u64) -> (r: Result<Settlement, MarketplaceError>)
        ensures
            match split_spec(self.listing.data.price, self.marketplace.data.fee) {
                Ok(split) => r matches Ok(s) && s.fee == self.fee_spec(split) && s.proceeds
                    == self.proceeds_spec(split) && s.release@ == self.release_spec(),
                Err(e) => r == Err::<Settlement, MarketplaceError>(e),
            },
    {
        let split = match split_payment(self.listing.data.price, self.marketplace.data.fee) {
            Ok(split) => split,
            Err(e) => {
                return Err(e);
            },
        };
        Ok(
            Settlement {
                fee: Payment { from: self.buyer, to: self.treasury, amount: split.fee },
                proceeds: Payment {
                    from: self.buyer,
                    to: self.listing.data.maker,
                    amount: split.proceeds,
                },
                release: self.transfer_nft(),
            },
        )
    }

    /// The release of the asset: one unit, from the vault to the buyer's
    /// holding, in the name of the listing itself, which signs with the seeds
    /// of its own address: the marketplace's address, the asset's address and
    /// the listing's bump.
    pub fn transfer_nft(&self) -> (r: AssetTransfer)
        ensures
            r@ == self.release_spec(),
    {
        let seeds = listing_seeds(&self.marketplace.key, &self.listing.data.asset);
        AssetTransfer {
            asset: self.listing.data.asset,
            from: self.listing.key,
            to: self.buyer,
            amount: 1,
            authority: self.listing.key,
            signer_seeds: with_bump(seeds, self.listing.data.bump),
        }
    }
}

} // verus!
