use crate::address::Address;
use crate::table::Key;
use vstd::prelude::*;

verus! {

/// The longest marketplace name, in bytes.
pub const MAX_NAME_LEN: usize = 36;

/// The highest fee: one hundred percent, in basis points.
pub const MAX_FEE_BPS: u16 = 10_000;

/// The decimal places of a marketplace's rewards issuer.
pub const REWARDS_DECIMALS: u8 = 6;

/// A record together with the address it is kept at.
#[derive(Debug, PartialEq, Eq)]
pub struct Record<T> {
    pub key: Address,
    pub data: T,
}

/// The root record of a marketplace.
#[derive(Debug, PartialEq, Eq)]
pub struct Marketplace {
    /// Who registered the marketplace.
    pub admin: Address,
    /// The name that the marketplace's address is derived from.
    pub name: String,
    /// The fee on every purchase, in basis points.
    pub fee: u16,
    /// The bump that proves the marketplace's own address.
    pub bump: u8,
    /// The bump that proves the treasury's address.
    pub treasury_bump: u8,
    /// The bump that proves the rewards issuer's address.
    pub rewards_bump: u8,
}

impl Clone for Marketplace {
    fn clone(&self) -> (r: Self)
        ensures
            r == *self,
    {
        Marketplace {
            admin: self.admin,
            name: self.name.clone(),
            fee: self.fee,
            bump: self.bump,
            treasury_bump: self.treasury_bump,
            rewards_bump: self.rewards_bump,
        }
    }
}

impl Marketplace {
    /// Whether the record is as a new record is before anything is written
    /// to it.
    pub open spec fn is_blank(&self) -> bool {
        &&& self.admin@ == Seq::new(32, |i: int| 0u8)
        &&& self.name@.len() == 0
        &&& self.fee == 0
        &&& self.bump == 0
        &&& self.treasury_bump == 0
        &&& self.rewards_bump == 0
    }

    /// A record with nothing written to it.
    pub fn blank() -> (r: Self)
        ensures
            r.is_blank(),
    {
        let r = Marketplace {
            admin: Address { bytes: [0u8; 32] },
            name: String::new(),
            fee: 0,
            bump: 0,
            treasury_bump: 0,
            rewards_bump: 0,
        };
        assert(r.admin@ =~= Seq::new(32, |i: int| 0u8));
        r
    }
}

/// The issuer of a marketplace's loyalty points.
#[derive(Clone, Copy, Debug, PartialEq, Eq)]
pub struct RewardsIssuer {
    /// The decimal places of one point.
    pub decimals: u8,
    /// Who may issue points: the marketplace itself.
    pub authority: Address,
}

/// One asset offered for sale.
#[derive(Clone, Copy, Debug, PartialEq, Eq)]
pub struct Listing {
    /// The seller.
    pub maker: Address,
    /// The asset on sale.
    pub asset: Address,
    /// The price in the smallest unit of the currency.
    pub price: u64,
    /// The bump that proves the listing's own address.
    pub bump: u8,
}

impl Listing {
    /// Whether the record is as a new record is before anything is written
    /// to it.
    pub open spec fn is_blank(&self) -> bool {
        &&& self.maker@ == Seq::new(32, |i: int| 0u8)
        &&& self.asset@ == Seq::new(32, |i: int| 0u8)
        &&& self.price == 0
        &&& self.bump == 0
    }

    /// A record with nothing written to it.
    pub fn blank() -> (r: Self)
        ensures
            r.is_blank(),
    {
        let r = Listing {
            maker: Address { bytes: [0u8; 32] },
            asset: Address { bytes: [0u8; 32] },
            price: 0,
            bump: 0,
        };
        assert(r.maker@ =~= Seq::new(32, |i: int| 0u8));
        assert(r.asset@ =~= Seq::new(32, |i: int| 0u8));
        r
    }
}

/// What an asset's metadata says of the collection it belongs to.
#[derive(Clone, Copy, Debug, PartialEq, Eq)]
pub struct CollectionRecord {
    /// The collection that the asset claims.
    pub key: Address,
    /// Whether the collection has confirmed the claim.
    pub verified: bool,
}

/// The place where one owner's units of one asset are held.
#[derive(Clone, Copy, Debug, PartialEq, Eq)]
pub struct HoldingId {
    pub owner: Address,
    pub asset: Address,
}

impl Key for HoldingId {
    fn same_key(&self, other: &Self) -> (r: bool) {
        self.owner.same(&other.owner) && self.asset.same(&other.asset)
    }
}

/// An order to move currency from one address to another.
#[derive(Clone, Copy, Debug, PartialEq, Eq)]
pub struct Payment {
    pub from: Address,
    pub to: Address,
    pub amount: u64,
}

/// An order to move units of an asset from one owner's holding to another's.
#[derive(Debug, PartialEq, Eq)]
pub struct AssetTransfer {
    pub asset: Address,
    pub from: Address,
    pub to: Address,
    pub amount: u64,
    /// In whose name the units move.
    pub authority: Address,
    /// The seeds and bump that the authority's address is derived from, where
    /// the authority is a record that signs for itself; empty where the
    /// authority is an actor who signed the request.
    pub signer_seeds: Vec<Vec<u8>>,
}

/// An [`AssetTransfer`] as a value.
pub struct AssetTransferView {
    pub asset: Address,
    pub from: Address,
    pub to: Address,
    pub amount: u64,
    pub authority: Address,
    pub signer_seeds: Seq<Seq<u8>>,
}

impl View for AssetTransfer {
    type V = AssetTransferView;

    open spec fn view(&self) -> AssetTransferView {
        AssetTransferView {
            asset: self.asset,
            from: self.from,
            to: self.to,
            amount: self.amount,
            authority: self.authority,
            signer_seeds: self.signer_seeds.deep_view(),
        }
    }
}

/// What a purchase does: two payments and the release of the asset.
#[derive(Debug, PartialEq, Eq)]
pub struct Settlement {
    /// The marketplace's share, from the buyer to the treasury.
    pub fee: Payment,
    /// The rest of the price, from the buyer to the seller.
    pub proceeds: Payment,
    /// The asset, from the vault to the buyer.
    pub release: AssetTransfer,
}

} // verus!
