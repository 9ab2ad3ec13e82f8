use crate::address::Address;
use crate::instructions::initialize::InitializeBumps;
use crate::pda::{derive_address, derived, recompute_address, recomputed};
use crate::seeds::{
    listing_seeds, listing_seeds_spec, marketplace_seeds, marketplace_seeds_spec, rewards_seeds,
    rewards_seeds_spec, treasury_seeds, treasury_seeds_spec, with_bump, with_bump_spec,
};
use crate::state::{Listing, Marketplace};
use vstd::prelude::*;

verus! {

/// The addresses of a marketplace and of the two records that depend on it,
/// with the bumps that prove them.
#[derive(Clone, Copy, Debug, PartialEq, Eq)]
pub struct MarketplaceKeys {
    pub marketplace: Address,
    pub treasury: Address,
    pub rewards: Address,
    pub bumps: InitializeBumps,
}

/// The addresses that a marketplace's name leads to under `program`: the
/// marketplace's from its name, the treasury's and the rewards issuer's from
/// the marketplace's.
pub open spec fn marketplace_keys_spec(name: Seq<char>, program: Address) -> Option<
    MarketplaceKeys,
> {
    match derived(marketplace_seeds_spec(name), program) {
        None => None,
        Some((marketplace, bump)) => match derived(treasury_seeds_spec(marketplace), program) {
            None => None,
            Some((treasury, treasury_bump)) => match derived(
                rewards_seeds_spec(marketplace),
                program,
            ) {
                None => None,
                Some((rewards, rewards_bump)) => Some(
                    MarketplaceKeys {
                        marketplace,
                        treasury,
                        rewards,
                        bumps: InitializeBumps {
                            marketplace: bump,
                            treasury: treasury_bump,
                            rewards_mint: rewards_bump,
                        },
                    },
                ),
            },
        },
    }
}

/// Derives the addresses of a new marketplace from its name.
pub fn marketplace_keys(name: &str, program: &Address) -> (r: Option<MarketplaceKeys>)
    ensures
        r == marketplace_keys_spec(name@, *program),
{
    let (marketplace, bump) = match derive_address(&marketplace_seeds(name), program) {
        Some(found) => found,
        None => {
            return None;
        },
    };
    let (treasury, treasury_bump) = match derive_address(&treasury_seeds(&marketplace), program) {
        Some(found) => found,
        None => {
            return None;
        },
    };
    let (rewards, rewards_bump) = match derive_address(&rewards_seeds(&marketplace), program) {
        Some(found) => found,
        None => {
            return None;
        },
    };
    Some(
        MarketplaceKeys {
            marketplace,
            treasury,
            rewards,
            bumps: InitializeBumps {
                marketplace: bump,
                treasury: treasury_bump,
                rewards_mint: rewards_bump,
            },
        },
    )
}

/// The address that a marketplace record's name and stored bump lead back to.
pub open spec fn marketplace_check_spec(record: Marketplace, program: Address) -> Option<Address> {
    recomputed(with_bump_spec(marketplace_seeds_spec(record.name@), record.bump), program)
}

/// Recomputes a marketplace's address from its record.
pub fn marketplace_check(record: &Marketplace, program: &Address) -> (r: Option<Address>)
    ensures
        r == marketplace_check_spec(*record, *program),
{
    recompute_address(&with_bump(marketplace_seeds(record.name.as_str()), record.bump), program)
}

/// The address that a marketplace's address and its stored treasury bump
/// lead to.
pub open spec fn treasury_check_spec(
    marketplace: Address,
    record: Marketplace,
    program: Address,
) -> Option<Address> {
    recomputed(with_bump_spec(treasury_seeds_spec(marketplace), record.treasury_bump), program)
}

/// Recomputes the address of a marketplace's treasury from its record.
pub fn treasury_check(marketplace: &Address, record: &Marketplace, program: &Address) -> (r:
    Option<Address>)
    ensures
        r == treasury_check_spec(*marketplace, *record, *program),
{
    recompute_address(&with_bump(treasury_seeds(marketplace), record.treasury_bump), program)
}

/// The address that a marketplace's address, a listing's asset and the
/// listing's stored bump lead back to.
pub open spec fn listing_check_spec(marketplace: Address, record: Listing, program: Address) -> Option<
    Address,
> {
    recomputed(with_bump_spec(listing_seeds_spec(marketplace, record.asset), record.bump), program)
}

/// Recomputes a listing's address from its record and its marketplace.
pub fn listing_check(marketplace: &Address, record: &Listing, program: &Address) -> (r: Option<
    Address,
>)
    ensures
        r == listing_check_spec(*marketplace, *record, *program),
{
    recompute_address(&with_bump(listing_seeds(marketplace, &record.asset), record.bump), program)
}

/// The address and bump of the listing of `asset` on `marketplace`.
pub open spec fn listing_key_spec(marketplace: Address, asset: Address, program: Address) -> Option<
    (Address, u8),
> {
    derived(listing_seeds_spec(marketplace, asset), program)
}

/// Derives the address of the listing of `asset` on `marketplace`.
pub fn listing_key(marketplace: &Address, asset: &Address, program: &Address) -> (r: Option<
    (Address, u8),
>)
    ensures
        r == listing_key_spec(*marketplace, *asset, *program),
{
    derive_address(&listing_seeds(marketplace, asset), program)
}

/// What was derived for a new listing.
#[derive(Clone, Copy, Debug, PartialEq, Eq)]
pub struct ListingKeys {
    /// The address that the marketplace record leads back to.
    pub marketplace: Option<Address>,
    /// The address and bump of the new listing.
    pub listing: Option<(Address, u8)>,
}

/// What was recomputed for a purchase.
#[derive(Clone, Copy, Debug, PartialEq, Eq)]
pub struct PurchaseKeys {
    /// The address that the marketplace record leads back to.
    pub marketplace: Option<Address>,
    /// The address of the marketplace's treasury.
    pub treasury: Option<Address>,
    /// The address that the listing record leads back to.
    pub listing: Option<Address>,
}

} // verus!
