use marketplace::address::Address;
use marketplace::error::MarketplaceError;
use marketplace::instructions::initialize::{check_name, Initialize, InitializeBumps};
use marketplace::instructions::list::{List, ListBumps};
use marketplace::instructions::purchase::Purchase;
use marketplace::state::{
    AssetTransfer, CollectionRecord, Listing, Marketplace, Payment, Record, RewardsIssuer,
};

fn address(n: u8) -> Address {
    Address::new([n; 32])
}

fn bumps() -> InitializeBumps {
    InitializeBumps { marketplace: 254, treasury: 253, rewards_mint: 255 }
}

fn market(fee: u16) -> Record<Marketplace> {
    Record {
        key: address(10),
        data: Marketplace {
            admin: address(1),
            name: String::from("bazaar"),
            fee,
            bump: 254,
            treasury_bump: 253,
            rewards_bump: 255,
        },
    }
}

#[test]
fn new_registration_has_a_blank_record_and_an_issuer() {
    let accounts = Initialize::accounts(address(1), address(10), address(11), address(12));
    assert_eq!(accounts.admin, address(1));
    assert_eq!(accounts.marketplace.key, address(10));
    assert_eq!(accounts.marketplace.data, Marketplace::blank());
    assert_eq!(accounts.marketplace.data.admin, Address::new([0; 32]));
    assert_eq!(accounts.marketplace.data.name, "");
    assert_eq!(accounts.treasury, address(11));
    assert_eq!(
        accounts.rewards_mint,
        Record { key: address(12), data: RewardsIssuer { decimals: 6, authority: address(10) } }
    );
}

#[test]
fn initialize_writes_the_record() {
    let mut accounts = Initialize::accounts(address(1), address(10), address(11), address(12));
    assert_eq!(accounts.initialize(String::from("bazaar"), 250, &bumps()), Ok(()));
    assert_eq!(accounts.marketplace, market(250));
    assert_eq!(accounts.treasury, address(11));
    assert_eq!(accounts.rewards_mint.data.authority, address(10));
}

#[test]
fn initialize_refuses_an_empty_name() {
    let mut accounts = Initialize::accounts(address(1), address(10), address(11), address(12));
    assert_eq!(
        accounts.initialize(String::new(), 250, &bumps()),
        Err(MarketplaceError::NameInvalid)
    );
    assert_eq!(accounts.marketplace.data, Marketplace::blank());
}

#[test]
fn initialize_takes_names_up_to_thirty_six_bytes() {
    let mut accounts = Initialize::accounts(address(1), address(10), address(11), address(12));
    assert_eq!(accounts.initialize("a".repeat(36), 0, &bumps()), Ok(()));
    assert_eq!(accounts.marketplace.data.name.len(), 36);

    let mut accounts = Initialize::accounts(address(1), address(10), address(11), address(12));
    assert_eq!(
        accounts.initialize("a".repeat(37), 0, &bumps()),
        Err(MarketplaceError::NameInvalid)
    );
    assert_eq!(accounts.marketplace.data, Marketplace::blank());
}

#[test]
fn name_length_counts_bytes() {
    assert!(check_name("a"));
    assert!(!check_name(""));
    // Eighteen letters of two bytes each.
    assert!(check_name(&"é".repeat(18)));
    // Nineteen of them: thirty-eight bytes.
    assert!(!check_name(&"é".repeat(19)));
}

#[test]
fn initialize_refuses_a_fee_above_all() {
    let mut accounts = Initialize::accounts(address(1), address(10), address(11), address(12));
    assert_eq!(
        accounts.initialize(String::from("bazaar"), 10_001, &bumps()),
        Err(MarketplaceError::FeeInvalid)
    );
    assert_eq!(accounts.marketplace.data, Marketplace::blank());
    assert_eq!(accounts.initialize(String::from("bazaar"), 10_000, &bumps()), Ok(()));
    assert_eq!(accounts.marketplace.data.fee, 10_000);
}

#[test]
fn name_is_judged_before_fee() {
    let mut accounts = Initialize::accounts(address(1), address(10), address(11), address(12));
    assert_eq!(
        accounts.initialize(String::new(), 10_001, &bumps()),
        Err(MarketplaceError::NameInvalid)
    );
}

fn listing_accounts(metadata: Option<CollectionRecord>) -> List {
    List::accounts(address(2), market(250), address(20), address(30), address(40), metadata)
}

#[test]
fn new_listing_has_a_blank_record() {
    let accounts = listing_accounts(None);
    assert_eq!(accounts.maker, address(2));
    assert_eq!(accounts.marketplace, market(250));
    assert_eq!(accounts.maker_mint, address(20));
    assert_eq!(accounts.listing, Record { key: address(30), data: Listing::blank() });
    assert_eq!(accounts.listing.data.price, 0);
    assert_eq!(accounts.collection_mint, address(40));
    assert_eq!(accounts.metadata, None);
}

#[test]
fn verified_member_passes() {
    let accounts = listing_accounts(Some(CollectionRecord { key: address(40), verified: true }));
    assert_eq!(accounts.check_collection(), Ok(()));
}

#[test]
fn unverified_member_is_refused() {
    let accounts = listing_accounts(Some(CollectionRecord { key: address(40), verified: false }));
    assert_eq!(accounts.check_collection(), Err(MarketplaceError::CollectionNotVerified));
}

#[test]
fn member_of_another_collection_is_refused() {
    let accounts = listing_accounts(Some(CollectionRecord { key: address(41), verified: true }));
    assert_eq!(accounts.check_collection(), Err(MarketplaceError::CollectionMismatch));
    let accounts = listing_accounts(Some(CollectionRecord { key: address(41), verified: false }));
    assert_eq!(accounts.check_collection(), Err(MarketplaceError::CollectionMismatch));
}

#[test]
fn asset_without_collection_is_refused() {
    assert_eq!(listing_accounts(None).check_collection(), Err(MarketplaceError::CollectionMismatch));
}

#[test]
fn create_listing_writes_the_record() {
    let mut accounts = listing_accounts(None);
    assert_eq!(accounts.create_listing(1_000_000, &ListBumps { listing: 251 }), Ok(()));
    assert_eq!(
        accounts.listing,
        Record {
            key: address(30),
            data: Listing { maker: address(2), asset: address(20), price: 1_000_000, bump: 251 },
        }
    );
    assert_eq!(accounts.maker, address(2));
}

#[test]
fn create_listing_refuses_a_price_of_zero() {
    let mut accounts = listing_accounts(None);
    assert_eq!(
        accounts.create_listing(0, &ListBumps { listing: 251 }),
        Err(MarketplaceError::PriceInvalid)
    );
    assert_eq!(accounts.listing.data, Listing::blank());
    assert_eq!(accounts.create_listing(1, &ListBumps { listing: 251 }), Ok(()));
    assert_eq!(accounts.listing.data.price, 1);
}

#[test]
fn deposit_moves_one_unit_into_the_vault() {
    let accounts = listing_accounts(None);
    assert_eq!(
        accounts.deposit_nft(),
        AssetTransfer {
            asset: address(20),
            from: address(2),
            to: address(30),
            amount: 1,
            authority: address(2),
            signer_seeds: vec![],
        }
    );
}

fn purchase_accounts(fee: u16, price: u64) -> Purchase {
    Purchase {
        buyer: address(3),
        marketplace: market(fee),
        treasury: address(11),
        listing: Record {
            key: address(30),
            data: Listing { maker: address(2), asset: address(20), price, bump: 251 },
        },
    }
}

#[test]
fn release_is_signed_by_the_listing() {
    let release = purchase_accounts(250, 1_000_000).transfer_nft();
    assert_eq!(release.asset, address(20));
    assert_eq!(release.from, address(30));
    assert_eq!(release.to, address(3));
    assert_eq!(release.amount, 1);
    assert_eq!(release.authority, address(30));
    assert_eq!(release.signer_seeds, vec![vec![10u8; 32], vec![20u8; 32], vec![251u8]]);
}

#[test]
fn purchase_splits_the_stored_price() {
    let accounts = purchase_accounts(250, 1_000_000);
    let settlement = accounts.purchase(1_000_000).unwrap();
    assert_eq!(settlement.fee, Payment { from: address(3), to: address(11), amount: 25_000 });
    assert_eq!(settlement.proceeds, Payment { from: address(3), to: address(2), amount: 975_000 });
    assert_eq!(settlement.release, accounts.transfer_nft());
}

#[test]
fn purchase_ignores_the_price_named_by_the_caller() {
    let accounts = purchase_accounts(250, 1_000_000);
    assert_eq!(accounts.purchase(1).unwrap(), accounts.purchase(1_000_000).unwrap());
    assert_eq!(accounts.purchase(0).unwrap().proceeds.amount, 975_000);
    assert_eq!(accounts.purchase(u64::MAX).unwrap().fee.amount, 25_000);
}

#[test]
fn purchase_with_a_tiny_fee_pays_the_seller_in_full() {
    let settlement = purchase_accounts(1, 3).purchase(3).unwrap();
    assert_eq!(settlement.fee.amount, 0);
    assert_eq!(settlement.proceeds.amount, 3);
}

#[test]
fn purchase_refuses_a_fee_that_overflows() {
    assert_eq!(
        purchase_accounts(10_000, 1 << 62).purchase(0),
        Err(MarketplaceError::ArithmeticOverflow)
    );
}
