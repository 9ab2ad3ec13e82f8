use anchor_lang::prelude::Pubkey;
use marketplace::address::Address;
use marketplace::keys::{
    listing_check, listing_key, marketplace_check, marketplace_keys, treasury_check,
};
use marketplace::pda::{derive_address, recompute_address};
use marketplace::seeds::{
    listing_seeds, marketplace_seeds, rewards_seeds, treasury_seeds, with_bump, MAX_SEED_LEN,
};
use marketplace::state::{Listing, Marketplace};

fn address(n: u8) -> Address {
    Address::new([n; 32])
}

fn program() -> Address {
    address(77)
}

#[test]
fn addresses_compare_by_bytes() {
    let mut bytes = [5u8; 32];
    assert!(address(5).same(&Address::new(bytes)));
    bytes[31] = 6;
    assert!(!address(5).same(&Address::new(bytes)));
    bytes[31] = 5;
    bytes[0] = 4;
    assert!(!address(5).same(&Address::new(bytes)));
    assert_eq!(address(5).to_vec(), vec![5u8; 32]);
    assert_eq!(Address::new(bytes).bytes, bytes);
}

#[test]
fn marketplace_seeds_are_the_tag_and_the_name() {
    assert_eq!(marketplace_seeds("bazaar"), vec![b"marketplace".to_vec(), b"bazaar".to_vec()]);
    assert_eq!(marketplace_seeds(""), vec![b"marketplace".to_vec(), vec![]]);
    assert_eq!(
        marketplace_seeds("é"),
        vec![b"marketplace".to_vec(), vec![0xc3, 0xa9]]
    );
}

#[test]
fn long_name_is_cut_after_thirty_two_bytes() {
    assert_eq!(MAX_SEED_LEN, 32);
    let name = "abcdefghijklmnopqrstuvwxyz0123456789";
    assert_eq!(
        marketplace_seeds(&name[..32]),
        vec![b"marketplace".to_vec(), name.as_bytes()[..32].to_vec()]
    );
    assert_eq!(
        marketplace_seeds(name),
        vec![
            b"marketplace".to_vec(),
            b"abcdefghijklmnopqrstuvwxyz012345".to_vec(),
            b"6789".to_vec(),
        ]
    );
}

#[test]
fn dependent_seeds_are_a_tag_and_the_marketplace() {
    assert_eq!(treasury_seeds(&address(10)), vec![b"treasury".to_vec(), vec![10u8; 32]]);
    assert_eq!(rewards_seeds(&address(10)), vec![b"rewards".to_vec(), vec![10u8; 32]]);
}

#[test]
fn listing_seeds_are_the_marketplace_and_the_asset() {
    assert_eq!(listing_seeds(&address(10), &address(20)), vec![vec![10u8; 32], vec![20u8; 32]]);
}

#[test]
fn bump_is_a_last_seed_of_one_byte() {
    assert_eq!(
        with_bump(vec![vec![1, 2], vec![3]], 254),
        vec![vec![1, 2], vec![3], vec![254]]
    );
    assert_eq!(with_bump(vec![], 0), vec![vec![0u8]]);
}

#[test]
fn derived_address_is_the_one_the_chain_derives() {
    let (expected, bump) = Pubkey::find_program_address(
        &[b"marketplace", b"bazaar"],
        &Pubkey::new_from_array([77; 32]),
    );
    let derived = derive_address(&marketplace_seeds("bazaar"), &program());
    assert_eq!(derived, Some((Address::new(expected.to_bytes()), bump)));
    assert_ne!(derived.unwrap().0, program());
}

#[test]
fn derivation_depends_on_seeds_and_program() {
    let one = derive_address(&marketplace_seeds("bazaar"), &program()).unwrap();
    let again = derive_address(&marketplace_seeds("bazaar"), &program()).unwrap();
    let other_name = derive_address(&marketplace_seeds("bazaar2"), &program()).unwrap();
    let other_program = derive_address(&marketplace_seeds("bazaar"), &address(78)).unwrap();
    assert_eq!(one, again);
    assert_ne!(one.0, other_name.0);
    assert_ne!(one.0, other_program.0);
}

#[test]
fn derivation_refuses_a_seed_that_is_too_long() {
    assert_eq!(derive_address(&vec![vec![0u8; 33]], &program()), None);
    assert_eq!(recompute_address(&vec![vec![0u8; 33]], &program()), None);
    assert!(derive_address(&vec![vec![0u8; 32]], &program()).is_some());
}

#[test]
fn stored_bump_leads_back_to_the_address() {
    let seeds = listing_seeds(&address(10), &address(20));
    let (key, bump) = derive_address(&seeds, &program()).unwrap();
    assert_eq!(recompute_address(&with_bump(seeds, bump), &program()), Some(key));
    let expected = Pubkey::create_program_address(
        &[&[10u8; 32], &[20u8; 32], &[bump]],
        &Pubkey::new_from_array([77; 32]),
    )
    .unwrap();
    assert_eq!(key, Address::new(expected.to_bytes()));
}

#[test]
fn another_bump_leads_elsewhere() {
    let seeds = listing_seeds(&address(10), &address(20));
    let (key, bump) = derive_address(&seeds, &program()).unwrap();
    let other = recompute_address(&with_bump(seeds, bump.wrapping_sub(1)), &program());
    assert_ne!(other, Some(key));
}

#[test]
fn marketplace_keys_follow_from_the_name() {
    let keys = marketplace_keys("bazaar", &program()).unwrap();
    let id = Pubkey::new_from_array([77; 32]);
    let (market, bump) = Pubkey::find_program_address(&[b"marketplace", b"bazaar"], &id);
    let (treasury, treasury_bump) =
        Pubkey::find_program_address(&[b"treasury", market.as_ref()], &id);
    let (rewards, rewards_bump) = Pubkey::find_program_address(&[b"rewards", market.as_ref()], &id);
    assert_eq!(keys.marketplace, Address::new(market.to_bytes()));
    assert_eq!(keys.treasury, Address::new(treasury.to_bytes()));
    assert_eq!(keys.rewards, Address::new(rewards.to_bytes()));
    assert_eq!(keys.bumps.marketplace, bump);
    assert_eq!(keys.bumps.treasury, treasury_bump);
    assert_eq!(keys.bumps.rewards_mint, rewards_bump);
}

#[test]
fn long_name_has_keys() {
    let name = "abcdefghijklmnopqrstuvwxyz0123456789";
    let keys = marketplace_keys(name, &program()).unwrap();
    let (market, bump) = Pubkey::find_program_address(
        &[b"marketplace", &name.as_bytes()[..32], &name.as_bytes()[32..]],
        &Pubkey::new_from_array([77; 32]),
    );
    assert_eq!(keys.marketplace, Address::new(market.to_bytes()));
    assert_eq!(keys.bumps.marketplace, bump);
}

#[test]
fn records_lead_back_to_their_addresses() {
    let keys = marketplace_keys("bazaar", &program()).unwrap();
    let record = Marketplace {
        admin: address(1),
        name: String::from("bazaar"),
        fee: 250,
        bump: keys.bumps.marketplace,
        treasury_bump: keys.bumps.treasury,
        rewards_bump: keys.bumps.rewards_mint,
    };
    assert_eq!(marketplace_check(&record, &program()), Some(keys.marketplace));
    assert_eq!(treasury_check(&keys.marketplace, &record, &program()), Some(keys.treasury));

    let (listing, bump) = listing_key(&keys.marketplace, &address(20), &program()).unwrap();
    let record = Listing { maker: address(2), asset: address(20), price: 5, bump };
    assert_eq!(listing_check(&keys.marketplace, &record, &program()), Some(listing));
    assert_ne!(listing_check(&address(10), &record, &program()), Some(listing));
}
