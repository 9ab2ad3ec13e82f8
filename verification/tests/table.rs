use marketplace::address::Address;
use marketplace::state::HoldingId;
use marketplace::table::{Key, Table};
use marketplace::transfer::{amount_of, credit, transfer, TransferError};

fn address(n: u8) -> Address {
    Address::new([n; 32])
}

#[test]
fn empty_table_holds_nothing() {
    let table: Table<Address, u64> = Table::new();
    assert!(!table.contains(&address(1)));
    assert_eq!(table.get(&address(1)), None);
}

#[test]
fn insert_then_get() {
    let mut table: Table<Address, u64> = Table::new();
    table.insert(address(1), 10);
    table.insert(address(2), 20);
    assert_eq!(table.get(&address(1)), Some(&10));
    assert_eq!(table.get(&address(2)), Some(&20));
    assert!(table.contains(&address(2)));
    assert!(!table.contains(&address(3)));
}

#[test]
fn insert_replaces_the_record_under_a_key() {
    let mut table: Table<Address, u64> = Table::new();
    table.insert(address(1), 10);
    table.insert(address(2), 20);
    table.insert(address(1), 11);
    assert_eq!(table.get(&address(1)), Some(&11));
    assert_eq!(table.get(&address(2)), Some(&20));
    assert_eq!(table.remove(&address(1)), Some(11));
    assert_eq!(table.get(&address(1)), None);
}

#[test]
fn remove_takes_one_record_out() {
    let mut table: Table<Address, u64> = Table::new();
    table.insert(address(1), 10);
    table.insert(address(2), 20);
    table.insert(address(3), 30);
    assert_eq!(table.remove(&address(2)), Some(20));
    assert_eq!(table.remove(&address(2)), None);
    assert_eq!(table.get(&address(1)), Some(&10));
    assert_eq!(table.get(&address(3)), Some(&30));
    assert!(!table.contains(&address(2)));
}

#[test]
fn duplicate_is_independent() {
    let mut table: Table<Address, u64> = Table::new();
    table.insert(address(1), 10);
    table.insert(address(2), 20);
    let mut copy = table.duplicate();
    copy.insert(address(1), 99);
    copy.remove(&address(2));
    assert_eq!(table.get(&address(1)), Some(&10));
    assert_eq!(table.get(&address(2)), Some(&20));
    assert_eq!(copy.get(&address(1)), Some(&99));
    assert_eq!(copy.get(&address(2)), None);
}

#[test]
fn holdings_are_told_apart_by_owner_and_asset() {
    let a = HoldingId { owner: address(1), asset: address(2) };
    assert!(a.same_key(&HoldingId { owner: address(1), asset: address(2) }));
    assert!(!a.same_key(&HoldingId { owner: address(2), asset: address(2) }));
    assert!(!a.same_key(&HoldingId { owner: address(1), asset: address(1) }));
    assert!(address(1).same_key(&address(1)));
    assert!(!address(1).same_key(&address(2)));
}

#[test]
fn transfer_moves_an_amount() {
    let mut table: Table<Address, u64> = Table::new();
    assert_eq!(credit(&mut table, &address(1), 100), Ok(()));
    assert_eq!(transfer(&mut table, &address(1), &address(2), 30), Ok(()));
    assert_eq!(amount_of(&table, &address(1)), 70);
    assert_eq!(amount_of(&table, &address(2)), 30);
    assert_eq!(amount_of(&table, &address(3)), 0);
}

#[test]
fn transfer_refuses_a_shortfall() {
    let mut table: Table<Address, u64> = Table::new();
    credit(&mut table, &address(1), 100).unwrap();
    assert_eq!(
        transfer(&mut table, &address(1), &address(2), 101),
        Err(TransferError::Shortfall)
    );
    assert_eq!(transfer(&mut table, &address(3), &address(2), 1), Err(TransferError::Shortfall));
    assert_eq!(amount_of(&table, &address(1)), 100);
    assert!(!table.contains(&address(2)));
    assert!(!table.contains(&address(3)));
}

#[test]
fn transfer_refuses_an_overflow() {
    let mut table: Table<Address, u64> = Table::new();
    credit(&mut table, &address(1), 100).unwrap();
    credit(&mut table, &address(2), u64::MAX - 5).unwrap();
    assert_eq!(transfer(&mut table, &address(1), &address(2), 6), Err(TransferError::Overflow));
    assert_eq!(amount_of(&table, &address(1)), 100);
    assert_eq!(amount_of(&table, &address(2)), u64::MAX - 5);
    assert_eq!(transfer(&mut table, &address(1), &address(2), 5), Ok(()));
    assert_eq!(amount_of(&table, &address(2)), u64::MAX);
}

#[test]
fn transfer_to_oneself_changes_nothing() {
    let mut table: Table<Address, u64> = Table::new();
    credit(&mut table, &address(1), u64::MAX).unwrap();
    assert_eq!(transfer(&mut table, &address(1), &address(1), u64::MAX), Ok(()));
    assert_eq!(amount_of(&table, &address(1)), u64::MAX);
    assert_eq!(transfer(&mut table, &address(2), &address(2), 1), Err(TransferError::Shortfall));
}

#[test]
fn credit_refuses_an_overflow() {
    let mut table: Table<Address, u64> = Table::new();
    assert_eq!(credit(&mut table, &address(1), u64::MAX), Ok(()));
    assert_eq!(credit(&mut table, &address(1), 1), Err(TransferError::Overflow));
    assert_eq!(credit(&mut table, &address(1), 0), Ok(()));
    assert_eq!(amount_of(&table, &address(1)), u64::MAX);
}
