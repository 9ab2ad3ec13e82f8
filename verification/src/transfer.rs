use crate::table::{Key, Table};
use vstd::prelude::*;

verus! {

/// Why an amount could not move.
#[derive(Clone, Copy, Debug, PartialEq, Eq, Structural)]
pub enum TransferError {
    /// The source holds less than the amount.
    Shortfall,
    /// The destination would hold more than 64 bits can count.
    Overflow,
}

/// The amount kept under `key`: nothing, where no amount is kept there.
pub open spec fn amount_at<K>(amounts: Map<K, u64>, key: K) -> u64 {
    if amounts.contains_key(key) {
        amounts[key]
    } else {
        0
    }
}

/// The amounts after `amount` has moved from `from` to `to`. A move from a
/// place to itself changes nothing, but the place must hold the amount.
pub open spec fn moved<K>(amounts: Map<K, u64>, from: K, to: K, amount: u64) -> Result<
    Map<K, u64>,
    TransferError,
> {
    if amount_at(amounts, from) < amount {
        Err(TransferError::Shortfall)
    } else if from == to {
        Ok(amounts)
    } else if amount_at(amounts, to) + amount > u64::MAX {
        Err(TransferError::Overflow)
    } else {
        Ok(
            amounts.insert(from, (amount_at(amounts, from) - amount) as u64).insert(
                to,
                (amount_at(amounts, to) + amount) as u64,
            ),
        )
    }
}

/// The amounts after `amount` has been added at `to` from outside.
pub open spec fn credited<K>(amounts: Map<K, u64>, to: K, amount: u64) -> Result<
    Map<K, u64>,
    TransferError,
> {
    if amount_at(amounts, to) + amount > u64::MAX {
        Err(TransferError::Overflow)
    } else {
        Ok(amounts.insert(to, (amount_at(amounts, to) + amount) as u64))
    }
}

/// The amount that `table` keeps under `key`.
pub fn amount_of<K: Key>(table: &Table<K, u64>, key: &K) -> (amount: u64)
    ensures
        amount == amount_at(table@, *key),
{
    match table.get(key) {
        Some(amount) => *amount,
        None => 0,
    }
}

/// Moves `amount` from `from` to `to`, or changes nothing.
pub fn transfer<K: Key>(table: &mut Table<K, u64>, from: &K, to: &K, amount: u64) -> (r: Result<
    (),
    TransferError,
>)
    ensures
        match moved(old(table)@, *from, *to, amount) {
            Ok(amounts) => r is Ok && final(table)@ == amounts,
            Err(e) => r == Err::<(), TransferError>(e) && final(table)@ == old(table)@,
        },
{
    let have = amount_of(table, from);
    if have < amount {
        return Err(TransferError::Shortfall);
    }
    if from.same_key(to) {
        return Ok(());
    }
    let sum = match amount_of(table, to).checked_add(amount) {
        Some(sum) => sum,
        None => {
            return Err(TransferError::Overflow);
        },
    };
    table.insert(*from, have - amount);
    table.insert(*to, sum);
    Ok(())
}

/// Adds `amount` at `to` from outside, or changes nothing.
pub fn credit<K: Key>(table: &mut Table<K, u64>, to: &K, amount: u64) -> (r: Result<
    (),
    TransferError,
>)
    ensures
        match credited(old(table)@, *to, amount) {
            Ok(amounts) => r is Ok && final(table)@ == amounts,
            Err(e) => r == Err::<(), TransferError>(e) && final(table)@ == old(table)@,
        },
{
    match amount_of(table, to).checked_add(amount) {
        Some(sum) => {
            table.insert(*to, sum);
            Ok(())
        },
        None => Err(TransferError::Overflow),
    }
}

} // verus!
