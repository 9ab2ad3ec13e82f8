use crate::error::MarketplaceError;
use vstd::prelude::*;

verus! {

/// One hundred percent, in basis points.
pub const BASIS_POINTS: u64 = 10_000;

/// The marketplace's share of a price: the price times the fee in basis
/// points, divided by ten thousand, rounded down.
pub open spec fn fee_amount(price: nat, fee_bps: nat) -> nat {
    price * fee_bps / 10_000
}

/// What is left of the price for the seller.
pub open spec fn seller_proceeds(price: nat, fee_bps: nat) -> int {
    price - fee_amount(price, fee_bps)
}

/// A price divided between the treasury and the seller.
#[derive(Clone, Copy, Debug, PartialEq, Eq, Structural)]
pub struct Split {
    pub fee: u64,
    pub proceeds: u64,
}

/// The split of `price` under `fee_bps`, in 64-bit arithmetic: refused where
/// the product leaves 64 bits or the fee would exceed the price.
pub open spec fn split_spec(price: u64, fee_bps: u16) -> Result<Split, MarketplaceError> {
    if price * fee_bps > u64::MAX {
        Err(MarketplaceError::ArithmeticOverflow)
    } else if fee_amount(price as nat, fee_bps as nat) > price {
        Err(MarketplaceError::ArithmeticOverflow)
    } else {
        Ok(
            Split {
                fee: fee_amount(price as nat, fee_bps as nat) as u64,
                proceeds: seller_proceeds(price as nat, fee_bps as nat) as u64,
            },
        )
    }
}

/// A fee of at most one hundred percent never exceeds the price, and fee and
/// proceeds together are the price.
pub proof fn law_split_conserves(price: nat, fee_bps: nat)
    requires
        fee_bps <= 10_000,
    ensures
        fee_amount(price, fee_bps) <= price,
        seller_proceeds(price, fee_bps) >= 0,
        fee_amount(price, fee_bps) + seller_proceeds(price, fee_bps) == price,
{
    assert(price * fee_bps <= price * 10_000) by (nonlinear_arith)
        requires
            fee_bps <= 10_000,
    ;
}

/// With a fee of at most one hundred percent, a split is refused only where
/// the product of price and fee leaves 64 bits.
pub proof fn law_split_succeeds(price: u64, fee_bps: u16)
    requires
        fee_bps <= 10_000,
        price * fee_bps <= u64::MAX,
    ensures
        split_spec(price, fee_bps) is Ok,
        split_spec(price, fee_bps)->Ok_0.fee + split_spec(price, fee_bps)->Ok_0.proceeds == price,
{
    law_split_conserves(price as nat, fee_bps as nat);
}

/// Divides `price` between the treasury and the seller.
pub fn split_payment(price: u64, fee_bps: u16) -> (r: Result<Split, MarketplaceError>)
    ensures
        r == split_spec(price, fee_bps),
        r matches Ok(s) ==> s.fee + s.proceeds == price,
{
    let product = match price.checked_mul(fee_bps as u64) {
        Some(p) => p,
        None => {
            return Err(MarketplaceError::ArithmeticOverflow);
        },
    };
    let fee = match product.checked_div(BASIS_POINTS) {
        Some(f) => f,
        None => {
            return Err(MarketplaceError::ArithmeticError);
        },
    };
    match price.checked_sub(fee) {
        Some(proceeds) => Ok(Split { fee, proceeds }),
        None => Err(MarketplaceError::ArithmeticOverflow),
    }
}

} // verus!
