use marketplace::error::MarketplaceError;
use marketplace::fees::{split_payment, Split, BASIS_POINTS};

#[test]
fn fee_of_two_and_a_half_percent() {
    assert_eq!(
        split_payment(1_000_000, 250),
        Ok(Split { fee: 25_000, proceeds: 975_000 })
    );
}

#[test]
fn fee_rounds_down_to_nothing() {
    assert_eq!(split_payment(3, 1), Ok(Split { fee: 0, proceeds: 3 }));
}

#[test]
fn fee_rounds_down_between_units() {
    // 9_999 * 333 = 3_329_667; a ten-thousandth of it is 332.9667.
    assert_eq!(split_payment(9_999, 333), Ok(Split { fee: 332, proceeds: 9_667 }));
}

#[test]
fn no_fee_leaves_the_whole_price() {
    assert_eq!(split_payment(777, 0), Ok(Split { fee: 0, proceeds: 777 }));
    assert_eq!(split_payment(0, 10_000), Ok(Split { fee: 0, proceeds: 0 }));
}

#[test]
fn full_fee_leaves_nothing() {
    assert_eq!(split_payment(777, 10_000), Ok(Split { fee: 777, proceeds: 0 }));
}

#[test]
fn fee_and_proceeds_make_up_the_price() {
    let prices = [0u64, 1, 2, 3, 9_999, 10_000, 10_001, 123_456_789, 1 << 40];
    let fees = [0u16, 1, 2, 250, 333, 5_000, 9_999, 10_000];
    for price in prices {
        for fee in fees {
            let split = split_payment(price, fee).unwrap();
            assert_eq!(split.fee as u128, price as u128 * fee as u128 / 10_000);
            assert_eq!(split.fee + split.proceeds, price);
            assert!(split.fee <= price);
        }
    }
}

#[test]
fn product_beyond_64_bits_is_refused() {
    assert_eq!(
        split_payment(1 << 62, 10_000),
        Err(MarketplaceError::ArithmeticOverflow)
    );
    assert_eq!(
        split_payment(u64::MAX, 2),
        Err(MarketplaceError::ArithmeticOverflow)
    );
}

#[test]
fn largest_product_that_fits_is_split() {
    let price = u64::MAX / 10_000;
    assert_eq!(
        split_payment(price, 10_000),
        Ok(Split { fee: price, proceeds: 0 })
    );
    assert_eq!(
        split_payment(price + 1, 10_000),
        Err(MarketplaceError::ArithmeticOverflow)
    );
}

#[test]
fn fee_above_the_price_is_refused() {
    assert_eq!(
        split_payment(10_000, 10_001),
        Err(MarketplaceError::ArithmeticOverflow)
    );
    assert_eq!(
        split_payment(10_000, 20_000),
        Err(MarketplaceError::ArithmeticOverflow)
    );
    // A hundredth of a unit too much is lost in rounding down.
    assert_eq!(split_payment(100, 10_001), Ok(Split { fee: 100, proceeds: 0 }));
}

#[test]
fn basis_points_are_ten_thousand() {
    assert_eq!(BASIS_POINTS, 10_000);
}
