//! Price resolution: fixed round-trip, tier boundaries, gap behaviour
//! and configuration validation.

use xnames::common::{to_egld, to_wei};
use xnames::price_oracle::{PriceItem, PriceOracleContract, PriceType};
use xnames::ContractError;

const WEI: u128 = 1_000_000_000_000_000_000;

#[test]
fn init_is_fixed_zero() {
    let p = PriceOracleContract::init();
    assert_eq!(p.get_price(0), Ok(0));
    assert_eq!(p.get_price(200), Ok(0));
}

#[test]
fn fixed_price_round_trip() {
    let mut p = PriceOracleContract::init();
    assert_eq!(p.set_price(PriceType::Fixed, 3, Vec::new(), 0), Ok(()));
    assert_eq!(p.get_price(0), Ok(3 * WEI));
    assert_eq!(p.get_price(4), Ok(3 * WEI));
    assert_eq!(p.get_price(255), Ok(3 * WEI));
}

#[test]
fn tier_boundaries_and_gap() {
    let mut p = PriceOracleContract::init();
    let tiers = vec![
        PriceItem { price: 10, length: 3 },
        PriceItem { price: 20, length: 5 },
    ];
    assert_eq!(p.set_price(PriceType::Dynamic, 5, tiers, 50), Ok(()));
    assert_eq!(p.get_price(2), Ok(5)); // below the first tier: floor price
    assert_eq!(p.get_price(3), Ok(10)); // exact match on the first tier
    assert_eq!(p.get_price(4), Ok(50)); // gap inside the range: ceiling price
    assert_eq!(p.get_price(5), Ok(20)); // exact match on the last tier
    assert_eq!(p.get_price(6), Ok(50)); // above the last tier: ceiling price
}

#[test]
fn dynamic_prices_are_stored_unscaled() {
    let mut p = PriceOracleContract::init();
    let tiers = vec![PriceItem { price: 10, length: 3 }];
    assert_eq!(p.set_price(PriceType::Dynamic, 5, tiers, 50), Ok(()));
    // unlike the fixed price, dynamic prices are not scaled to base units
    assert_eq!(p.get_price(1), Ok(5));
    assert_eq!(p.get_price(200), Ok(50));
}

#[test]
fn dynamic_rejects_zero_floor_price() {
    let mut p = PriceOracleContract::init();
    assert_eq!(p.set_price(PriceType::Fixed, 7, Vec::new(), 0), Ok(()));
    let tiers = vec![PriceItem { price: 10, length: 3 }];
    assert_eq!(
        p.set_price(PriceType::Dynamic, 0, tiers, 50),
        Err(ContractError::InvalidPrice)
    );
    // the rejected update left the previous configuration in place
    assert_eq!(p.get_price(3), Ok(7 * WEI));
}

#[test]
fn dynamic_rejects_empty_tier_table() {
    let mut p = PriceOracleContract::init();
    assert_eq!(
        p.set_price(PriceType::Dynamic, 5, Vec::new(), 50),
        Err(ContractError::EmptyTierTable)
    );
    assert_eq!(p.get_price(3), Ok(0));
}

#[test]
fn zero_first_tier_price_is_an_invariant_violation() {
    let mut p = PriceOracleContract::init();
    let tiers = vec![
        PriceItem { price: 0, length: 3 },
        PriceItem { price: 20, length: 5 },
    ];
    assert_eq!(p.set_price(PriceType::Dynamic, 5, tiers, 50), Ok(()));
    assert_eq!(p.get_price(4), Err(ContractError::InvariantViolation));
}

#[test]
fn unit_conversions() {
    assert_eq!(to_wei(3), 3 * WEI);
    assert_eq!(to_wei(0), 0);
    assert_eq!(to_egld(3 * WEI), 3);
    // down-scaling drops the remainder
    assert_eq!(to_egld(3 * WEI + WEI - 1), 3);
}
