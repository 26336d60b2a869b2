use keystone_vertex::curve::{
    CurveConfig, CurveError, CurveKind, CurveQuote, LinearCurve, PricingCurve,
};
use keystone_vertex::decimals::{Decimal, DecimalError};
use keystone_vertex::fees::{FeeConfig, FeeError};
use keystone_vertex::pubkey::Pubkey;

fn cfg(base_price: u64, k: u64, max_supply: u64) -> CurveConfig {
    CurveConfig {
        kind: CurveKind::Linear,
        base_price,
        k,
        x0: 0,
        max_supply,
        fee_config: FeeConfig { numerator: 0, denominator: 1, fee_vault: Pubkey::default() },
    }
}

#[test]
fn fee_config_rejects_zero_denominator_and_more_than_half() {
    assert_eq!(FeeConfig::new(1, 0, Pubkey::default()), Err(FeeError::InvalidFee));
    assert_eq!(FeeConfig::new(0, 0, Pubkey::default()), Err(FeeError::InvalidFee));
    assert_eq!(FeeConfig::new(51, 100, Pubkey::default()), Err(FeeError::InvalidFee));
    assert_eq!(FeeConfig::new(2, 3, Pubkey::default()), Err(FeeError::InvalidFee));
    let half = FeeConfig::new(50, 100, Pubkey::default()).unwrap();
    assert_eq!(half.numerator, 50);
    assert_eq!(half.denominator, 100);
    assert!(FeeConfig::new(1, 3, Pubkey::default()).is_ok());
}

#[test]
fn fee_apply_is_proportional_and_rounds_down() {
    let fee = FeeConfig::new(30, 10_000, Pubkey::default()).unwrap();
    assert!(fee.is_enabled());
    assert_eq!(fee.apply(Decimal::from_integer(1_000)), Ok(Decimal::from_integer(3)));
    assert_eq!(fee.apply(Decimal::from_scaled(333)), Ok(Decimal::from_scaled(0)));
    assert_eq!(fee.apply(Decimal::from_scaled(334)), Ok(Decimal::from_scaled(1)));
    assert_eq!(fee.apply(Decimal::from_scaled_raw(u128::MAX)), Err(DecimalError));
}

#[test]
fn fee_apply_zero_numerator_is_zero() {
    let fee = FeeConfig::new(0, 10_000, Pubkey::default()).unwrap();
    assert!(!fee.is_enabled());
    assert_eq!(fee.apply(Decimal::from_scaled_raw(u128::MAX)), Ok(Decimal::from_scaled(0)));
    // the fast path does not look at the denominator
    let odd = FeeConfig { numerator: 0, denominator: 0, fee_vault: Pubkey::default() };
    assert_eq!(odd.apply(Decimal::from_integer(5)), Ok(Decimal::from_scaled(0)));
}

#[test]
fn fee_apply_zero_denominator_fails() {
    let odd = FeeConfig { numerator: 1, denominator: 0, fee_vault: Pubkey::default() };
    assert_eq!(odd.apply(Decimal::from_integer(5)), Err(DecimalError));
}

#[test]
fn curve_config_validation() {
    assert_eq!(cfg(1, 0, 1).assert_valid(), Ok(()));
    assert_eq!(cfg(0, 0, 1).assert_valid(), Err(CurveError::InvalidConfig));
    assert_eq!(cfg(1, 0, 0).assert_valid(), Err(CurveError::InvalidConfig));
    assert!(LinearCurve::new(&cfg(0, 0, 1)).is_err());
    assert_eq!(CurveKind::default(), CurveKind::Fixed);
}

#[test]
fn linear_buy_prices_at_post_trade_supply() {
    // price = 1.0 + 0.005 * (50_000 + 1_000) = 256.0 ; quote = 256 * 1_000
    let c = cfg(1_000_000_000, 5_000_000, 1_000_000);
    let lin = LinearCurve::new(&c).unwrap();
    assert_eq!(
        lin.quote_buy(50_000, 1_000),
        Ok(CurveQuote { base_amount: 1_000, quote_amount: 256_000, fee_amount: 0 })
    );
}

#[test]
fn linear_sell_prices_at_post_trade_supply() {
    // price = 1.0 + 0.005 * (50_000 - 1_000) = 246.0 ; quote = 246 * 1_000
    let c = cfg(1_000_000_000, 5_000_000, 1_000_000);
    let lin = LinearCurve::new(&c).unwrap();
    assert_eq!(
        lin.quote_sell(50_000, 1_000),
        Ok(CurveQuote { base_amount: 1_000, quote_amount: 246_000, fee_amount: 0 })
    );
}

#[test]
fn buy_adds_fee_and_sell_takes_it_off() {
    let mut c = cfg(1_000_000_000, 0, 1_000_000);
    c.fee_config = FeeConfig::new(30, 10_000, Pubkey::default()).unwrap();
    let lin = LinearCurve::new(&c).unwrap();
    assert_eq!(
        lin.quote_buy(0, 1_000),
        Ok(CurveQuote { base_amount: 1_000, quote_amount: 1_003, fee_amount: 3 })
    );
    assert_eq!(
        lin.quote_sell(1_000, 1_000),
        Ok(CurveQuote { base_amount: 1_000, quote_amount: 997, fee_amount: 3 })
    );
}

#[test]
fn quote_components_are_truncated_separately() {
    // raw = 1.5 * 1 = 1.5 ; fee = 0.75 ; total 2.25 -> 2, fee -> 0
    let mut c = cfg(1_500_000_000, 0, 10);
    c.fee_config = FeeConfig::new(1, 2, Pubkey::default()).unwrap();
    let lin = LinearCurve::new(&c).unwrap();
    assert_eq!(
        lin.quote_buy(0, 1),
        Ok(CurveQuote { base_amount: 1, quote_amount: 2, fee_amount: 0 })
    );
    assert_eq!(
        lin.quote_sell(1, 1),
        Ok(CurveQuote { base_amount: 1, quote_amount: 0, fee_amount: 0 })
    );
}

#[test]
fn linear_rejects_zero_amount() {
    let c = cfg(1_000_000_000, 1, 100);
    let lin = LinearCurve::new(&c).unwrap();
    assert_eq!(lin.quote_buy(0, 0), Err(CurveError::InvalidInput));
    assert_eq!(lin.quote_sell(10, 0), Err(CurveError::InvalidInput));
}

#[test]
fn linear_buy_respects_max_supply() {
    let c = cfg(1_000_000_000, 1, 100);
    let lin = LinearCurve::new(&c).unwrap();
    assert!(lin.quote_buy(90, 10).is_ok());
    assert_eq!(lin.quote_buy(90, 11), Err(CurveError::SupplyExceeded));
    assert_eq!(lin.quote_buy(u64::MAX, 1), Err(CurveError::SupplyExceeded));
    let open = cfg(1, 0, u64::MAX);
    let lin = LinearCurve::new(&open).unwrap();
    assert_eq!(lin.quote_buy(u64::MAX, 1), Err(CurveError::SupplyExceeded));
}

#[test]
fn linear_sell_respects_supply() {
    let c = cfg(1_000_000_000, 1, 100);
    let lin = LinearCurve::new(&c).unwrap();
    assert!(lin.quote_sell(10, 10).is_ok());
    assert_eq!(lin.quote_sell(10, 11), Err(CurveError::InsufficientSupply));
}

#[test]
fn linear_overflow_is_an_error() {
    let c = cfg(u64::MAX, u64::MAX, u64::MAX);
    let lin = LinearCurve::new(&c).unwrap();
    assert_eq!(lin.quote_buy(u64::MAX - 1, 1), Err(CurveError::MathOverflow));
    // the whole part of the quote must fit in 64 bits
    let c = cfg(u64::MAX, 0, u64::MAX);
    let lin = LinearCurve::new(&c).unwrap();
    assert_eq!(lin.quote_buy(0, 1_000_000_000_000), Err(CurveError::MathOverflow));
}

#[test]
fn linear_price_monotonic() {
    for &(supply, amount, base, k) in &[
        (0u64, 1u64, 1u64, 0u64),
        (10, 5, 1_000, 999),
        (999_999, 9_999, 999_999, 999),
        (500_000, 1, 1, 1),
        (123_456, 7_890, 55_555, 17),
    ] {
        let c = cfg(base, k, u64::MAX);
        let lin = LinearCurve::new(&c).unwrap();
        let q1 = lin.quote_buy(supply, amount).unwrap();
        let q2 = lin.quote_buy(supply + amount, amount).unwrap();
        assert!(q2.quote_amount >= q1.quote_amount);
    }
}

#[test]
fn quote_at_higher_supply_is_not_lower() {
    let c = cfg(1_000_000_000, 5_000_000, 1_000_000);
    let lin = LinearCurve::new(&c).unwrap();
    let low = lin.quote_buy(50_000, 1_000).unwrap();
    let high = lin.quote_buy(51_000, 1_000).unwrap();
    assert!(low.quote_amount <= high.quote_amount);
    assert_eq!(low.quote_amount, 256_000);
    assert_eq!(high.quote_amount, 261_000);
    // flat curve: equal
    let flat = cfg(1_000_000_000, 0, 1_000_000);
    let lin = LinearCurve::new(&flat).unwrap();
    assert_eq!(
        lin.quote_buy(50_000, 1_000).unwrap().quote_amount,
        lin.quote_buy(51_000, 1_000).unwrap().quote_amount
    );
}

#[test]
fn quote_buy_always_positive() {
    for base_price in [1_000_000_000u64, 5_000_000_000, 9_999_999_999] {
        for amount in [1u64, 500, 999] {
            let config = CurveConfig {
                kind: CurveKind::Linear,
                base_price,
                k: 10_000,
                x0: 0,
                max_supply: 1_000_000,
                fee_config: FeeConfig::new(50, 10_000, Pubkey::default()).unwrap(),
            };
            let curve = LinearCurve::new(&config).unwrap();
            let quote = curve.quote_buy(10_000, amount).unwrap();
            assert!(quote.quote_amount > 0);
        }
    }
}
