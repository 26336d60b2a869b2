//! Bonding curves: the unit price as a function of the supply sold so far.
//!
//! Only the linear curve is priced here. A trade is priced at the supply
//! *after* the trade, the price of that one point times the amount: an
//! endpoint rule, not an integral over the traded interval. On a buy the fee
//! is added on top; on a sell it is taken off.

use vstd::prelude::*;
use crate::decimals::Decimal;
use crate::decimals::SCALE;
use crate::fees::FeeConfig;

verus! {

/// Curve shapes that a sale can name.
#[derive(Clone, Copy, Debug, PartialEq, Eq, Structural)]
pub enum CurveKind {
    /// Fixed price sale.
    Fixed,
    /// Linear bonding curve.
    Linear,
    /// Exponential bonding curve.
    Exponential,
    /// Sigmoid curve for smoother ramps.
    Sigmoid,
}

impl Default for CurveKind {
    fn default() -> (kind: Self)
        ensures
            kind == CurveKind::Fixed,
    {
        CurveKind::Fixed
    }
}

/// Parameters of a bonding curve.
#[derive(Clone, Copy, Debug, PartialEq, Eq)]
pub struct CurveConfig {
    /// Shape of the curve.
    pub kind: CurveKind,
    /// Price at zero supply, scaled by `SCALE`.
    pub base_price: u64,
    /// Slope (linear curve), scaled by `SCALE`.
    pub k: u64,
    /// Inflection or midpoint parameter; the linear curve does not read it.
    pub x0: u64,
    /// Largest supply the curve prices.
    pub max_supply: u64,
    /// Fee taken on each trade.
    pub fee_config: FeeConfig,
}

/// What a trade on the curve costs or pays.
#[derive(Clone, Copy, Debug, PartialEq, Eq, Structural)]
pub struct CurveQuote {
    /// Amount of base tokens traded.
    pub base_amount: u64,
    /// Quote tokens paid (buy, fee included) or received (sell, fee taken off).
    pub quote_amount: u64,
    /// Fee in quote tokens.
    pub fee_amount: u64,
}

/// Errors of curve pricing.
#[derive(Clone, Copy, Debug, PartialEq, Eq, Structural)]
pub enum CurveError {
    /// The trade would take the supply above the curve's maximum.
    SupplyExceeded,
    /// More tokens are sold back than are in supply.
    InsufficientSupply,
    /// The arithmetic left the representable range.
    MathOverflow,
    /// The curve's parameters are not valid.
    InvalidConfig,
    /// The traded amount is zero.
    InvalidInput,
}

/// Unit price of the linear curve at a supply, scaled by `SCALE`:
/// base price plus slope times supply.
pub open spec fn linear_unit_price(cfg: CurveConfig, supply: nat) -> nat {
    cfg.base_price as nat + (cfg.k as nat) * supply
}

/// Price before fees of `amount` tokens at the unit price of `post_supply`,
/// scaled by `SCALE`.
pub open spec fn linear_raw_quote(cfg: CurveConfig, post_supply: nat, amount: nat) -> nat {
    linear_unit_price(cfg, post_supply) * amount
}

/// Whether the intermediate values of a linear quote all fit in 128 bits.
pub open spec fn linear_in_range(cfg: CurveConfig, post_supply: nat, amount: nat) -> bool {
    &&& (cfg.k as nat) * (post_supply * (SCALE as nat)) <= u128::MAX
    &&& linear_unit_price(cfg, post_supply) * (amount * (SCALE as nat)) <= u128::MAX
}

/// The quote for buying `amount` at the price of `post_supply`: raw price
/// plus fee, each cut down to whole quote tokens.
pub open spec fn linear_buy_at(cfg: CurveConfig, post_supply: nat, amount: nat) -> Option<
    CurveQuote,
> {
    let raw = linear_raw_quote(cfg, post_supply, amount);
    if !linear_in_range(cfg, post_supply, amount) {
        None
    } else {
        match cfg.fee_config.fee_of(raw) {
            None => None,
            Some(fee) => {
                let total = raw + fee;
                if total > u128::MAX || total / (SCALE as nat) > u64::MAX || fee / (SCALE as nat)
                    > u64::MAX {
                    None
                } else {
                    Some(
                        CurveQuote {
                            base_amount: amount as u64,
                            quote_amount: (total / (SCALE as nat)) as u64,
                            fee_amount: (fee / (SCALE as nat)) as u64,
                        },
                    )
                }
            },
        }
    }
}

/// The quote for selling `amount` at the price of `post_supply`: raw price
/// less fee, each cut down to whole quote tokens.
pub open spec fn linear_sell_at(cfg: CurveConfig, post_supply: nat, amount: nat) -> Option<
    CurveQuote,
> {
    let raw = linear_raw_quote(cfg, post_supply, amount);
    if !linear_in_range(cfg, post_supply, amount) {
        None
    } else {
        match cfg.fee_config.fee_of(raw) {
            None => None,
            Some(fee) => {
                if fee > raw || (raw - fee) / (SCALE as int) > u64::MAX || fee / (SCALE as nat)
                    > u64::MAX {
                    None
                } else {
                    Some(
                        CurveQuote {
                            base_amount: amount as u64,
                            quote_amount: ((raw - fee) / (SCALE as int)) as u64,
                            fee_amount: (fee / (SCALE as nat)) as u64,
                        },
                    )
                }
            },
        }
    }
}

/// Buying `amount` from a linear curve that has sold `supply`.
pub open spec fn linear_buy(cfg: CurveConfig, supply: u64, amount: u64) -> Result<
    CurveQuote,
    CurveError,
> {
    if amount == 0 {
        Err(CurveError::InvalidInput)
    } else if supply + amount > cfg.max_supply {
        Err(CurveError::SupplyExceeded)
    } else {
        match linear_buy_at(cfg, (supply + amount) as nat, amount as nat) {
            Some(q) => Ok(q),
            None => Err(CurveError::MathOverflow),
        }
    }
}

/// Selling `amount` back to a linear curve that has sold `supply`.
pub open spec fn linear_sell(cfg: CurveConfig, supply: u64, amount: u64) -> Result<
    CurveQuote,
    CurveError,
> {
    if amount == 0 {
        Err(CurveError::InvalidInput)
    } else if amount > supply {
        Err(CurveError::InsufficientSupply)
    } else {
        match linear_sell_at(cfg, (supply - amount) as nat, amount as nat) {
            Some(q) => Ok(q),
            None => Err(CurveError::MathOverflow),
        }
    }
}

impl CurveConfig {
    /// The curve has a positive base price and a positive maximum supply.
    pub open spec fn valid(&self) -> bool {
        &&& self.max_supply > 0
        &&& self.base_price > 0
    }

    /// Checks that the parameters are valid.
    pub fn assert_valid(&self) -> (r: Result<(), CurveError>)
        ensures
            match r {
                Ok(()) => self.valid(),
                Err(e) => e == CurveError::InvalidConfig && !self.valid(),
            },
    {
        if !(self.max_supply > 0) {
            return Err(CurveError::InvalidConfig);
        }
        if !(self.base_price > 0) {
            return Err(CurveError::InvalidConfig);
        }
        Ok(())
    }
}

/// A curve that quotes trades.
pub trait PricingCurve {
    /// What buying `base_amount` costs when `supply` has been sold.
    spec fn buy_quote(&self, supply: u64, base_amount: u64) -> Result<CurveQuote, CurveError>;

    /// What selling `base_amount` back pays when `supply` has been sold.
    spec fn sell_quote(&self, supply: u64, base_amount: u64) -> Result<CurveQuote, CurveError>;

    /// Quotes a buy of `base_amount` tokens.
    fn quote_buy(&self, supply: u64, base_amount: u64) -> (r: Result<CurveQuote, CurveError>)
        ensures
            r == self.buy_quote(supply, base_amount),
    ;

    /// Quotes a sale of `base_amount` tokens back to the curve.
    fn quote_sell(&self, supply: u64, base_amount: u64) -> (r: Result<CurveQuote, CurveError>)
        ensures
            r == self.sell_quote(supply, base_amount),
    ;
}

/// Linear bonding curve over a validated configuration.
pub struct LinearCurve<'a> {
    config: &'a CurveConfig,
}

impl<'a> LinearCurve<'a> {
    /// The configuration that the curve prices with.
    pub closed spec fn config(&self) -> CurveConfig {
        *self.config
    }

    /// A linear curve over `config`, which must be valid.
    pub fn new(config: &'a CurveConfig) -> (r: Result<Self, CurveError>)
        ensures
            match r {
                Ok(curve) => config.valid() && curve.config() == *config,
                Err(e) => e == CurveError::InvalidConfig && !config.valid(),
            },
    {
        match config.assert_valid() {
            Ok(()) => Ok(LinearCurve { config }),
            Err(e) => Err(e),
        }
    }

    fn slope(&self) -> (d: Decimal)
        ensures
            d@ == self.config().k,
    {
        Decimal::from_scaled(self.config.k)
    }
}

/// Multiplying a scaled value by a scaled whole number and dividing by the
/// scale gives the plain product.
proof fn lemma_scaled_product(a: nat, n: nat)
    ensures
        a * (n * (SCALE as nat)) / (SCALE as nat) == a * n,
{
    let s = SCALE as nat;
    assert(a * (n * s) / s == a * n) by (nonlinear_arith)
        requires
            s == 1_000_000_000,
    {
        assert(a * (n * s) == (a * n) * s);
    }
}

/// A product that fits in 128 bits after scaling fits before it too.
proof fn lemma_unscaled_fits(a: nat, n: nat)
    requires
        a * (n * (SCALE as nat)) <= u128::MAX,
    ensures
        a * n <= u128::MAX,
        a * n * (SCALE as nat) <= u128::MAX,
{
    let s = SCALE as nat;
    assert(a * n <= a * (n * s) && a * n * s == a * (n * s)) by (nonlinear_arith)
        requires
            s == 1_000_000_000,
    {
        assert(a * (n * s) == (a * n) * s);
    }
}

impl<'a> PricingCurve for LinearCurve<'a> {
    open spec fn buy_quote(&self, supply: u64, base_amount: u64) -> Result<CurveQuote, CurveError> {
        linear_buy(self.config(), supply, base_amount)
    }

    open spec fn sell_quote(&self, supply: u64, base_amount: u64) -> Result<
        CurveQuote,
        CurveError,
    > {
        linear_sell(self.config(), supply, base_amount)
    }

    fn quote_buy(&self, supply: u64, base_amount: u64) -> (r: Result<CurveQuote, CurveError>) {
        if base_amount == 0 {
            return Err(CurveError::InvalidInput);
        }
        let post_supply: u64 = match supply.checked_add(base_amount) {
            Some(p) => p,
            None => { return Err(CurveError::SupplyExceeded); },
        };
        if post_supply > self.config.max_supply {
            return Err(CurveError::SupplyExceeded);
        }
        let ghost cfg = self.config();
        let base_amount_dec = Decimal::from_integer(base_amount);
        let post_dec = Decimal::from_integer(post_supply);
        proof {
            lemma_scaled_product(cfg.k as nat, post_supply as nat);
            lemma_scaled_product(
                linear_unit_price(cfg, post_supply as nat),
                base_amount as nat,
            );
        }
        let climb = match self.slope().checked_mul(post_dec) {
            Ok(d) => d,
            Err(_) => { return Err(CurveError::MathOverflow); },
        };
        proof {
            lemma_unscaled_fits(cfg.k as nat, post_supply as nat);
        }
        let price = match Decimal::from_scaled(self.config.base_price).checked_add(climb) {
            Ok(d) => d,
            Err(_) => { return Err(CurveError::MathOverflow); },
        };
        let quote_raw = match price.checked_mul(base_amount_dec) {
            Ok(d) => d,
            Err(_) => { return Err(CurveError::MathOverflow); },
        };
        let fee_amount = match self.config.fee_config.apply(quote_raw) {
            Ok(d) => d,
            Err(_) => { return Err(CurveError::MathOverflow); },
        };
        let total = match quote_raw.checked_add(fee_amount) {
            Ok(d) => d,
            Err(_) => { return Err(CurveError::MathOverflow); },
        };
        let quote_whole = match total.to_u64() {
            Ok(v) => v,
            Err(_) => { return Err(CurveError::MathOverflow); },
        };
        let fee_whole = match fee_amount.to_u64() {
            Ok(v) => v,
            Err(_) => { return Err(CurveError::MathOverflow); },
        };
        Ok(CurveQuote { base_amount, quote_amount: quote_whole, fee_amount: fee_whole })
    }

    fn quote_sell(&self, supply: u64, base_amount: u64) -> (r: Result<CurveQuote, CurveError>) {
        if base_amount == 0 {
            return Err(CurveError::InvalidInput);
        }
        if base_amount > supply {
            return Err(CurveError::InsufficientSupply);
        }
        let ghost cfg = self.config();
        let post_supply: u64 = supply - base_amount;
        let base_amount_dec = Decimal::from_integer(base_amount);
        let post_dec = Decimal::from_integer(post_supply);
        proof {
            lemma_scaled_product(cfg.k as nat, post_supply as nat);
            lemma_scaled_product(
                linear_unit_price(cfg, post_supply as nat),
                base_amount as nat,
            );
        }
        let climb = match self.slope().checked_mul(post_dec) {
            Ok(d) => d,
            Err(_) => { return Err(CurveError::MathOverflow); },
        };
        proof {
            lemma_unscaled_fits(cfg.k as nat, post_supply as nat);
        }
        let price = match Decimal::from_scaled(self.config.base_price).checked_add(climb) {
            Ok(d) => d,
            Err(_) => { return Err(CurveError::MathOverflow); },
        };
        let quote_raw = match price.checked_mul(base_amount_dec) {
            Ok(d) => d,
            Err(_) => { return Err(CurveError::MathOverflow); },
        };
        let fee_amount = match self.config.fee_config.apply(quote_raw) {
            Ok(d) => d,
            Err(_) => { return Err(CurveError::MathOverflow); },
        };
        let net = match quote_raw.checked_sub(fee_amount) {
            Ok(d) => d,
            Err(_) => { return Err(CurveError::MathOverflow); },
        };
        let quote_whole = match net.to_u64() {
            Ok(v) => v,
            Err(_) => { return Err(CurveError::MathOverflow); },
        };
        let fee_whole = match fee_amount.to_u64() {
            Ok(v) => v,
            Err(_) => { return Err(CurveError::MathOverflow); },
        };
        Ok(CurveQuote { base_amount, quote_amount: quote_whole, fee_amount: fee_whole })
    }
}

/// On the linear curve the unit price never falls as the supply grows.
pub proof fn lemma_unit_price_monotonic(cfg: CurveConfig, lower: nat, higher: nat)
    requires
        lower <= higher,
    ensures
        linear_unit_price(cfg, lower) <= linear_unit_price(cfg, higher),
{
    let k = cfg.k as nat;
    assert(k * lower <= k * higher) by (nonlinear_arith)
        requires
            lower <= higher,
    ;
}

/// Two buys of the same amount, both quoted: the one made at the higher
/// supply costs at least as much, in price and in fee.
pub proof fn lemma_buy_quote_monotonic(cfg: CurveConfig, lower: u64, higher: u64, amount: u64)
    requires
        lower <= higher,
        linear_buy(cfg, lower, amount) is Ok,
        linear_buy(cfg, higher, amount) is Ok,
    ensures
        linear_buy(cfg, lower, amount).unwrap().quote_amount <= linear_buy(
            cfg,
            higher,
            amount,
        ).unwrap().quote_amount,
        linear_buy(cfg, lower, amount).unwrap().fee_amount <= linear_buy(
            cfg,
            higher,
            amount,
        ).unwrap().fee_amount,
{
    let s = SCALE as nat;
    let a = amount as nat;
    let post_lo = (lower + amount) as nat;
    let post_hi = (higher + amount) as nat;
    lemma_unit_price_monotonic(cfg, post_lo, post_hi);
    let price_lo = linear_unit_price(cfg, post_lo);
    let price_hi = linear_unit_price(cfg, post_hi);
    let raw_lo = linear_raw_quote(cfg, post_lo, a);
    let raw_hi = linear_raw_quote(cfg, post_hi, a);
    assert(raw_lo <= raw_hi) by (nonlinear_arith)
        requires
            price_lo <= price_hi,
            raw_lo == price_lo * a,
            raw_hi == price_hi * a,
    ;
    crate::fees::lemma_fee_monotonic(cfg.fee_config, raw_lo, raw_hi);
    let fee_lo = cfg.fee_config.fee_of(raw_lo).unwrap();
    let fee_hi = cfg.fee_config.fee_of(raw_hi).unwrap();
    assert((raw_lo + fee_lo) / s <= (raw_hi + fee_hi) / s && fee_lo / s <= fee_hi / s)
        by (nonlinear_arith)
        requires
            raw_lo <= raw_hi,
            fee_lo <= fee_hi,
            s == 1_000_000_000,
    ;
}

} // verus!
