//! Proportional fees: a fraction, numerator over denominator, and the
//! account that collects it.

use vstd::prelude::*;
use crate::decimals::Decimal;
use crate::decimals::DecimalError;
use crate::pubkey::Pubkey;

verus! {

/// Errors of fee configuration.
#[derive(Clone, Copy, Debug, PartialEq, Eq, Structural)]
pub enum FeeError {
    /// The denominator is zero, or the fraction is above one half.
    InvalidFee,
}

/// A fee fraction bound to the account that collects it.
#[derive(Clone, Copy, Debug, PartialEq, Eq)]
pub struct FeeConfig {
    /// Numerator of the fee fraction.
    pub numerator: u64,
    /// Denominator of the fee fraction.
    pub denominator: u64,
    /// Destination of the collected fees.
    pub fee_vault: Pubkey,
}

/// The fee on a scaled amount: none is charged for a zero numerator;
/// otherwise the amount times the fraction, rounded down. There is no
/// answer where the product leaves 128 bits or the denominator is zero.
pub open spec fn fee_on(numerator: nat, denominator: nat, amount: nat) -> Option<nat> {
    if numerator == 0 {
        Some(0)
    } else if amount * numerator > u128::MAX || denominator == 0 {
        None
    } else {
        Some(amount * numerator / denominator)
    }
}

impl FeeConfig {
    /// The fraction is a fraction (non-zero denominator) of at most one half.
    pub open spec fn wf(&self) -> bool {
        &&& self.denominator > 0
        &&& self.numerator <= self.denominator / 2
    }

    /// The fee this configuration takes on a scaled amount.
    pub open spec fn fee_of(&self, amount: nat) -> Option<nat> {
        fee_on(self.numerator as nat, self.denominator as nat, amount)
    }

    /// A fee configuration; the fraction must have a non-zero denominator
    /// and may not exceed one half.
    pub fn new(numerator: u64, denominator: u64, fee_vault: Pubkey) -> (r: Result<Self, FeeError>)
        ensures
            match r {
                Ok(cfg) => {
                    &&& cfg.wf()
                    &&& cfg == (FeeConfig { numerator, denominator, fee_vault })
                },
                Err(e) => {
                    &&& e == FeeError::InvalidFee
                    &&& denominator == 0 || numerator > denominator / 2
                },
            },
    {
        if denominator == 0 {
            return Err(FeeError::InvalidFee);
        }
        if numerator > denominator / 2 {
            return Err(FeeError::InvalidFee);
        }
        Ok(FeeConfig { numerator, denominator, fee_vault })
    }

    /// The fee on `amount`, as a decimal.
    pub fn apply(&self, amount: Decimal) -> (r: Result<Decimal, DecimalError>)
        ensures
            crate::decimals::decimal_outcome(r, self.fee_of(amount@)),
    {
        if self.numerator == 0 {
            return Ok(Decimal::from_scaled(0));
        }
        let scaled: u128 = amount.as_scaled();
        match scaled.checked_mul(self.numerator as u128) {
            None => Err(DecimalError),
            Some(product) => {
                if self.denominator == 0 {
                    Err(DecimalError)
                } else {
                    Ok(Decimal::from_scaled_raw(product / (self.denominator as u128)))
                }
            },
        }
    }

    /// Whether any fee is charged.
    pub fn is_enabled(&self) -> (enabled: bool)
        ensures
            enabled == (self.numerator > 0),
    {
        self.numerator > 0
    }
}

/// A well-formed configuration never takes more than half of the amount.
pub proof fn lemma_fee_at_most_half(cfg: FeeConfig, amount: nat)
    requires
        cfg.wf(),
        cfg.fee_of(amount) is Some,
    ensures
        2 * cfg.fee_of(amount).unwrap() <= amount,
{
    let n = cfg.numerator as nat;
    let d = cfg.denominator as nat;
    if n != 0 {
        assert(2 * (amount * n / d) <= amount) by (nonlinear_arith)
            requires
                d > 0,
                n <= d / 2,
        {
            assert(2 * n <= d);
            assert(amount * n / d * d <= amount * n);
            assert(2 * (amount * n / d) * d <= amount * (2 * n));
            assert(amount * (2 * n) <= amount * d);
        }
    }
}

/// The fee grows with the amount.
pub proof fn lemma_fee_monotonic(cfg: FeeConfig, a: nat, b: nat)
    requires
        a <= b,
        cfg.fee_of(a) is Some,
        cfg.fee_of(b) is Some,
    ensures
        cfg.fee_of(a).unwrap() <= cfg.fee_of(b).unwrap(),
{
    let n = cfg.numerator as nat;
    let d = cfg.denominator as nat;
    if n != 0 {
        assert(a * n / d <= b * n / d) by (nonlinear_arith)
            requires
                a <= b,
                d > 0,
        {
            assert(a * n <= b * n);
        }
    }
}

} // verus!
