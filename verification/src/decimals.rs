//! Deterministic fixed-point decimals: an unsigned 128-bit integer that
//! stands for a value multiplied by `SCALE`. Every operation is checked and
//! fails rather than wraps.

use vstd::prelude::*;
use vstd::std_specs::convert::FromSpecImpl;

verus! {

/// Scaling factor of the fixed-point representation (nine decimal places).
pub const SCALE: u128 = 1_000_000_000u128;

/// A decimal operation left the representable range, or divided by zero.
#[derive(Clone, Copy, Debug, PartialEq, Eq, Structural)]
pub struct DecimalError;

/// Fixed-point decimal: the stored integer is the value times `SCALE`.
#[derive(Clone, Copy, Debug, PartialEq, Eq, Structural)]
pub struct Decimal(u128);

/// Sum of two scaled values, where it is representable.
pub open spec fn scaled_add(a: nat, b: nat) -> Option<nat> {
    if a + b <= u128::MAX {
        Some(a + b)
    } else {
        None
    }
}

/// Difference of two scaled values, where it is not negative.
pub open spec fn scaled_sub(a: nat, b: nat) -> Option<nat> {
    if b <= a {
        Some((a - b) as nat)
    } else {
        None
    }
}

/// Product of two scaled values, brought back to the scale by dividing by
/// `SCALE` (rounding down). It exists only where the intermediate product
/// is representable.
pub open spec fn scaled_mul(a: nat, b: nat) -> Option<nat> {
    if a * b <= u128::MAX {
        Some(a * b / (SCALE as nat))
    } else {
        None
    }
}

/// A scaled value times a plain integer factor.
pub open spec fn scaled_mul_int(a: nat, k: nat) -> Option<nat> {
    if a * k <= u128::MAX {
        Some(a * k)
    } else {
        None
    }
}

/// A scaled value divided by a plain integer, rounding down.
pub open spec fn scaled_div_int(a: nat, k: nat) -> Option<nat> {
    if k != 0 {
        Some(a / k)
    } else {
        None
    }
}

/// The scaled representation of a whole number.
pub open spec fn scaled_from_integer(n: nat) -> nat {
    n * (SCALE as nat)
}

/// The whole part of a scaled value (truncation toward zero), where it fits
/// in 64 bits.
pub open spec fn scaled_to_integer(a: nat) -> Option<nat> {
    if a / (SCALE as nat) <= u64::MAX {
        Some(a / (SCALE as nat))
    } else {
        None
    }
}

/// What a checked operation hands back for a given mathematical outcome.
pub open spec fn decimal_outcome(r: Result<Decimal, DecimalError>, expected: Option<nat>) -> bool {
    match r {
        Ok(d) => expected == Some(d@),
        Err(_) => expected is None,
    }
}

impl View for Decimal {
    type V = nat;

    /// The stored integer: the value times `SCALE`.
    closed spec fn view(&self) -> nat {
        self.0 as nat
    }
}

impl Decimal {
    /// Every decimal fits in 128 bits.
    pub proof fn lemma_view_bound(self)
        ensures
            self@ <= u128::MAX,
    {
    }

    /// Decimals with the same scaled integer are the same decimal.
    pub proof fn lemma_eq_by_view(a: Decimal, b: Decimal)
        ensures
            (a == b) <==> (a@ == b@),
    {
    }

    /// Decimal from a 64-bit integer that is already multiplied by `SCALE`.
    pub fn from_scaled(value: u64) -> (d: Self)
        ensures
            d@ == value,
    {
        Decimal(value as u128)
    }

    /// Decimal from a 128-bit integer that is already multiplied by `SCALE`.
    pub fn from_scaled_raw(value: u128) -> (d: Self)
        ensures
            d@ == value,
    {
        Decimal(value)
    }

    /// Decimal that stands for the whole number `value`.
    pub fn from_integer(value: u64) -> (d: Self)
        ensures
            d@ == scaled_from_integer(value as nat),
    {
        assert(value as u128 * SCALE <= u128::MAX) by (nonlinear_arith)
            requires
                value <= u64::MAX,
                SCALE == 1_000_000_000u128,
        ;
        Decimal(value as u128 * SCALE)
    }

    /// Checked addition.
    pub fn checked_add(self, other: Self) -> (r: Result<Self, DecimalError>)
        ensures
            decimal_outcome(r, scaled_add(self@, other@)),
    {
        match self.0.checked_add(other.0) {
            Some(v) => Ok(Decimal(v)),
            None => Err(DecimalError),
        }
    }

    /// Checked subtraction.
    pub fn checked_sub(self, other: Self) -> (r: Result<Self, DecimalError>)
        ensures
            decimal_outcome(r, scaled_sub(self@, other@)),
    {
        match self.0.checked_sub(other.0) {
            Some(v) => Ok(Decimal(v)),
            None => Err(DecimalError),
        }
    }

    /// Checked multiplication of two decimals; the product is divided by
    /// `SCALE` so that it is again a scaled value.
    pub fn checked_mul(self, other: Self) -> (r: Result<Self, DecimalError>)
        ensures
            decimal_outcome(r, scaled_mul(self@, other@)),
    {
        match self.0.checked_mul(other.0) {
            Some(v) => Ok(Decimal(v / SCALE)),
            None => Err(DecimalError),
        }
    }

    /// Checked multiplication by a plain integer.
    pub fn mul_int(self, rhs: u64) -> (r: Result<Self, DecimalError>)
        ensures
            decimal_outcome(r, scaled_mul_int(self@, rhs as nat)),
    {
        match self.0.checked_mul(rhs as u128) {
            Some(v) => Ok(Decimal(v)),
            None => Err(DecimalError),
        }
    }

    /// Checked division by a plain integer, rounding down.
    pub fn div_int(self, rhs: u64) -> (r: Result<Self, DecimalError>)
        ensures
            decimal_outcome(r, scaled_div_int(self@, rhs as nat)),
    {
        if rhs == 0 {
            Err(DecimalError)
        } else {
            Ok(Decimal(self.0 / (rhs as u128)))
        }
    }

    /// The whole part of the decimal: the fraction is cut off, never rounded
    /// up. Fails where the whole part does not fit in 64 bits.
    pub fn to_u64(self) -> (r: Result<u64, DecimalError>)
        ensures
            match r {
                Ok(v) => scaled_to_integer(self@) == Some(v as nat),
                Err(_) => scaled_to_integer(self@) is None,
            },
    {
        let whole: u128 = self.0 / SCALE;
        if whole <= u64::MAX as u128 {
            Ok(whole as u64)
        } else {
            Err(DecimalError)
        }
    }

    /// The stored integer: the value times `SCALE`.
    pub fn as_scaled(&self) -> (raw: u128)
        ensures
            raw == self@,
    {
        self.0
    }

    /// Decimal for a signed whole number; there is none for a negative one.
    pub fn from_i64(n: i64) -> (r: Option<Self>)
        ensures
            match r {
                Some(d) => n >= 0 && d@ == scaled_from_integer(n as nat),
                None => n < 0,
            },
    {
        if n < 0 {
            None
        } else {
            Some(Self::from_integer(n as u64))
        }
    }

    /// Decimal for an unsigned whole number.
    pub fn from_u64(n: u64) -> (r: Option<Self>)
        ensures
            r matches Some(d) && d@ == scaled_from_integer(n as nat),
    {
        Some(Self::from_integer(n))
    }

    /// The whole part as a signed integer, where it fits in 63 bits.
    pub fn to_i64(&self) -> (r: Option<i64>)
        ensures
            match r {
                Some(v) => v >= 0 && self@ / (SCALE as nat) == v,
                None => self@ / (SCALE as nat) > i64::MAX,
            },
    {
        match self.to_u64() {
            Ok(v) => {
                if v <= i64::MAX as u64 {
                    Some(v as i64)
                } else {
                    None
                }
            },
            Err(_) => None,
        }
    }
}

impl From<u64> for Decimal {
    /// The decimal that stands for the whole number `value`.
    fn from(value: u64) -> (d: Self)
        ensures
            d@ == scaled_from_integer(value as nat),
    {
        Self::from_integer(value)
    }
}

impl FromSpecImpl<u64> for Decimal {
    open spec fn obeys_from_spec() -> bool {
        true
    }

    closed spec fn from_spec(value: u64) -> Self {
        Decimal((value * SCALE) as u128)
    }
}

impl Default for Decimal {
    /// Zero.
    fn default() -> (d: Self)
        ensures
            d@ == 0,
    {
        Decimal(0)
    }
}

/// Whole number to decimal and back is the identity, for every 64-bit
/// whole number.
pub proof fn lemma_integer_round_trip(n: u64)
    ensures
        scaled_to_integer(scaled_from_integer(n as nat)) == Some(n as nat),
        scaled_from_integer(n as nat) <= u128::MAX,
{
    let s = SCALE as nat;
    assert((n as nat) * s / s == n as nat) by (nonlinear_arith)
        requires
            s == 1_000_000_000,
    ;
    assert((n as nat) * s <= u128::MAX) by (nonlinear_arith)
        requires
            s == 1_000_000_000,
            n <= u64::MAX,
    ;
}

/// Truncation never rounds up: the whole part, scaled again, is at most the
/// value, and misses it by less than one unit.
pub proof fn lemma_truncation_rounds_down(a: nat)
    ensures
        scaled_from_integer(a / (SCALE as nat)) <= a < scaled_from_integer(a / (SCALE as nat) + 1),
{
    let s = SCALE as nat;
    assert((a / s) * s <= a < (a / s + 1) * s) by (nonlinear_arith)
        requires
            s == 1_000_000_000,
    ;
}

/// A ratio in basis points (hundredths of a percent).
#[derive(Clone, Copy, Debug)]
pub struct DecimalRatio(pub u64);

/// Basis points in one whole.
pub const BPS_DENOMINATOR: u128 = 10_000u128;

impl DecimalRatio {
    /// `value` times the ratio, rounded down; fails where that does not fit
    /// in 64 bits.
    pub fn apply(&self, value: u64) -> (r: Result<u64, DecimalError>)
        ensures
            match r {
                Ok(v) => v == value * self.0 / 10_000,
                Err(_) => value * self.0 / 10_000 > u64::MAX,
            },
    {
        assert(value as u128 * self.0 as u128 <= u128::MAX) by (nonlinear_arith)
            requires
                value <= u64::MAX,
                self.0 <= u64::MAX,
        ;
        let scaled: u128 = value as u128 * self.0 as u128;
        let part: u128 = scaled / BPS_DENOMINATOR;
        if part <= u64::MAX as u128 {
            Ok(part as u64)
        } else {
            Err(DecimalError)
        }
    }
}

} // verus!
