//! Constant-product pool: a swap pays out what keeps the product of the
//! two reserves, after the fee is taken off what comes in.

use vstd::prelude::*;
use crate::curve::CurveError;
use crate::decimals::scaled_from_integer;
use crate::decimals::Decimal;
use crate::decimals::SCALE;
use crate::errors::CommonError;
use crate::errors::VertexError;
use crate::fees::FeeConfig;
use crate::pubkey::Pubkey;

verus! {

/// Errors of the pool.
#[derive(Clone, Copy, Debug, PartialEq, Eq, Structural)]
pub enum AmmError {
    /// The pool was initialised before.
    AlreadyInitialized,
    /// The pool is not initialised.
    Uninitialized,
    /// A reserve is empty.
    InvalidReserves,
    /// The swap pays less than the trader's minimum.
    SlippageExceeded,
    /// The fee vault is not the pool's.
    FeeVaultMismatch,
}

/// A pool's configuration.
#[derive(Clone, Copy, Debug)]
pub struct Pool {
    /// Bump of the pool signer's derived address.
    pub bump: u8,
    /// Vault of token A.
    pub token_a_vault: Pubkey,
    /// Vault of token B.
    pub token_b_vault: Pubkey,
    /// Mint of the liquidity token.
    pub lp_mint: Pubkey,
    /// Authority of the pool.
    pub authority: Pubkey,
    /// Protocol fee.
    pub fee_config: FeeConfig,
    /// Whether the pool has been initialised.
    pub initialized: bool,
}

/// The accounts that a pool is created over.
#[derive(Clone, Copy, Debug)]
pub struct PoolAccounts {
    /// Vault of token A.
    pub token_a_vault: Pubkey,
    /// Vault of token B.
    pub token_b_vault: Pubkey,
    /// Mint of the liquidity token.
    pub lp_mint: Pubkey,
    /// Authority of the pool.
    pub authority: Pubkey,
    /// Vault that collects the fees.
    pub fee_vault: Pubkey,
    /// Bump of the pool signer's derived address.
    pub bump: u8,
}

/// What a deposit of liquidity moves.
#[derive(Clone, Copy, Debug, PartialEq, Eq, Structural)]
pub struct LiquidityAdded {
    /// Token A moved into the pool.
    pub amount_a: u64,
    /// Token B moved into the pool.
    pub amount_b: u64,
    /// Liquidity tokens minted to the depositor.
    pub lp_minted: u64,
}

/// What a withdrawal of liquidity moves.
#[derive(Clone, Copy, Debug, PartialEq, Eq, Structural)]
pub struct LiquidityRemoved {
    /// Liquidity tokens burned.
    pub lp_burned: u64,
    /// Token A moved out of the pool.
    pub amount_a: u64,
    /// Token B moved out of the pool.
    pub amount_b: u64,
}

/// The fee on `amount_in` whole tokens, in whole tokens, or the reason
/// there is none.
pub open spec fn swap_fee(amount_in: u64, fee_config: FeeConfig) -> Result<u64, VertexError> {
    match fee_config.fee_of(scaled_from_integer(amount_in as nat)) {
        None => Err(VertexError::Curve(CurveError::MathOverflow)),
        Some(fee) => if fee / (SCALE as nat) > u64::MAX {
            Err(VertexError::Common(CommonError::ArithmeticOverflow))
        } else {
            Ok((fee / (SCALE as nat)) as u64)
        },
    }
}

/// What a swap of `amount_in` pays out of `reserve_out`: the reserve less
/// the product of the reserves divided by the new reserve on the way in.
pub open spec fn swap_quote(
    amount_in: u64,
    reserve_in: u64,
    reserve_out: u64,
    fee_config: FeeConfig,
) -> Result<u64, VertexError> {
    if reserve_in == 0 || reserve_out == 0 {
        Err(VertexError::Amm(AmmError::InvalidReserves))
    } else {
        match swap_fee(amount_in, fee_config) {
            Err(e) => Err(e),
            Ok(fee) => {
                if fee > amount_in {
                    Err(VertexError::Common(CommonError::ArithmeticOverflow))
                } else if reserve_in + (amount_in - fee) > u64::MAX {
                    Err(VertexError::Common(CommonError::ArithmeticOverflow))
                } else {
                    Ok(
                        (reserve_out - (reserve_in as nat * reserve_out as nat) / ((reserve_in + (
                        amount_in - fee)) as nat)) as u64,
                    )
                }
            },
        }
    }
}

/// Quotes a swap on the constant product, the fee taken off what comes in.
pub fn cp_swap_quote(amount_in: u64, reserve_in: u64, reserve_out: u64, fee_config: &FeeConfig) -> (r:
    Result<u64, VertexError>)
    ensures
        r == swap_quote(amount_in, reserve_in, reserve_out, *fee_config),
        r matches Ok(output) ==> output <= reserve_out,
{
    if !(reserve_in > 0 && reserve_out > 0) {
        return Err(VertexError::Amm(AmmError::InvalidReserves));
    }
    assert(reserve_in as u128 * reserve_out as u128 <= u128::MAX) by (nonlinear_arith)
        requires
            reserve_in <= u64::MAX,
            reserve_out <= u64::MAX,
    ;
    let invariant: u128 = reserve_in as u128 * reserve_out as u128;
    let fee = match fee_config.apply(Decimal::from_integer(amount_in)) {
        Ok(d) => d,
        Err(_) => { return Err(VertexError::Curve(CurveError::MathOverflow)); },
    };
    let fee_whole = match fee.to_u64() {
        Ok(v) => v,
        Err(_) => { return Err(VertexError::Common(CommonError::ArithmeticOverflow)); },
    };
    let amount_in_less_fee = match amount_in.checked_sub(fee_whole) {
        Some(v) => v,
        None => { return Err(VertexError::Common(CommonError::ArithmeticOverflow)); },
    };
    let new_reserve_in = match reserve_in.checked_add(amount_in_less_fee) {
        Some(v) => v,
        None => { return Err(VertexError::Common(CommonError::ArithmeticOverflow)); },
    };
    let new_reserve_out: u128 = invariant / (new_reserve_in as u128);
    assert(new_reserve_out <= reserve_out) by (nonlinear_arith)
        requires
            new_reserve_out == (reserve_in as int * reserve_out as int) / (new_reserve_in as int),
            new_reserve_in >= reserve_in,
            reserve_in > 0,
    {
        assert(reserve_in as int * reserve_out as int <= new_reserve_in as int
            * reserve_out as int);
    }
    Ok(reserve_out - new_reserve_out as u64)
}

/// Creates a pool, unless it was initialised before or the fee is
/// refused.
pub fn init_pool(
    already_initialized: bool,
    accounts: &PoolAccounts,
    fee_numerator: u64,
    fee_denominator: u64,
) -> (r: Result<Pool, VertexError>)
    ensures
        match r {
            Ok(pool) => {
                &&& !already_initialized
                &&& pool.fee_config.wf()
                &&& pool == (
                    Pool {
                        bump: accounts.bump,
                        token_a_vault: accounts.token_a_vault,
                        token_b_vault: accounts.token_b_vault,
                        lp_mint: accounts.lp_mint,
                        authority: accounts.authority,
                        fee_config: FeeConfig {
                            numerator: fee_numerator,
                            denominator: fee_denominator,
                            fee_vault: accounts.fee_vault,
                        },
                        initialized: true,
                    }
                )
            },
            Err(e) => if already_initialized {
                e == VertexError::Amm(AmmError::AlreadyInitialized)
            } else {
                &&& e == VertexError::Fee(crate::fees::FeeError::InvalidFee)
                &&& fee_denominator == 0 || fee_numerator > fee_denominator / 2
            },
        },
{
    if already_initialized {
        return Err(VertexError::Amm(AmmError::AlreadyInitialized));
    }
    let fee_config = match FeeConfig::new(fee_numerator, fee_denominator, accounts.fee_vault) {
        Ok(c) => c,
        Err(e) => { return Err(VertexError::Fee(e)); },
    };
    Ok(
        Pool {
            bump: accounts.bump,
            token_a_vault: accounts.token_a_vault,
            token_b_vault: accounts.token_b_vault,
            lp_mint: accounts.lp_mint,
            authority: accounts.authority,
            fee_config,
            initialized: true,
        },
    )
}

/// Takes a deposit of both tokens: the liquidity tokens minted are the sum
/// of the two amounts, at most what 64 bits hold.
pub fn add_liquidity(pool: &Pool, amount_a: u64, amount_b: u64) -> (r: Result<
    LiquidityAdded,
    VertexError,
>)
    ensures
        match r {
            Ok(moved) => {
                &&& pool.initialized
                &&& moved.amount_a == amount_a
                &&& moved.amount_b == amount_b
                &&& moved.lp_minted == if amount_a + amount_b > u64::MAX {
                    u64::MAX as int
                } else {
                    amount_a + amount_b
                }
            },
            Err(e) => !pool.initialized && e == VertexError::Amm(AmmError::Uninitialized),
        },
{
    if !pool.initialized {
        return Err(VertexError::Amm(AmmError::Uninitialized));
    }
    let lp_amount = amount_a.saturating_add(amount_b);
    Ok(LiquidityAdded { amount_a, amount_b, lp_minted: lp_amount })
}

/// Takes liquidity tokens back: half of the amount, rounded down, is paid
/// in token A and the rest in token B.
pub fn remove_liquidity(pool: &Pool, lp_amount: u64) -> (r: Result<LiquidityRemoved, VertexError>)
    ensures
        match r {
            Ok(moved) => {
                &&& pool.initialized
                &&& moved.lp_burned == lp_amount
                &&& moved.amount_a == lp_amount / 2
                &&& moved.amount_b == lp_amount - lp_amount / 2
            },
            Err(e) => !pool.initialized && e == VertexError::Amm(AmmError::Uninitialized),
        },
{
    if !pool.initialized {
        return Err(VertexError::Amm(AmmError::Uninitialized));
    }
    let withdraw_a = lp_amount / 2;
    let withdraw_b = lp_amount - withdraw_a;
    Ok(LiquidityRemoved { lp_burned: lp_amount, amount_a: withdraw_a, amount_b: withdraw_b })
}

/// What a swap pays, with the vaults holding `source_balance` and
/// `destination_balance` before it: the reserve on the way in is the
/// source balance plus what comes in.
pub open spec fn swapped(
    pool: Pool,
    amount_in: u64,
    minimum_out: u64,
    source_balance: u64,
    destination_balance: u64,
) -> Result<u64, VertexError> {
    if !pool.initialized {
        Err(VertexError::Amm(AmmError::Uninitialized))
    } else if amount_in == 0 {
        Err(VertexError::Common(CommonError::ConstraintViolation))
    } else if source_balance + amount_in > u64::MAX {
        Err(VertexError::Common(CommonError::ArithmeticOverflow))
    } else {
        match swap_quote(
            amount_in,
            (source_balance + amount_in) as u64,
            destination_balance,
            pool.fee_config,
        ) {
            Err(e) => Err(e),
            Ok(out) => if out < minimum_out {
                Err(VertexError::Amm(AmmError::SlippageExceeded))
            } else {
                Ok(out)
            },
        }
    }
}

/// Swaps `amount_in` for at least `minimum_out`: on success `amount_in` is
/// to be moved into the source vault and the result out of the destination
/// vault.
pub fn swap(
    pool: &Pool,
    amount_in: u64,
    minimum_out: u64,
    source_balance: u64,
    destination_balance: u64,
) -> (r: Result<u64, VertexError>)
    ensures
        r == swapped(*pool, amount_in, minimum_out, source_balance, destination_balance),
        r matches Ok(out) ==> minimum_out <= out <= destination_balance,
{
    if !pool.initialized {
        return Err(VertexError::Amm(AmmError::Uninitialized));
    }
    if !(amount_in > 0) {
        return Err(VertexError::Common(CommonError::ConstraintViolation));
    }
    let reserve_in = match source_balance.checked_add(amount_in) {
        Some(v) => v,
        None => { return Err(VertexError::Common(CommonError::ArithmeticOverflow)); },
    };
    let reserve_out = destination_balance;
    let amount_out = match cp_swap_quote(amount_in, reserve_in, reserve_out, &pool.fee_config) {
        Ok(v) => v,
        Err(e) => { return Err(e); },
    };
    if !(amount_out >= minimum_out) {
        return Err(VertexError::Amm(AmmError::SlippageExceeded));
    }
    Ok(amount_out)
}

/// Collects the fees: the whole balance of the fee vault is to be moved
/// out, if the vault is the pool's.
pub fn collect_fees(pool: &Pool, fee_vault: &Pubkey, fee_vault_balance: u64) -> (r: Result<
    u64,
    VertexError,
>)
    ensures
        match r {
            Ok(amount) => pool.fee_config.fee_vault == *fee_vault && amount == fee_vault_balance,
            Err(e) => pool.fee_config.fee_vault != *fee_vault && e == VertexError::Amm(
                AmmError::FeeVaultMismatch,
            ),
        },
{
    if pool.fee_config.fee_vault != *fee_vault {
        return Err(VertexError::Amm(AmmError::FeeVaultMismatch));
    }
    Ok(fee_vault_balance)
}

} // verus!
