//! Errors shared by every part of the venue, and the one error type that
//! the operations hand back.

use vstd::prelude::*;
use crate::amm_cp::AmmError;
use crate::authority::ErrorCode;
use crate::curve::CurveError;
use crate::fees::FeeError;
use crate::launchpad::LaunchError;
use crate::launchpad::state::SaleStateError;
use crate::staking::StakingError;
use crate::vesting::VestingError;

verus! {

/// Errors that are not specific to one kind of sale.
#[derive(Clone, Copy, Debug, PartialEq, Eq, Structural)]
pub enum CommonError {
    /// A constraint on the arguments or the configuration does not hold.
    ConstraintViolation,
    /// A time lies outside the window it must lie in.
    TimestampInvalid,
    /// A membership proof does not lead to the committed root.
    InvalidMerkleProof,
    /// Checked arithmetic overflowed or underflowed.
    ArithmeticOverflow,
    /// The record was initialised before.
    AlreadyInitialized,
    /// The caller may not do this.
    Unauthorized,
}

/// Any error of the venue, by the part that raised it.
#[derive(Clone, Copy, Debug, PartialEq, Eq, Structural)]
pub enum VertexError {
    /// An error that is not specific to one kind of sale.
    Common(CommonError),
    /// An authority check failed.
    Authority(ErrorCode),
    /// A bonding curve could not price the trade.
    Curve(CurveError),
    /// A fee configuration was refused.
    Fee(FeeError),
    /// A sale operation was refused.
    Launch(LaunchError),
    /// The sale record could not take the change.
    SaleState(SaleStateError),
    /// A vesting operation was refused.
    Vesting(VestingError),
    /// A staking operation was refused.
    Staking(StakingError),
    /// A pool operation was refused.
    Amm(AmmError),
}

} // verus!
