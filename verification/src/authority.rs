//! Roles and authority checks.

use vstd::prelude::*;
use crate::pubkey::Pubkey;

verus! {

/// Roles that an authority record can carry.
#[derive(Clone, Copy, Debug, PartialEq, Eq, Structural)]
#[non_exhaustive]
pub enum Role {
    /// Global administrator with full control.
    Admin,
    /// Operational role for day-to-day actions.
    Ops,
    /// Treasury operator for fund movements.
    Treasury,
}

/// Seed prefix of the administrator role: `admin`.
pub const ADMIN_SEED: [u8; 5] = [97, 100, 109, 105, 110];

/// Seed prefix of the operations role: `ops`.
pub const OPS_SEED: [u8; 3] = [111, 112, 115];

/// Seed prefix of the treasury role: `treasury`.
pub const TREASURY_SEED: [u8; 8] = [116, 114, 101, 97, 115, 117, 114, 121];

impl Role {
    /// The bytes that the addresses of this role's authority records are
    /// derived from.
    pub open spec fn seed(self) -> Seq<u8> {
        match self {
            Role::Admin => seq![97u8, 100u8, 109u8, 105u8, 110u8],
            Role::Ops => seq![111u8, 112u8, 115u8],
            Role::Treasury => seq![116u8, 114u8, 101u8, 97u8, 115u8, 117u8, 114u8, 121u8],
        }
    }

    /// The seed prefix of the role: its name in lower-case ASCII.
    pub fn seed_prefix(&self) -> (prefix: &'static [u8])
        ensures
            prefix@ == self.seed(),
    {
        match self {
            Role::Admin => ADMIN_SEED.as_slice(),
            Role::Ops => OPS_SEED.as_slice(),
            Role::Treasury => TREASURY_SEED.as_slice(),
        }
    }
}

/// Errors of the authority checks.
#[derive(Clone, Copy, Debug, PartialEq, Eq, Structural)]
pub enum ErrorCode {
    /// The signer is not the required authority.
    UnauthorizedAuthority,
    /// Too few of the accounts signed.
    MultisigInsufficientApprovals,
}

/// A record that names the authority in charge of it.
pub trait HasAuthority {
    /// The authority responsible for administrative actions.
    fn authority(&self) -> &Pubkey;
}

/// Succeeds exactly when `actual` is the `expected` authority.
pub fn assert_signer_is(expected: &Pubkey, actual: &Pubkey) -> (r: Result<(), ErrorCode>)
    ensures
        match r {
            Ok(()) => *expected == *actual,
            Err(e) => e == ErrorCode::UnauthorizedAuthority && *expected != *actual,
        },
{
    if *expected == *actual {
        Ok(())
    } else {
        Err(ErrorCode::UnauthorizedAuthority)
    }
}

/// Succeeds exactly when the current slot has reached the guard slot.
pub fn assert_not_before_slot(current_slot: u64, guard_slot: u64) -> (r: Result<(), ErrorCode>)
    ensures
        match r {
            Ok(()) => current_slot >= guard_slot,
            Err(e) => e == ErrorCode::UnauthorizedAuthority && current_slot < guard_slot,
        },
{
    if current_slot >= guard_slot {
        Ok(())
    } else {
        Err(ErrorCode::UnauthorizedAuthority)
    }
}

/// Number of accounts among `flags` that signed.
pub open spec fn signer_count(flags: Seq<bool>) -> nat
    decreases flags.len(),
{
    if flags.len() == 0 {
        0
    } else {
        signer_count(flags.drop_last()) + if flags.last() {
            1nat
        } else {
            0nat
        }
    }
}

/// The approvals that a multisig check counts: the number of signers, as
/// an 8-bit number.
pub open spec fn approvals(flags: Seq<bool>) -> nat {
    signer_count(flags) % 256
}

/// Succeeds exactly when at least `min_signers` of the accounts signed;
/// `signed` says of each account whether it did.
pub fn assert_multisig(min_signers: u8, signed: &[bool]) -> (r: Result<(), ErrorCode>)
    ensures
        match r {
            Ok(()) => approvals(signed@) >= min_signers,
            Err(e) => e == ErrorCode::MultisigInsufficientApprovals && approvals(signed@)
                < min_signers,
        },
{
    let n = signed.len();
    let mut count: u8 = 0;
    let mut i: usize = 0;
    assert(signed@.take(0) =~= Seq::<bool>::empty());
    while i < n
        invariant
            i <= n,
            n == signed@.len(),
            count == approvals(signed@.take(i as int)),
        decreases n - i,
    {
        assert(signed@.take(i as int + 1).drop_last() =~= signed@.take(i as int));
        if signed[i] {
            count = if count == 255 {
                0
            } else {
                count + 1
            };
        }
        i += 1;
    }
    assert(signed@.take(n as int) =~= signed@);
    if count >= min_signers {
        Ok(())
    } else {
        Err(ErrorCode::MultisigInsufficientApprovals)
    }
}

} // verus!
