//! Vesting schedules: nothing is vested up to the cliff, everything from
//! the end on, and in between the part of the total that the elapsed time
//! is of the whole duration.

use vstd::prelude::*;
use crate::errors::CommonError;
use crate::errors::VertexError;
use crate::keccak::append_bytes;
use crate::keccak::keccak256;
use crate::keccak::keccak_hash;
use crate::merkle::proof_holds;
use crate::merkle::verify_merkle_proof;
use crate::pubkey::Pubkey;
use crate::time::Clock;

verus! {

/// Errors of vesting.
#[derive(Clone, Copy, Debug, PartialEq, Eq, Structural)]
pub enum VestingError {
    /// The schedule was initialised before.
    AlreadyInitialized,
    /// More is claimed than is vested and unclaimed.
    AmountTooLarge,
    /// The schedule cannot be revoked.
    NotRevocable,
    /// The schedule has a root and no proof was given.
    MerkleRequired,
}

/// Arguments of a schedule's creation.
#[derive(Clone, Copy, Debug)]
pub struct CreateArgs {
    /// Who the tokens vest for.
    pub beneficiary: Pubkey,
    /// Start of the schedule.
    pub start: i64,
    /// Cliff: nothing is vested up to it.
    pub cliff: i64,
    /// End: everything is vested from it on.
    pub end: i64,
    /// Total amount that vests.
    pub total: u64,
    /// Whether the authority may revoke the schedule.
    pub revocable: bool,
    /// Root for delegated claims, if any.
    pub merkle_root: Option<[u8; 32]>,
}

/// A vesting schedule.
#[derive(Clone, Copy, Debug)]
pub struct VestingSchedule {
    /// Authority that owns the schedule.
    pub authority: Pubkey,
    /// Who the tokens vest for.
    pub beneficiary: Pubkey,
    /// Start of the schedule.
    pub start: i64,
    /// Cliff: nothing is vested up to it.
    pub cliff: i64,
    /// End: everything is vested from it on.
    pub end: i64,
    /// Total amount that vests.
    pub total: u64,
    /// Amount claimed so far.
    pub claimed: u64,
    /// Whether the authority may revoke the schedule.
    pub revocable: bool,
    /// Root for delegated claims, if any.
    pub merkle_root: Option<[u8; 32]>,
    /// Bump of the vault authority's derived address.
    pub bump: u8,
    /// Whether the schedule has been initialised.
    pub initialized: bool,
}

/// The amount vested at `timestamp` under the given times and total.
pub open spec fn vested_at(start: i64, cliff: i64, end: i64, total: u64, timestamp: i64) -> nat {
    if timestamp <= cliff {
        0
    } else if timestamp >= end {
        total as nat
    } else {
        (total as nat * ((timestamp - start) as nat)) / ((end - start) as nat)
    }
}

/// The leaf of a delegated claim: the digest of the beneficiary's address
/// followed by the claimed total in little-endian order.
pub open spec fn claim_leaf(beneficiary: Pubkey, amount: u64) -> Seq<u8> {
    keccak256(beneficiary@ + vstd::bytes::spec_u64_to_le_bytes(amount))
}

impl VestingSchedule {
    /// The times are in order: the schedule starts no later than its cliff
    /// and ends after its start.
    pub open spec fn well_formed(&self) -> bool {
        &&& self.start <= self.cliff
        &&& self.start < self.end
    }

    /// The amount vested at `timestamp`.
    pub open spec fn vested(&self, timestamp: i64) -> nat {
        vested_at(self.start, self.cliff, self.end, self.total, timestamp)
    }

    /// Whether the times are in order.
    pub fn is_well_formed(&self) -> (ok: bool)
        ensures
            ok == self.well_formed(),
    {
        self.start <= self.cliff && self.start < self.end
    }

    /// The amount vested at `timestamp`.
    pub fn vested_amount(&self, timestamp: i64) -> (r: Result<u64, VertexError>)
        requires
            self.well_formed(),
        ensures
            r == Ok::<u64, VertexError>(self.vested(timestamp) as u64),
            self.vested(timestamp) <= self.total,
    {
        if timestamp <= self.cliff {
            return Ok(0);
        }
        if timestamp >= self.end {
            return Ok(self.total);
        }
        let elapsed: u128 = (timestamp as i128 - self.start as i128) as u128;
        let duration: u128 = (self.end as i128 - self.start as i128) as u128;
        assert(self.total as u128 * elapsed <= u128::MAX) by (nonlinear_arith)
            requires
                self.total <= u64::MAX,
                elapsed <= u64::MAX,
        ;
        let product: u128 = self.total as u128 * elapsed;
        let vested: u128 = product / duration;
        assert(vested <= self.total) by (nonlinear_arith)
            requires
                vested == (self.total as int * elapsed as int) / (duration as int),
                elapsed <= duration,
                duration > 0,
        {
            assert(self.total as int * elapsed as int <= self.total as int * duration as int);
        }
        Ok(vested as u64)
    }
}

/// The vested amount never exceeds the total.
pub proof fn lemma_vested_within_total(schedule: VestingSchedule, timestamp: i64)
    requires
        schedule.well_formed(),
    ensures
        schedule.vested(timestamp) <= schedule.total,
{
    if schedule.cliff < timestamp < schedule.end {
        let total = schedule.total as nat;
        let elapsed = (timestamp - schedule.start) as nat;
        let duration = (schedule.end - schedule.start) as nat;
        assert(total * elapsed / duration <= total) by (nonlinear_arith)
            requires
                elapsed <= duration,
                duration > 0,
        {
            assert(total * elapsed <= total * duration);
        }
    }
}

/// The vested amount never falls as time goes on.
pub proof fn lemma_vested_monotonic(schedule: VestingSchedule, earlier: i64, later: i64)
    requires
        schedule.well_formed(),
        earlier <= later,
    ensures
        schedule.vested(earlier) <= schedule.vested(later),
{
    lemma_vested_within_total(schedule, earlier);
    lemma_vested_within_total(schedule, later);
    if schedule.cliff < earlier && later < schedule.end {
        let total = schedule.total as nat;
        let e1 = (earlier - schedule.start) as nat;
        let e2 = (later - schedule.start) as nat;
        let duration = (schedule.end - schedule.start) as nat;
        assert(total * e1 / duration <= total * e2 / duration) by (nonlinear_arith)
            requires
                e1 <= e2,
                duration > 0,
        {
            assert(total * e1 <= total * e2);
        }
    }
}

/// The leaf of a delegated claim.
pub fn merkle_leaf(beneficiary: Pubkey, amount: u64) -> (leaf: [u8; 32])
    ensures
        leaf@ == claim_leaf(beneficiary, amount),
{
    let mut data: Vec<u8> = Vec::with_capacity(40);
    append_bytes(&mut data, beneficiary.bytes.as_slice());
    let amount_bytes = vstd::bytes::u64_to_le_bytes(amount);
    append_bytes(&mut data, amount_bytes.as_slice());
    keccak_hash(data.as_slice())
}

/// The schedule that `create_schedule` sets up, or the reason it refuses.
pub open spec fn schedule_created(
    already_initialized: bool,
    authority: Pubkey,
    args: CreateArgs,
    bump: u8,
) -> Result<VestingSchedule, VertexError> {
    if already_initialized {
        Err(VertexError::Vesting(VestingError::AlreadyInitialized))
    } else if args.total == 0 {
        Err(VertexError::Common(CommonError::ConstraintViolation))
    } else if !(args.end > args.start) {
        Err(VertexError::Common(CommonError::TimestampInvalid))
    } else if !(args.cliff >= args.start) {
        Err(VertexError::Common(CommonError::TimestampInvalid))
    } else {
        Ok(
            VestingSchedule {
                authority,
                beneficiary: args.beneficiary,
                start: args.start,
                cliff: args.cliff,
                end: args.end,
                total: args.total,
                claimed: 0,
                revocable: args.revocable,
                merkle_root: args.merkle_root,
                bump,
                initialized: true,
            },
        )
    }
}

/// Sets up a schedule: something must vest, and the times must be in
/// order.
pub fn create_schedule(already_initialized: bool, authority: &Pubkey, args: CreateArgs, bump: u8) -> (r:
    Result<VestingSchedule, VertexError>)
    ensures
        r == schedule_created(already_initialized, *authority, args, bump),
        r matches Ok(schedule) ==> schedule.well_formed(),
{
    if already_initialized {
        return Err(VertexError::Vesting(VestingError::AlreadyInitialized));
    }
    if !(args.total > 0) {
        return Err(VertexError::Common(CommonError::ConstraintViolation));
    }
    if !(args.end > args.start) {
        return Err(VertexError::Common(CommonError::TimestampInvalid));
    }
    if !(args.cliff >= args.start) {
        return Err(VertexError::Common(CommonError::TimestampInvalid));
    }
    Ok(
        VestingSchedule {
            authority: *authority,
            beneficiary: args.beneficiary,
            start: args.start,
            cliff: args.cliff,
            end: args.end,
            total: args.total,
            claimed: 0,
            revocable: args.revocable,
            merkle_root: args.merkle_root,
            bump,
            initialized: true,
        },
    )
}

/// The schedule after a claim of `amount` at `now`, or the reason the
/// claim is refused.
pub open spec fn claimed(
    schedule: VestingSchedule,
    signer: Pubkey,
    now: i64,
    amount: u64,
    siblings: Option<Seq<[u8; 32]>>,
) -> Result<VestingSchedule, VertexError> {
    if schedule.beneficiary != signer {
        Err(VertexError::Common(CommonError::Unauthorized))
    } else if schedule.merkle_root is Some && siblings is None {
        Err(VertexError::Vesting(VestingError::MerkleRequired))
    } else if schedule.merkle_root is Some && !proof_holds(
        claim_leaf(signer, schedule.total),
        siblings.unwrap(),
        schedule.merkle_root.unwrap()@,
    ) {
        Err(VertexError::Common(CommonError::InvalidMerkleProof))
    } else if schedule.vested(now) < schedule.claimed {
        Err(VertexError::Common(CommonError::ArithmeticOverflow))
    } else if amount > schedule.vested(now) - schedule.claimed {
        Err(VertexError::Vesting(VestingError::AmountTooLarge))
    } else {
        Ok(VestingSchedule { claimed: (schedule.claimed + amount) as u64, ..schedule })
    }
}

/// Claims `amount` of what is vested and unclaimed, for the beneficiary
/// `signer`. On success `amount` is to be moved from the vault to the
/// beneficiary. On an error the schedule is as it was.
pub fn claim(
    schedule: &mut VestingSchedule,
    signer: &Pubkey,
    clock: &Clock,
    amount: u64,
    proof: Option<Vec<[u8; 32]>>,
) -> (r: Result<u64, VertexError>)
    requires
        old(schedule).well_formed(),
    ensures
        match claimed(
            *old(schedule),
            *signer,
            clock.unix_timestamp,
            amount,
            crate::launchpad::proof_view(proof),
        ) {
            Ok(next) => r == Ok::<u64, VertexError>(amount) && *final(schedule) == next,
            Err(e) => r == Err::<u64, VertexError>(e) && *final(schedule) == *old(schedule),
        },
        final(schedule).well_formed(),
{
    if schedule.beneficiary != *signer {
        return Err(VertexError::Common(CommonError::Unauthorized));
    }
    if let Some(root) = schedule.merkle_root {
        let leaf = merkle_leaf(*signer, schedule.total);
        match (proof) {
            None => { return Err(VertexError::Vesting(VestingError::MerkleRequired)); },
            Some(nodes) => {
                if !verify_merkle_proof(leaf, nodes.as_slice(), root) {
                    return Err(VertexError::Common(CommonError::InvalidMerkleProof));
                }
            },
        }
    }
    let vested = match schedule.vested_amount(clock.unix_timestamp) {
        Ok(v) => v,
        Err(e) => { return Err(e); },
    };
    let available = match vested.checked_sub(schedule.claimed) {
        Some(v) => v,
        None => { return Err(VertexError::Common(CommonError::ArithmeticOverflow)); },
    };
    if !(amount <= available) {
        return Err(VertexError::Vesting(VestingError::AmountTooLarge));
    }
    schedule.claimed = schedule.claimed + amount;
    Ok(amount)
}

/// The schedule after it is revoked, or the reason it cannot be.
pub open spec fn revoked(schedule: VestingSchedule, signer: Pubkey) -> Result<
    VestingSchedule,
    VertexError,
> {
    if schedule.authority != signer {
        Err(VertexError::Common(CommonError::Unauthorized))
    } else if !schedule.revocable {
        Err(VertexError::Vesting(VestingError::NotRevocable))
    } else if schedule.claimed > schedule.total {
        Err(VertexError::Common(CommonError::ArithmeticOverflow))
    } else {
        Ok(VestingSchedule { total: schedule.claimed, ..schedule })
    }
}

/// Revokes a schedule for its authority `signer`: what was not claimed is
/// to be moved back, and the total becomes what was claimed. On an error
/// the schedule is as it was.
pub fn revoke(schedule: &mut VestingSchedule, signer: &Pubkey) -> (r: Result<u64, VertexError>)
    ensures
        match revoked(*old(schedule), *signer) {
            Ok(next) => r == Ok::<u64, VertexError>((old(schedule).total - old(schedule).claimed) as u64)
                && *final(schedule) == next,
            Err(e) => r == Err::<u64, VertexError>(e) && *final(schedule) == *old(schedule),
        },
        old(schedule).well_formed() ==> final(schedule).well_formed(),
{
    if schedule.authority != *signer {
        return Err(VertexError::Common(CommonError::Unauthorized));
    }
    if !schedule.revocable {
        return Err(VertexError::Vesting(VestingError::NotRevocable));
    }
    let remaining = match schedule.total.checked_sub(schedule.claimed) {
        Some(v) => v,
        None => { return Err(VertexError::Common(CommonError::ArithmeticOverflow)); },
    };
    schedule.total = schedule.claimed;
    Ok(remaining)
}

} // verus!
