//! Staking pools: stakes earn a reward per token and slot, and a pool's
//! lock policy says when a stake may leave.

use vstd::prelude::*;
use crate::errors::CommonError;
use crate::errors::VertexError;
use crate::pubkey::Pubkey;
use crate::time::Clock;

verus! {

/// Errors of staking.
#[derive(Clone, Copy, Debug, PartialEq, Eq, Structural)]
pub enum StakingError {
    /// The pool was initialised before.
    AlreadyInitialized,
    /// The pool is not initialised.
    Uninitialized,
    /// The lock still applies.
    StillLocked,
    /// There is no reward to claim.
    NothingToClaim,
}

/// When a stake may leave a pool.
#[derive(Clone, Copy, Debug, PartialEq, Eq, Structural)]
pub enum LockPolicy {
    /// At any time.
    NoLock,
    /// From `end_slot` on; earlier, from `start_slot` on, only a stake that
    /// has claimed since `start_slot`.
    Linear { start_slot: u64, end_slot: u64 },
    /// From `release_slot` on.
    Cliff { release_slot: u64 },
}

/// Arguments of a pool's creation.
#[derive(Clone, Copy, Debug, PartialEq, Eq, Structural)]
pub struct InitArgs {
    /// Reward per staked token and slot.
    pub emission_rate: u64,
    /// Lock policy.
    pub lock_policy: LockPolicy,
}

/// Changes that the authority may make to a pool.
#[derive(Clone, Copy, Debug, PartialEq, Eq, Structural)]
pub struct UpdateArgs {
    /// New emission rate, if it changes.
    pub emission_rate: Option<u64>,
    /// New lock policy, if it changes.
    pub lock_policy: Option<LockPolicy>,
}

impl Default for UpdateArgs {
    /// No change.
    fn default() -> (args: Self)
        ensures
            args.emission_rate is None,
            args.lock_policy is None,
    {
        UpdateArgs { emission_rate: None, lock_policy: None }
    }
}

/// A staking pool.
#[derive(Clone, Copy, Debug)]
pub struct Pool {
    /// Authority of the pool.
    pub authority: Pubkey,
    /// Mint of the reward.
    pub reward_mint: Pubkey,
    /// Lock policy.
    pub lock_policy: LockPolicy,
    /// Reward per staked token and slot.
    pub emission_rate: u64,
    /// Bump of the vault authority's derived address.
    pub bump: u8,
    /// Whether the pool has been initialised.
    pub initialized: bool,
}

/// One wallet's stake.
#[derive(Clone, Copy, Debug)]
pub struct UserStake {
    /// The wallet.
    pub owner: Pubkey,
    /// Amount staked.
    pub amount_staked: u64,
    /// Slot of the last claim.
    pub last_claim_slot: u64,
}

impl Default for UserStake {
    /// An empty stake.
    fn default() -> (stake: Self)
        ensures
            stake.amount_staked == 0,
            stake.last_claim_slot == 0,
            stake.owner@ == Seq::new(32, |i: int| 0u8),
    {
        UserStake { owner: Pubkey::default(), amount_staked: 0, last_claim_slot: 0 }
    }
}

/// Whether the policy lets a stake leave at `current_slot`, given the slot
/// of its last claim.
pub open spec fn unlocked(policy: LockPolicy, last_claim_slot: u64, current_slot: u64) -> bool {
    match policy {
        LockPolicy::NoLock => true,
        LockPolicy::Linear { start_slot, end_slot } => {
            &&& current_slot >= start_slot
            &&& current_slot < end_slot ==> last_claim_slot >= start_slot
        },
        LockPolicy::Cliff { release_slot } => current_slot >= release_slot,
    }
}

/// The reward of a stake over the slots since its last claim.
pub open spec fn reward_due(amount_staked: u64, emission_rate: u64, slots_elapsed: nat) -> nat {
    amount_staked as nat * emission_rate as nat * slots_elapsed
}

/// Checks that the pool's lock policy lets the stake leave now.
pub fn enforce_lock(pool: &Pool, user: &UserStake, clock: &Clock) -> (r: Result<(), VertexError>)
    ensures
        match r {
            Ok(()) => unlocked(pool.lock_policy, user.last_claim_slot, clock.slot),
            Err(e) => e == VertexError::Staking(StakingError::StillLocked) && !unlocked(
                pool.lock_policy,
                user.last_claim_slot,
                clock.slot,
            ),
        },
{
    match pool.lock_policy {
        LockPolicy::NoLock => Ok(()),
        LockPolicy::Linear { start_slot, end_slot } => {
            let current = clock.slot;
            if !(current >= start_slot) {
                return Err(VertexError::Staking(StakingError::StillLocked));
            }
            if current < end_slot {
                if !(user.last_claim_slot >= start_slot) {
                    return Err(VertexError::Staking(StakingError::StillLocked));
                }
            }
            Ok(())
        },
        LockPolicy::Cliff { release_slot } => {
            let current = clock.slot;
            if !(current >= release_slot) {
                return Err(VertexError::Staking(StakingError::StillLocked));
            }
            Ok(())
        },
    }
}

/// Creates a pool, unless it was initialised before.
pub fn init_pool(
    already_initialized: bool,
    authority: &Pubkey,
    reward_mint: &Pubkey,
    args: InitArgs,
    bump: u8,
) -> (r: Result<Pool, VertexError>)
    ensures
        match r {
            Ok(pool) => {
                &&& !already_initialized
                &&& pool == (
                    Pool {
                        authority: *authority,
                        reward_mint: *reward_mint,
                        lock_policy: args.lock_policy,
                        emission_rate: args.emission_rate,
                        bump,
                        initialized: true,
                    }
                )
            },
            Err(e) => already_initialized && e == VertexError::Staking(
                StakingError::AlreadyInitialized,
            ),
        },
{
    if already_initialized {
        return Err(VertexError::Staking(StakingError::AlreadyInitialized));
    }
    Ok(
        Pool {
            authority: *authority,
            reward_mint: *reward_mint,
            lock_policy: args.lock_policy,
            emission_rate: args.emission_rate,
            bump,
            initialized: true,
        },
    )
}

/// The stake after `amount` is added for `staker` at the clock's slot, or
/// the reason it is refused.
pub open spec fn staked(pool: Pool, user: UserStake, staker: Pubkey, slot: u64, amount: u64) -> Result<
    UserStake,
    VertexError,
> {
    if amount == 0 {
        Err(VertexError::Common(CommonError::ConstraintViolation))
    } else if !pool.initialized {
        Err(VertexError::Staking(StakingError::Uninitialized))
    } else if user.amount_staked + amount > u64::MAX {
        Err(VertexError::Common(CommonError::ArithmeticOverflow))
    } else {
        Ok(
            UserStake {
                owner: staker,
                amount_staked: (user.amount_staked + amount) as u64,
                last_claim_slot: slot,
            },
        )
    }
}

/// Stakes `amount` for `staker`: on success `amount` is to be moved into
/// the pool's vault. On an error the stake is as it was.
pub fn stake(pool: &Pool, user: &mut UserStake, staker: &Pubkey, clock: &Clock, amount: u64) -> (r:
    Result<u64, VertexError>)
    ensures
        match staked(*pool, *old(user), *staker, clock.slot, amount) {
            Ok(next) => r == Ok::<u64, VertexError>(amount) && *final(user) == next,
            Err(e) => r == Err::<u64, VertexError>(e) && *final(user) == *old(user),
        },
{
    if !(amount > 0) {
        return Err(VertexError::Common(CommonError::ConstraintViolation));
    }
    if !pool.initialized {
        return Err(VertexError::Staking(StakingError::Uninitialized));
    }
    let total = match user.amount_staked.checked_add(amount) {
        Some(v) => v,
        None => { return Err(VertexError::Common(CommonError::ArithmeticOverflow)); },
    };
    user.owner = *staker;
    user.amount_staked = total;
    user.last_claim_slot = clock.slot;
    Ok(amount)
}

/// The reward that a claim at `slot` pays, or the reason there is none.
pub open spec fn claim_reward(pool: Pool, user: UserStake, staker: Pubkey, slot: u64) -> Result<
    u64,
    VertexError,
> {
    if user.owner != staker {
        Err(VertexError::Common(CommonError::Unauthorized))
    } else if !(slot > user.last_claim_slot) {
        Err(VertexError::Staking(StakingError::NothingToClaim))
    } else if user.amount_staked * pool.emission_rate > u64::MAX || reward_due(
        user.amount_staked,
        pool.emission_rate,
        (slot - user.last_claim_slot) as nat,
    ) > u64::MAX {
        Err(VertexError::Common(CommonError::ArithmeticOverflow))
    } else if reward_due(
        user.amount_staked,
        pool.emission_rate,
        (slot - user.last_claim_slot) as nat,
    ) == 0 {
        Err(VertexError::Staking(StakingError::NothingToClaim))
    } else {
        Ok(
            reward_due(
                user.amount_staked,
                pool.emission_rate,
                (slot - user.last_claim_slot) as nat,
            ) as u64,
        )
    }
}

/// Claims the reward of the slots since the last claim: on success the
/// reward is to be moved to the staker, and the stake's last claim is now.
/// On an error the stake is as it was.
pub fn claim(pool: &Pool, user: &mut UserStake, staker: &Pubkey, clock: &Clock) -> (r: Result<
    u64,
    VertexError,
>)
    ensures
        r == claim_reward(*pool, *old(user), *staker, clock.slot),
        match r {
            Ok(_) => *final(user) == (UserStake { last_claim_slot: clock.slot, ..*old(user) }),
            Err(_) => *final(user) == *old(user),
        },
{
    if user.owner != *staker {
        return Err(VertexError::Common(CommonError::Unauthorized));
    }
    let current_slot = clock.slot;
    if !(current_slot > user.last_claim_slot) {
        return Err(VertexError::Staking(StakingError::NothingToClaim));
    }
    let slots_elapsed: u64 = current_slot - user.last_claim_slot;
    let per_slot = match user.amount_staked.checked_mul(pool.emission_rate) {
        Some(v) => v,
        None => { return Err(VertexError::Common(CommonError::ArithmeticOverflow)); },
    };
    let reward = match per_slot.checked_mul(slots_elapsed) {
        Some(v) => v,
        None => {
            proof {
                lemma_reward_grows(
                    user.amount_staked as nat,
                    pool.emission_rate as nat,
                    slots_elapsed as nat,
                );
            }
            return Err(VertexError::Common(CommonError::ArithmeticOverflow));
        },
    };
    if !(reward > 0) {
        return Err(VertexError::Staking(StakingError::NothingToClaim));
    }
    user.last_claim_slot = current_slot;
    Ok(reward)
}

/// Over at least one slot the reward is at least the reward of one slot.
proof fn lemma_reward_grows(amount: nat, rate: nat, slots: nat)
    requires
        slots >= 1,
    ensures
        amount * rate <= amount * rate * slots,
{
    assert(amount * rate <= amount * rate * slots) by (nonlinear_arith)
        requires
            slots >= 1,
    ;
}

/// Takes the whole stake out for `staker`, where the lock policy lets it:
/// on success the amount is to be moved back to the staker and the stake
/// is empty. On an error the stake is as it was.
pub fn unstake(pool: &Pool, user: &mut UserStake, staker: &Pubkey, clock: &Clock) -> (r: Result<
    u64,
    VertexError,
>)
    ensures
        match r {
            Ok(amount) => {
                &&& old(user).owner == *staker
                &&& unlocked(pool.lock_policy, old(user).last_claim_slot, clock.slot)
                &&& amount == old(user).amount_staked
                &&& *final(user) == (UserStake { amount_staked: 0, ..*old(user) })
            },
            Err(e) => {
                &&& *final(user) == *old(user)
                &&& if old(user).owner != *staker {
                    e == VertexError::Common(CommonError::Unauthorized)
                } else {
                    e == VertexError::Staking(StakingError::StillLocked) && !unlocked(
                        pool.lock_policy,
                        old(user).last_claim_slot,
                        clock.slot,
                    )
                }
            },
        },
{
    if user.owner != *staker {
        return Err(VertexError::Common(CommonError::Unauthorized));
    }
    match enforce_lock(pool, user, clock) {
        Ok(()) => {},
        Err(e) => { return Err(e); },
    }
    let amount = user.amount_staked;
    user.amount_staked = 0;
    Ok(amount)
}

/// Changes a pool's emission rate, lock policy, or both, for its authority
/// `signer`.
pub fn admin_update(pool: &mut Pool, signer: &Pubkey, args: UpdateArgs) -> (r: Result<
    (),
    VertexError,
>)
    ensures
        match r {
            Ok(()) => {
                &&& old(pool).authority == *signer
                &&& *final(pool) == (
                    Pool {
                        emission_rate: match args.emission_rate {
                            Some(rate) => rate,
                            None => old(pool).emission_rate,
                        },
                        lock_policy: match args.lock_policy {
                            Some(policy) => policy,
                            None => old(pool).lock_policy,
                        },
                        ..*old(pool)
                    }
                )
            },
            Err(e) => {
                &&& old(pool).authority != *signer
                &&& e == VertexError::Common(CommonError::Unauthorized)
                &&& *final(pool) == *old(pool)
            },
        },
{
    if pool.authority != *signer {
        return Err(VertexError::Common(CommonError::Unauthorized));
    }
    if let Some(rate) = args.emission_rate {
        pool.emission_rate = rate;
    }
    if let Some(policy) = args.lock_policy {
        pool.lock_policy = policy;
    }
    Ok(())
}

} // verus!
