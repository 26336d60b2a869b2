use keystone_vertex::errors::{CommonError, VertexError};
use keystone_vertex::pubkey::Pubkey;
use keystone_vertex::staking::{
    admin_update, claim, enforce_lock, init_pool, stake, unstake, InitArgs, LockPolicy, Pool,
    StakingError, UpdateArgs, UserStake,
};
use keystone_vertex::time::Clock;

fn key(n: u8) -> Pubkey {
    Pubkey::new_from_array([n; 32])
}

fn slot(s: u64) -> Clock {
    Clock { slot: s, unix_timestamp: 0 }
}

fn pool(lock_policy: LockPolicy, emission_rate: u64) -> Pool {
    Pool {
        authority: key(1),
        reward_mint: key(2),
        lock_policy,
        emission_rate,
        bump: 0,
        initialized: true,
    }
}

#[test]
fn pool_init_sets_flags() {
    let mut pool = Pool {
        authority: Pubkey::default(),
        reward_mint: Pubkey::default(),
        lock_policy: LockPolicy::NoLock,
        emission_rate: 1,
        bump: 0,
        initialized: false,
    };
    pool.initialized = true;
    assert!(pool.initialized);
}

#[test]
fn init_pool_fills_the_record() {
    let args = InitArgs { emission_rate: 3, lock_policy: LockPolicy::Cliff { release_slot: 9 } };
    let p = init_pool(false, &key(1), &key(2), args, 5).unwrap();
    assert_eq!(p.authority, key(1));
    assert_eq!(p.reward_mint, key(2));
    assert_eq!(p.emission_rate, 3);
    assert_eq!(p.lock_policy, LockPolicy::Cliff { release_slot: 9 });
    assert_eq!(p.bump, 5);
    assert!(p.initialized);
    assert_eq!(
        init_pool(true, &key(1), &key(2), args, 5).err(),
        Some(VertexError::Staking(StakingError::AlreadyInitialized))
    );
}

#[test]
fn stake_adds_up() {
    let p = pool(LockPolicy::NoLock, 1);
    let mut u = UserStake::default();
    assert_eq!(u.amount_staked, 0);
    assert_eq!(
        stake(&p, &mut u, &key(3), &slot(7), 0),
        Err(VertexError::Common(CommonError::ConstraintViolation))
    );
    let mut closed = p;
    closed.initialized = false;
    assert_eq!(
        stake(&closed, &mut u, &key(3), &slot(7), 5),
        Err(VertexError::Staking(StakingError::Uninitialized))
    );
    assert_eq!(stake(&p, &mut u, &key(3), &slot(7), 5), Ok(5));
    assert_eq!((u.owner, u.amount_staked, u.last_claim_slot), (key(3), 5, 7));
    assert_eq!(
        stake(&p, &mut u, &key(3), &slot(8), u64::MAX),
        Err(VertexError::Common(CommonError::ArithmeticOverflow))
    );
    assert_eq!((u.amount_staked, u.last_claim_slot), (5, 7));
    assert_eq!(stake(&p, &mut u, &key(3), &slot(9), 6), Ok(6));
    assert_eq!((u.amount_staked, u.last_claim_slot), (11, 9));
}

#[test]
fn claim_pays_per_token_and_slot() {
    let p = pool(LockPolicy::NoLock, 3);
    let mut u = UserStake { owner: key(3), amount_staked: 10, last_claim_slot: 100 };
    assert_eq!(
        claim(&p, &mut u, &key(4), &slot(105)),
        Err(VertexError::Common(CommonError::Unauthorized))
    );
    assert_eq!(
        claim(&p, &mut u, &key(3), &slot(100)),
        Err(VertexError::Staking(StakingError::NothingToClaim))
    );
    assert_eq!(claim(&p, &mut u, &key(3), &slot(105)), Ok(150));
    assert_eq!(u.last_claim_slot, 105);
    let idle = pool(LockPolicy::NoLock, 0);
    assert_eq!(
        claim(&idle, &mut u, &key(3), &slot(106)),
        Err(VertexError::Staking(StakingError::NothingToClaim))
    );
    assert_eq!(u.last_claim_slot, 105);
    let rich = pool(LockPolicy::NoLock, u64::MAX);
    assert_eq!(
        claim(&rich, &mut u, &key(3), &slot(106)),
        Err(VertexError::Common(CommonError::ArithmeticOverflow))
    );
    let mut one = UserStake { owner: key(3), amount_staked: 1, last_claim_slot: 0 };
    assert_eq!(
        claim(&rich, &mut one, &key(3), &slot(2)),
        Err(VertexError::Common(CommonError::ArithmeticOverflow))
    );
    assert_eq!(claim(&rich, &mut one, &key(3), &slot(1)), Ok(u64::MAX));
}

#[test]
fn lock_policies() {
    let u = UserStake { owner: key(3), amount_staked: 10, last_claim_slot: 50 };
    let still = Err(VertexError::Staking(StakingError::StillLocked));
    assert_eq!(enforce_lock(&pool(LockPolicy::NoLock, 1), &u, &slot(0)), Ok(()));
    let cliff = pool(LockPolicy::Cliff { release_slot: 100 }, 1);
    assert_eq!(enforce_lock(&cliff, &u, &slot(99)), still);
    assert_eq!(enforce_lock(&cliff, &u, &slot(100)), Ok(()));
    let linear = pool(LockPolicy::Linear { start_slot: 40, end_slot: 100 }, 1);
    assert_eq!(enforce_lock(&linear, &u, &slot(39)), still);
    assert_eq!(enforce_lock(&linear, &u, &slot(40)), Ok(()));
    let early = UserStake { last_claim_slot: 39, ..u };
    assert_eq!(enforce_lock(&linear, &early, &slot(99)), still);
    assert_eq!(enforce_lock(&linear, &early, &slot(100)), Ok(()));
}

#[test]
fn unstake_takes_everything_out() {
    let cliff = pool(LockPolicy::Cliff { release_slot: 100 }, 1);
    let mut u = UserStake { owner: key(3), amount_staked: 10, last_claim_slot: 50 };
    assert_eq!(
        unstake(&cliff, &mut u, &key(4), &slot(200)),
        Err(VertexError::Common(CommonError::Unauthorized))
    );
    assert_eq!(
        unstake(&cliff, &mut u, &key(3), &slot(99)),
        Err(VertexError::Staking(StakingError::StillLocked))
    );
    assert_eq!(u.amount_staked, 10);
    assert_eq!(unstake(&cliff, &mut u, &key(3), &slot(100)), Ok(10));
    assert_eq!(u.amount_staked, 0);
    assert_eq!(u.last_claim_slot, 50);
}

#[test]
fn admin_update_is_for_the_authority() {
    let mut p = pool(LockPolicy::NoLock, 1);
    let args = UpdateArgs {
        emission_rate: Some(9),
        lock_policy: Some(LockPolicy::Cliff { release_slot: 4 }),
    };
    assert_eq!(
        admin_update(&mut p, &key(2), args),
        Err(VertexError::Common(CommonError::Unauthorized))
    );
    assert_eq!(p.emission_rate, 1);
    assert_eq!(admin_update(&mut p, &key(1), args), Ok(()));
    assert_eq!(p.emission_rate, 9);
    assert_eq!(p.lock_policy, LockPolicy::Cliff { release_slot: 4 });
    assert_eq!(admin_update(&mut p, &key(1), UpdateArgs::default()), Ok(()));
    assert_eq!(p.emission_rate, 9);
}
