//! Fee routing: once per day, in pages, the fees that a pool has earned are
//! shared out to investors in proportion to what they still have locked,
//! and the rest of the day goes to the creator.

use vstd::prelude::*;
use crate::keccak::append_bytes;
use crate::keccak::keccak256;
use crate::keccak::keccak_hash;
use crate::pubkey::Pubkey;
use crate::time::Clock;

pub mod stream_adapter;

verus! {

/// Seconds in a day.
pub const SECONDS_PER_DAY: i64 = 86_400;

/// Errors of the fee router.
#[derive(Clone, Copy, Debug, PartialEq, Eq, Structural)]
pub enum FeeRouterError {
    /// The pool or the position does not guarantee quote-only fees.
    QuoteOnlyViolation,
    /// A new day cannot start before the previous one is closed.
    DailyWindowNotReady,
    /// The page of investors is empty or malformed.
    InvalidInvestorPage,
    /// The accounting ran past the cap.
    CapExceeded,
    /// Checked arithmetic overflowed.
    ArithmeticOverflow,
    /// A constraint on the arguments does not hold.
    ConstraintViolation,
    /// The caller may not do this.
    Unauthorized,
}

/// The policy of one pool.
#[derive(Clone, Copy, Debug)]
pub struct Policy {
    /// Authority that may change the policy.
    pub authority: Pubkey,
    /// The pool that the policy is bound to.
    pub cp_pool: Pubkey,
    /// Quote mint; it must be the pool's quote side.
    pub quote_mint: Pubkey,
    /// The creator's quote account, which gets the day-end remainder.
    pub creator_quote_ata: Pubkey,
    /// The treasury's quote account.
    pub treasury_quote_ata: Pubkey,
    /// Largest share of the fees that goes to investors, in basis points.
    pub investor_fee_share_bps: u16,
    /// Total investor allocation, against which the locked part is measured.
    pub y0_total: u64,
    /// Most that is distributed per day; zero for no cap.
    pub daily_cap_quote: u64,
    /// Least payout; smaller amounts are carried.
    pub min_payout_lamports: u64,
    /// Bump of the policy's derived address.
    pub bump: u8,
    /// Whether the policy has been initialised.
    pub initialized: bool,
}

/// Progress of the distribution of one day.
#[derive(Clone, Copy, Debug, PartialEq, Eq, Structural)]
pub struct Progress {
    /// The day being distributed, in days since the Unix epoch.
    pub current_day: i64,
    /// Time of the last distribution.
    pub last_distribution_ts: i64,
    /// Quote claimed from the pool today.
    pub claimed_quote_today: u64,
    /// Quote distributed to investors today.
    pub distributed_quote_today: u64,
    /// What is carried from page to page within the day.
    pub carry_quote_today: u64,
    /// Cursor of the caller's pagination.
    pub page_cursor: u64,
    /// Whether the day's last page is settled.
    pub day_closed: bool,
    /// Bump of the record's derived address.
    pub bump: u8,
}

/// The fee position, which earns quote only.
#[derive(Clone, Copy, Debug)]
pub struct HonoraryPosition {
    /// Owner of the position.
    pub owner_pda: Pubkey,
    /// The position's account.
    pub position: Pubkey,
    /// The pool that the position is bound to.
    pub cp_pool: Pubkey,
    /// The quote mint that the position is bound to.
    pub quote_mint: Pubkey,
    /// Bump of the record's derived address.
    pub bump: u8,
}

/// Arguments of a policy's creation.
#[derive(Clone, Copy, Debug, PartialEq, Eq, Structural)]
pub struct InitPolicyArgs {
    /// Total investor allocation.
    pub y0_total: u64,
    /// Largest investor share in basis points, at most 10 000.
    pub investor_fee_share_bps: u16,
    /// Daily cap; zero for none.
    pub daily_cap_quote: u64,
    /// Least payout.
    pub min_payout_lamports: u64,
}

/// Arguments of one page of the daily distribution.
#[derive(Clone, Copy, Debug, PartialEq, Eq, Structural)]
pub struct CrankArgs {
    /// Cursor that the caller keeps its place with.
    pub page_cursor: u64,
    /// Whether this is the day's last page.
    pub is_last_page: bool,
}

/// What one page of the daily distribution pays out.
#[derive(Clone, Copy, Debug, PartialEq, Eq, Structural)]
pub struct CrankOutcome {
    /// Day of the page.
    pub day: i64,
    /// Paid to the investor; zero for none.
    pub investor_payout: u64,
    /// Carried after the page's payouts.
    pub carry_after: u64,
    /// Whether the day was closed by this page.
    pub day_closed: bool,
    /// Paid to the creator on the day's close; zero for none.
    pub creator_remainder: u64,
}

/// The accounts that a policy is created over, as the ledger shows them.
#[derive(Clone, Copy, Debug)]
pub struct PolicyAccounts {
    /// Who creates the policy.
    pub authority: Pubkey,
    /// The policy's own address.
    pub policy: Pubkey,
    /// The pool.
    pub cp_pool: Pubkey,
    /// The program that owns the pool's account.
    pub cp_pool_owner: Pubkey,
    /// The program that a fee pool must belong to.
    pub pool_program: Pubkey,
    /// The quote mint.
    pub quote_mint: Pubkey,
    /// The creator's quote account.
    pub creator_quote_ata: Pubkey,
    /// Mint of the creator's quote account.
    pub creator_quote_mint: Pubkey,
    /// The treasury's quote account.
    pub treasury_quote_ata: Pubkey,
    /// Owner of the treasury's quote account.
    pub treasury_owner: Pubkey,
    /// Mint of the treasury's quote account.
    pub treasury_mint: Pubkey,
    /// The vault authority derived for the policy.
    pub vault_authority: Pubkey,
    /// Bump of the policy's derived address.
    pub policy_bump: u8,
}

/// The low 64 bits of a number.
pub open spec fn low_64_bits(x: nat) -> nat {
    x % 0x1_0000_0000_0000_0000
}

/// The part of the pool's total allocation that is still locked, in basis
/// points (as a 64-bit number).
pub open spec fn locked_bps(y0_total: u64, locked_total: u64) -> nat {
    low_64_bits((locked_total as nat * 10_000) / (y0_total as nat))
}

/// The share that an investor is eligible for, in basis points: the locked
/// part, at most the policy's investor share.
pub open spec fn eligible_bps(policy: Policy, locked_total: u64) -> nat {
    let locked = locked_bps(policy.y0_total, locked_total);
    if locked <= policy.investor_fee_share_bps {
        locked
    } else {
        policy.investor_fee_share_bps as nat
    }
}

/// An investor's part of what can be distributed: nothing for nothing
/// locked or nothing to distribute; otherwise the eligible share of it,
/// rounded down.
pub open spec fn investor_quote(policy: Policy, locked_total: u64, distributable: u64) -> Result<
    u64,
    FeeRouterError,
> {
    if locked_total == 0 || distributable == 0 {
        Ok(0)
    } else if policy.y0_total == 0 {
        Err(FeeRouterError::ArithmeticOverflow)
    } else {
        Ok(
            low_64_bits(
                (distributable as nat * eligible_bps(policy, locked_total)) / 10_000,
            ) as u64,
        )
    }
}

/// An investor's part of `distributable`, given what the investor still
/// has locked.
pub fn compute_investor_quote(policy: &Policy, locked_total: u64, distributable: u64) -> (r: Result<
    u64,
    FeeRouterError,
>)
    ensures
        r == investor_quote(*policy, locked_total, distributable),
{
    if locked_total == 0 || distributable == 0 {
        return Ok(0);
    }
    assert(locked_total as u128 * 10_000 <= u128::MAX) by (nonlinear_arith)
        requires
            locked_total <= u64::MAX,
    ;
    let scaled: u128 = locked_total as u128 * 10_000;
    if policy.y0_total == 0 {
        return Err(FeeRouterError::ArithmeticOverflow);
    }
    let f_locked: u128 = (scaled / (policy.y0_total as u128)) % 0x1_0000_0000_0000_0000u128;
    let f_locked_bps: u64 = f_locked as u64;
    let share: u64 = policy.investor_fee_share_bps as u64;
    let eligible: u64 = if f_locked_bps <= share {
        f_locked_bps
    } else {
        share
    };
    assert(distributable as u128 * eligible as u128 <= u128::MAX) by (nonlinear_arith)
        requires
            distributable <= u64::MAX,
            eligible <= u64::MAX,
    ;
    let product: u128 = distributable as u128 * eligible as u128;
    let part: u128 = (product / 10_000) % 0x1_0000_0000_0000_0000u128;
    Ok(part as u64)
}

/// Where the eligible share is within the policy (at most 10 000 basis
/// points), an investor is never paid more than there is to distribute.
pub proof fn lemma_investor_quote_within_distributable(
    policy: Policy,
    locked_total: u64,
    distributable: u64,
)
    requires
        policy.investor_fee_share_bps <= 10_000,
        investor_quote(policy, locked_total, distributable) is Ok,
    ensures
        investor_quote(policy, locked_total, distributable).unwrap() <= distributable,
{
    if !(locked_total == 0 || distributable == 0) {
        let e = eligible_bps(policy, locked_total);
        let d = distributable as nat;
        assert(d * e / 10_000 <= d) by (nonlinear_arith)
            requires
                e <= 10_000,
        ;
    }
}

/// The day that a time falls in, in days since the Unix epoch (rounded
/// toward the past, also before the epoch).
pub open spec fn day_of(now: i64) -> int {
    now as int / 86_400
}

/// The progress record at the start of a page: a first page, or the first
/// page of a later day, starts the day afresh; a later day may start only
/// once the day before is closed.
pub open spec fn day_started(progress: Progress, now: i64) -> Result<Progress, FeeRouterError> {
    if progress.current_day != 0 && day_of(now) <= progress.current_day {
        Ok(progress)
    } else if progress.current_day != 0 && !progress.day_closed {
        Err(FeeRouterError::DailyWindowNotReady)
    } else {
        Ok(
            Progress {
                current_day: day_of(now) as i64,
                last_distribution_ts: now,
                claimed_quote_today: 0,
                distributed_quote_today: 0,
                carry_quote_today: 0,
                page_cursor: 0,
                day_closed: false,
                bump: progress.bump,
            },
        )
    }
}

/// What the daily cap still allows: everything where there is no cap.
pub open spec fn cap_remaining(policy: Policy, distributed_today: u64) -> u64 {
    if policy.daily_cap_quote > 0 {
        if policy.daily_cap_quote >= distributed_today {
            (policy.daily_cap_quote - distributed_today) as u64
        } else {
            0
        }
    } else {
        u64::MAX
    }
}

/// What can be distributed in one call: what the treasury holds, at most
/// what the cap still allows.
pub open spec fn distributable_now(policy: Policy, distributed_today: u64, treasury_balance: u64) -> u64 {
    let cap = cap_remaining(policy, distributed_today);
    if cap <= treasury_balance {
        cap
    } else {
        treasury_balance
    }
}

/// What the investor is paid out of `distributable`: the investor's part,
/// unless it is nothing or below the least payout, in which case it is
/// carried.
pub open spec fn investor_payout(policy: Policy, locked_total: u64, distributable: u64) -> Result<
    u64,
    FeeRouterError,
> {
    match investor_quote(policy, locked_total, distributable) {
        Err(e) => Err(e),
        Ok(quote) => if quote >= policy.min_payout_lamports && quote > 0 {
            Ok(quote)
        } else {
            Ok(0)
        },
    }
}

/// The progress record and the payouts after one page of the daily
/// distribution, or the reason the page is refused.
pub open spec fn page_distributed(
    policy: Policy,
    progress: Progress,
    now: i64,
    treasury_balance: u64,
    locked_total: u64,
    args: CrankArgs,
) -> Result<(Progress, CrankOutcome), FeeRouterError> {
    match day_started(progress, now) {
        Err(e) => Err(e),
        Ok(day) => {
            let distributable = distributable_now(
                policy,
                day.distributed_quote_today,
                treasury_balance,
            );
            match investor_payout(policy, locked_total, distributable) {
                Err(e) => Err(e),
                Ok(paid) => {
                    if day.distributed_quote_today + paid > u64::MAX {
                        Err(FeeRouterError::ArithmeticOverflow)
                    } else {
                        let carry: u64 = if distributable >= paid {
                            (distributable - paid) as u64
                        } else {
                            0
                        };
                        let claimed: u64 = if day.distributed_quote_today + treasury_balance
                            > u64::MAX {
                            u64::MAX
                        } else {
                            (day.distributed_quote_today + treasury_balance) as u64
                        };
                        Ok(
                            (
                                Progress {
                                    current_day: day.current_day,
                                    last_distribution_ts: now,
                                    claimed_quote_today: claimed,
                                    distributed_quote_today: (day.distributed_quote_today
                                        + paid) as u64,
                                    carry_quote_today: if args.is_last_page {
                                        0
                                    } else {
                                        carry
                                    },
                                    page_cursor: args.page_cursor,
                                    day_closed: args.is_last_page || day.day_closed,
                                    bump: day.bump,
                                },
                                CrankOutcome {
                                    day: day.current_day,
                                    investor_payout: paid,
                                    carry_after: carry,
                                    day_closed: args.is_last_page,
                                    creator_remainder: if args.is_last_page {
                                        carry
                                    } else {
                                        0
                                    },
                                },
                            ),
                        )
                    }
                },
            }
        },
    }
}

/// The day that the clock's time falls in.
pub fn current_day(clock: &Clock) -> (day: i64)
    ensures
        day == day_of(clock.unix_timestamp),
{
    let now = clock.unix_timestamp;
    if now >= 0 {
        now / SECONDS_PER_DAY
    } else {
        let back: i64 = -(now + 1);
        -(back / SECONDS_PER_DAY) - 1
    }
}

/// Starts the page's day in the progress record. On an error the record is
/// as it was.
pub fn begin_day(progress: &mut Progress, clock: &Clock) -> (r: Result<(), FeeRouterError>)
    ensures
        match day_started(*old(progress), clock.unix_timestamp) {
            Ok(next) => r is Ok && *final(progress) == next,
            Err(e) => r == Err::<(), FeeRouterError>(e) && *final(progress) == *old(progress),
        },
{
    let today = current_day(clock);
    if progress.current_day == 0 {
    } else if today > progress.current_day {
        if !progress.day_closed {
            return Err(FeeRouterError::DailyWindowNotReady);
        }
    } else {
        return Ok(());
    }
    progress.current_day = today;
    progress.last_distribution_ts = clock.unix_timestamp;
    progress.claimed_quote_today = 0;
    progress.distributed_quote_today = 0;
    progress.carry_quote_today = 0;
    progress.page_cursor = 0;
    progress.day_closed = false;
    Ok(())
}

/// One page of the daily distribution, for the investor whose stream has
/// `locked_total` still locked, with the treasury holding
/// `treasury_balance` after the pool's fees were claimed. The outcome says
/// what to pay the investor and, on the day's last page, the creator. On
/// an error the progress record is as it was.
pub fn crank_distribute(
    policy: &Policy,
    progress: &mut Progress,
    clock: &Clock,
    treasury_balance: u64,
    locked_total: u64,
    args: CrankArgs,
) -> (r: Result<CrankOutcome, FeeRouterError>)
    ensures
        match page_distributed(
            *policy,
            *old(progress),
            clock.unix_timestamp,
            treasury_balance,
            locked_total,
            args,
        ) {
            Ok((next, outcome)) => r == Ok::<CrankOutcome, FeeRouterError>(outcome)
                && *final(progress) == next,
            Err(e) => r == Err::<CrankOutcome, FeeRouterError>(e) && *final(progress) == *old(
                progress,
            ),
        },
{
    let mut day = *progress;
    match begin_day(&mut day, clock) {
        Ok(()) => {},
        Err(e) => { return Err(e); },
    }
    let cap_left: u64 = if policy.daily_cap_quote > 0 {
        policy.daily_cap_quote.saturating_sub(day.distributed_quote_today)
    } else {
        u64::MAX
    };
    let pool_remaining = treasury_balance;
    let claimed = day.distributed_quote_today.saturating_add(pool_remaining);
    let mut distributable: u64 = if cap_left <= pool_remaining {
        cap_left
    } else {
        pool_remaining
    };
    let mut paid: u64 = 0;
    let mut distributed = day.distributed_quote_today;
    if locked_total > 0 && distributable > 0 {
        let quote = match compute_investor_quote(policy, locked_total, distributable) {
            Ok(q) => q,
            Err(e) => { return Err(e); },
        };
        if quote >= policy.min_payout_lamports && quote > 0 {
            distributed = match distributed.checked_add(quote) {
                Some(v) => v,
                None => { return Err(FeeRouterError::ArithmeticOverflow); },
            };
            distributable = distributable.saturating_sub(quote);
            paid = quote;
        }
    }
    let carry = distributable;
    day.claimed_quote_today = claimed;
    day.distributed_quote_today = distributed;
    day.carry_quote_today = carry;
    day.page_cursor = args.page_cursor;
    day.last_distribution_ts = clock.unix_timestamp;
    let mut remainder: u64 = 0;
    if args.is_last_page {
        remainder = carry;
        day.carry_quote_today = 0;
        day.day_closed = true;
    }
    *progress = day;
    Ok(
        CrankOutcome {
            day: day.current_day,
            investor_payout: paid,
            carry_after: carry,
            day_closed: args.is_last_page,
            creator_remainder: remainder,
        },
    )
}

/// Checks that a pool's account belongs to the program that fee pools must
/// belong to.
pub fn assert_cp_pool_quote_only(cp_pool_owner: &Pubkey, pool_program: &Pubkey) -> (r: Result<
    (),
    FeeRouterError,
>)
    ensures
        match r {
            Ok(()) => *cp_pool_owner == *pool_program,
            Err(e) => e == FeeRouterError::QuoteOnlyViolation && *cp_pool_owner != *pool_program,
        },
{
    if *cp_pool_owner == *pool_program {
        Ok(())
    } else {
        Err(FeeRouterError::QuoteOnlyViolation)
    }
}

/// The policy that `init_policy` creates, or the reason it refuses.
pub open spec fn policy_created(args: InitPolicyArgs, accounts: PolicyAccounts) -> Result<
    Policy,
    FeeRouterError,
> {
    if args.investor_fee_share_bps > 10_000 {
        Err(FeeRouterError::ConstraintViolation)
    } else if args.y0_total == 0 {
        Err(FeeRouterError::ConstraintViolation)
    } else if accounts.treasury_owner != accounts.vault_authority {
        Err(FeeRouterError::Unauthorized)
    } else if accounts.treasury_mint != accounts.quote_mint {
        Err(FeeRouterError::ConstraintViolation)
    } else if accounts.creator_quote_mint != accounts.quote_mint {
        Err(FeeRouterError::ConstraintViolation)
    } else if accounts.cp_pool_owner != accounts.pool_program {
        Err(FeeRouterError::QuoteOnlyViolation)
    } else {
        Ok(
            Policy {
                authority: accounts.authority,
                cp_pool: accounts.cp_pool,
                quote_mint: accounts.quote_mint,
                creator_quote_ata: accounts.creator_quote_ata,
                treasury_quote_ata: accounts.treasury_quote_ata,
                investor_fee_share_bps: args.investor_fee_share_bps,
                y0_total: args.y0_total,
                daily_cap_quote: args.daily_cap_quote,
                min_payout_lamports: args.min_payout_lamports,
                bump: accounts.policy_bump,
                initialized: true,
            },
        )
    }
}

/// Creates the policy of a pool: the investor share is at most the whole,
/// the allocation is not zero, the treasury belongs to the vault authority,
/// both quote accounts are of the quote mint, and the pool belongs to the
/// pool program.
pub fn init_policy(args: InitPolicyArgs, accounts: &PolicyAccounts) -> (r: Result<
    Policy,
    FeeRouterError,
>)
    ensures
        r == policy_created(args, *accounts),
{
    if !(args.investor_fee_share_bps <= 10_000) {
        return Err(FeeRouterError::ConstraintViolation);
    }
    if !(args.y0_total > 0) {
        return Err(FeeRouterError::ConstraintViolation);
    }
    if accounts.treasury_owner != accounts.vault_authority {
        return Err(FeeRouterError::Unauthorized);
    }
    if accounts.treasury_mint != accounts.quote_mint {
        return Err(FeeRouterError::ConstraintViolation);
    }
    if accounts.creator_quote_mint != accounts.quote_mint {
        return Err(FeeRouterError::ConstraintViolation);
    }
    match assert_cp_pool_quote_only(&accounts.cp_pool_owner, &accounts.pool_program) {
        Ok(()) => {},
        Err(e) => { return Err(e); },
    }
    Ok(
        Policy {
            authority: accounts.authority,
            cp_pool: accounts.cp_pool,
            quote_mint: accounts.quote_mint,
            creator_quote_ata: accounts.creator_quote_ata,
            treasury_quote_ata: accounts.treasury_quote_ata,
            investor_fee_share_bps: args.investor_fee_share_bps,
            y0_total: args.y0_total,
            daily_cap_quote: args.daily_cap_quote,
            min_payout_lamports: args.min_payout_lamports,
            bump: accounts.policy_bump,
            initialized: true,
        },
    )
}

/// Most investors that one page can hold, the first one included.
pub const PAGE_INVESTORS_MAX: usize = 16;

/// One investor of a page: what the investor's stream still has locked, and
/// the mint of the account that the payout would go to.
#[derive(Clone, Copy, Debug)]
pub struct PageEntry {
    /// Still locked in the investor's stream.
    pub locked_total: u64,
    /// Mint of the investor's quote account.
    pub quote_mint: Pubkey,
}

/// The running figures of a page while its investors are paid in turn.
pub struct PageRun {
    /// What is left to distribute.
    pub distributable: u64,
    /// Distributed today, this page included.
    pub distributed: u64,
    /// Paid in this page.
    pub paid_total: u64,
    /// What each investor of the page is paid, in order; zero for none.
    pub payouts: Seq<u64>,
}

/// What a page of several investors pays out.
#[derive(Debug)]
pub struct PageOutcome {
    /// Day of the page.
    pub day: i64,
    /// What each investor is paid, in the order of the page; zero for none.
    pub payouts: Vec<u64>,
    /// Total paid to investors in the page.
    pub paid_total: u64,
    /// Carried after the page's payouts.
    pub carry_after: u64,
    /// Whether the day was closed by this page.
    pub day_closed: bool,
    /// Paid to the creator on the day's close; zero for none.
    pub creator_remainder: u64,
}

/// The running figures after one more investor: an investor with nothing
/// locked, or whose part is nothing or below the least payout, is passed
/// over; one who is paid must hold a quote account of the policy's mint.
pub open spec fn entry_paid(policy: Policy, run: PageRun, entry: PageEntry) -> Result<
    PageRun,
    FeeRouterError,
> {
    match investor_payout(policy, entry.locked_total, run.distributable) {
        Err(e) => Err(e),
        Ok(paid) => {
            if paid == 0 {
                Ok(PageRun { payouts: run.payouts.push(0), ..run })
            } else if entry.quote_mint != policy.quote_mint {
                Err(FeeRouterError::ConstraintViolation)
            } else if run.paid_total + paid > u64::MAX || run.distributed + paid > u64::MAX {
                Err(FeeRouterError::ArithmeticOverflow)
            } else {
                Ok(
                    PageRun {
                        distributable: if run.distributable >= paid {
                            (run.distributable - paid) as u64
                        } else {
                            0
                        },
                        distributed: (run.distributed + paid) as u64,
                        paid_total: (run.paid_total + paid) as u64,
                        payouts: run.payouts.push(paid),
                    },
                )
            }
        },
    }
}

/// The running figures after the investors of a page are paid in turn.
pub open spec fn entries_paid(policy: Policy, run: PageRun, entries: Seq<PageEntry>) -> Result<
    PageRun,
    FeeRouterError,
>
    decreases entries.len(),
{
    if entries.len() == 0 {
        Ok(run)
    } else {
        match entries_paid(policy, run, entries.drop_last()) {
            Err(e) => Err(e),
            Ok(so_far) => entry_paid(policy, so_far, entries.last()),
        }
    }
}

/// The progress record and the running figures after a page of several
/// investors, or the reason the page is refused. A page holds at least one
/// investor and at most sixteen.
pub open spec fn investors_page_distributed(
    policy: Policy,
    progress: Progress,
    now: i64,
    treasury_balance: u64,
    entries: Seq<PageEntry>,
    args: CrankArgs,
) -> Result<(Progress, PageRun), FeeRouterError> {
    match day_started(progress, now) {
        Err(e) => Err(e),
        Ok(day) => {
            if entries.len() == 0 || entries.len() > PAGE_INVESTORS_MAX {
                Err(FeeRouterError::InvalidInvestorPage)
            } else {
                let start = PageRun {
                    distributable: distributable_now(
                        policy,
                        day.distributed_quote_today,
                        treasury_balance,
                    ),
                    distributed: day.distributed_quote_today,
                    paid_total: 0,
                    payouts: Seq::empty(),
                };
                match entries_paid(policy, start, entries) {
                    Err(e) => Err(e),
                    Ok(run) => Ok(
                        (
                            Progress {
                                current_day: day.current_day,
                                last_distribution_ts: now,
                                claimed_quote_today: if day.distributed_quote_today
                                    + treasury_balance > u64::MAX {
                                    u64::MAX
                                } else {
                                    (day.distributed_quote_today + treasury_balance) as u64
                                },
                                distributed_quote_today: run.distributed,
                                carry_quote_today: if args.is_last_page {
                                    0
                                } else {
                                    run.distributable
                                },
                                page_cursor: args.page_cursor,
                                day_closed: args.is_last_page || day.day_closed,
                                bump: day.bump,
                            },
                            run,
                        ),
                    ),
                }
            }
        },
    }
}

/// The number of investors in a page whose further investors come as
/// `remaining_accounts` accounts, two for each: refused unless the accounts
/// pair up and the page, the first investor included, holds at most
/// sixteen.
pub fn page_investors(remaining_accounts: usize) -> (r: Result<usize, FeeRouterError>)
    ensures
        match r {
            Ok(n) => {
                &&& remaining_accounts % 2 == 0
                &&& n == 1 + remaining_accounts / 2
                &&& n <= PAGE_INVESTORS_MAX
            },
            Err(e) => {
                &&& e == FeeRouterError::InvalidInvestorPage
                &&& remaining_accounts % 2 != 0 || 1 + remaining_accounts / 2 > PAGE_INVESTORS_MAX
            },
        },
{
    if remaining_accounts % 2 != 0 {
        return Err(FeeRouterError::InvalidInvestorPage);
    }
    let total_pairs = 1 + remaining_accounts / 2;
    if !(total_pairs <= PAGE_INVESTORS_MAX) {
        return Err(FeeRouterError::InvalidInvestorPage);
    }
    Ok(total_pairs)
}

/// One page of the daily distribution for several investors, paid in the
/// order of the page out of what is left after the ones before. The
/// outcome says what to pay each investor and, on the day's last page, the
/// creator. On an error the progress record is as it was.
#[verifier::loop_isolation(false)]
pub fn crank_distribute_page(
    policy: &Policy,
    progress: &mut Progress,
    clock: &Clock,
    treasury_balance: u64,
    entries: &[PageEntry],
    args: CrankArgs,
) -> (r: Result<PageOutcome, FeeRouterError>)
    ensures
        match investors_page_distributed(
            *policy,
            *old(progress),
            clock.unix_timestamp,
            treasury_balance,
            entries@,
            args,
        ) {
            Ok((next, run)) => {
                &&& r matches Ok(outcome)
                &&& *final(progress) == next
                &&& outcome.day == next.current_day
                &&& outcome.payouts@ == run.payouts
                &&& outcome.paid_total == run.paid_total
                &&& outcome.carry_after == run.distributable
                &&& outcome.day_closed == args.is_last_page
                &&& outcome.creator_remainder == if args.is_last_page {
                    run.distributable
                } else {
                    0
                }
            },
            Err(e) => r matches Err(err) && err == e && *final(progress) == *old(progress),
        },
{
    let mut day = *progress;
    match begin_day(&mut day, clock) {
        Ok(()) => {},
        Err(e) => { return Err(e); },
    }
    let n = entries.len();
    if n == 0 || n > PAGE_INVESTORS_MAX {
        return Err(FeeRouterError::InvalidInvestorPage);
    }
    let cap_left: u64 = if policy.daily_cap_quote > 0 {
        policy.daily_cap_quote.saturating_sub(day.distributed_quote_today)
    } else {
        u64::MAX
    };
    let claimed = day.distributed_quote_today.saturating_add(treasury_balance);
    let mut distributable: u64 = if cap_left <= treasury_balance {
        cap_left
    } else {
        treasury_balance
    };
    let mut distributed = day.distributed_quote_today;
    let mut paid_total: u64 = 0;
    let mut payouts: Vec<u64> = Vec::new();
    let ghost start = PageRun {
        distributable,
        distributed,
        paid_total: 0,
        payouts: Seq::empty(),
    };
    let mut i: usize = 0;
    assert(entries@.take(0) =~= Seq::<PageEntry>::empty());
    while i < n
        invariant
            i <= n,
            n == entries@.len(),
            entries_paid(*policy, start, entries@.take(i as int)) == Ok::<PageRun, FeeRouterError>(
                PageRun { distributable, distributed, paid_total, payouts: payouts@ },
            ),
            *progress == *old(progress),
        decreases n - i,
    {
        let entry = &entries[i];
        proof {
            assert(entries@.take(i as int + 1).drop_last() =~= entries@.take(i as int));
            assert(entries@.take(i as int + 1).last() == *entry);
            assert(entries@.take(n as int) =~= entries@);
            if entries_paid(*policy, start, entries@.take(i as int + 1)) is Err {
                lemma_entries_paid_error_stays(*policy, start, entries@, i as int + 1);
            }
        }
        let mut paid: u64 = 0;
        if entry.locked_total > 0 && distributable > 0 {
            let quote = match compute_investor_quote(policy, entry.locked_total, distributable) {
                Ok(q) => q,
                Err(e) => { return Err(e); },
            };
            if quote >= policy.min_payout_lamports && quote > 0 {
                if entry.quote_mint != policy.quote_mint {
                    return Err(FeeRouterError::ConstraintViolation);
                }
                let new_paid_total = match paid_total.checked_add(quote) {
                    Some(v) => v,
                    None => { return Err(FeeRouterError::ArithmeticOverflow); },
                };
                let new_distributed = match distributed.checked_add(quote) {
                    Some(v) => v,
                    None => { return Err(FeeRouterError::ArithmeticOverflow); },
                };
                distributable = distributable.saturating_sub(quote);
                paid_total = new_paid_total;
                distributed = new_distributed;
                paid = quote;
            }
        }
        payouts.push(paid);
        i += 1;
    }
    assert(entries@.take(n as int) =~= entries@);
    let carry = distributable;
    day.claimed_quote_today = claimed;
    day.distributed_quote_today = distributed;
    day.carry_quote_today = carry;
    day.page_cursor = args.page_cursor;
    day.last_distribution_ts = clock.unix_timestamp;
    let mut remainder: u64 = 0;
    if args.is_last_page {
        remainder = carry;
        day.carry_quote_today = 0;
        day.day_closed = true;
    }
    *progress = day;
    Ok(
        PageOutcome {
            day: day.current_day,
            payouts,
            paid_total,
            carry_after: carry,
            day_closed: args.is_last_page,
            creator_remainder: remainder,
        },
    )
}

/// Once paying the investors of a page has failed, it has failed for every
/// longer part of the page too, with the same error.
pub proof fn lemma_entries_paid_error_stays(
    policy: Policy,
    run: PageRun,
    entries: Seq<PageEntry>,
    upto: int,
)
    requires
        0 <= upto <= entries.len(),
        entries_paid(policy, run, entries.take(upto)) is Err,
    ensures
        entries_paid(policy, run, entries) == entries_paid(policy, run, entries.take(upto)),
    decreases entries.len() - upto,
{
    if upto < entries.len() {
        assert(entries.take(upto + 1).drop_last() =~= entries.take(upto));
        lemma_entries_paid_error_stays(policy, run, entries, upto + 1);
    } else {
        assert(entries.take(upto) =~= entries);
    }
}

/// A page that holds one investor, whose quote account is of the policy's
/// mint, is the page of that investor alone: the same progress record, the
/// same payout and the same carry.
pub proof fn lemma_page_of_one_investor(
    policy: Policy,
    progress: Progress,
    now: i64,
    treasury_balance: u64,
    locked_total: u64,
    args: CrankArgs,
)
    ensures
        match page_distributed(policy, progress, now, treasury_balance, locked_total, args) {
            Ok((next, outcome)) => {
                &&& investors_page_distributed(
                    policy,
                    progress,
                    now,
                    treasury_balance,
                    seq![PageEntry { locked_total, quote_mint: policy.quote_mint }],
                    args,
                ) matches Ok((page_next, run))
                &&& page_next == next
                &&& run.payouts == seq![outcome.investor_payout]
                &&& run.paid_total == outcome.investor_payout
                &&& run.distributable == outcome.carry_after
            },
            Err(e) => investors_page_distributed(
                policy,
                progress,
                now,
                treasury_balance,
                seq![PageEntry { locked_total, quote_mint: policy.quote_mint }],
                args,
            ) == Err::<(Progress, PageRun), FeeRouterError>(e),
        },
{
    let entries = seq![PageEntry { locked_total, quote_mint: policy.quote_mint }];
    assert(entries.drop_last() =~= Seq::<PageEntry>::empty());
    assert(entries.last() == PageEntry { locked_total, quote_mint: policy.quote_mint });
    if day_started(progress, now) is Ok {
        let day = day_started(progress, now).unwrap();
        let start = PageRun {
            distributable: distributable_now(policy, day.distributed_quote_today, treasury_balance),
            distributed: day.distributed_quote_today,
            paid_total: 0,
            payouts: Seq::empty(),
        };
        assert(entries_paid(policy, start, entries.drop_last()) == Ok::<PageRun, FeeRouterError>(
            start,
        ));
        assert(entries_paid(policy, start, entries) == entry_paid(policy, start, entries.last()));
        assert(Seq::<u64>::empty().push(0) =~= seq![0u64]);
        match investor_payout(policy, locked_total, start.distributable) {
            Ok(paid) => {
                assert(Seq::<u64>::empty().push(paid) =~= seq![paid]);
            },
            Err(_) => {},
        }
    }
}

impl Policy {
    /// The bytes that the policy's digest is taken of: the pool, the quote
    /// mint, the creator's and the treasury's quote accounts, then the
    /// investor share, the allocation, the daily cap and the least payout
    /// in little-endian order.
    pub open spec fn hash_input(&self) -> Seq<u8> {
        self.cp_pool@ + self.quote_mint@ + self.creator_quote_ata@ + self.treasury_quote_ata@
            + vstd::bytes::spec_u16_to_le_bytes(self.investor_fee_share_bps)
            + vstd::bytes::spec_u64_to_le_bytes(self.y0_total) + vstd::bytes::spec_u64_to_le_bytes(
            self.daily_cap_quote,
        ) + vstd::bytes::spec_u64_to_le_bytes(self.min_payout_lamports)
    }

    /// Digest of the policy, for audit records.
    pub fn config_hash(&self) -> (digest: [u8; 32])
        ensures
            digest@ == keccak256(self.hash_input()),
    {
        let mut data: Vec<u8> = Vec::with_capacity(154);
        append_bytes(&mut data, self.cp_pool.bytes.as_slice());
        append_bytes(&mut data, self.quote_mint.bytes.as_slice());
        append_bytes(&mut data, self.creator_quote_ata.bytes.as_slice());
        append_bytes(&mut data, self.treasury_quote_ata.bytes.as_slice());
        let share = vstd::bytes::u16_to_le_bytes(self.investor_fee_share_bps);
        append_bytes(&mut data, share.as_slice());
        let y0 = vstd::bytes::u64_to_le_bytes(self.y0_total);
        append_bytes(&mut data, y0.as_slice());
        let cap = vstd::bytes::u64_to_le_bytes(self.daily_cap_quote);
        append_bytes(&mut data, cap.as_slice());
        let least = vstd::bytes::u64_to_le_bytes(self.min_payout_lamports);
        append_bytes(&mut data, least.as_slice());
        assert(data@ =~= self.hash_input());
        keccak_hash(data.as_slice())
    }
}

/// The accounts that a fee position is bound over, as the ledger shows
/// them.
#[derive(Clone, Copy, Debug)]
pub struct PositionAccounts {
    /// The pool.
    pub cp_pool: Pubkey,
    /// The program that owns the pool's account.
    pub cp_pool_owner: Pubkey,
    /// The program that a fee pool must belong to.
    pub pool_program: Pubkey,
    /// The quote mint.
    pub quote_mint: Pubkey,
    /// Owner of the position.
    pub owner_pda: Pubkey,
    /// The position's account.
    pub cp_position: Pubkey,
    /// Bump of the record's derived address.
    pub bump: u8,
}

/// The fee position that `init_honorary_position` binds, or the reason it
/// refuses.
pub open spec fn position_bound(policy: Policy, accounts: PositionAccounts) -> Result<
    HonoraryPosition,
    FeeRouterError,
> {
    if policy.cp_pool != accounts.cp_pool {
        Err(FeeRouterError::ConstraintViolation)
    } else if policy.quote_mint != accounts.quote_mint {
        Err(FeeRouterError::ConstraintViolation)
    } else if accounts.cp_pool_owner != accounts.pool_program {
        Err(FeeRouterError::QuoteOnlyViolation)
    } else {
        Ok(
            HonoraryPosition {
                owner_pda: accounts.owner_pda,
                position: accounts.cp_position,
                cp_pool: accounts.cp_pool,
                quote_mint: accounts.quote_mint,
                bump: accounts.bump,
            },
        )
    }
}

/// Binds the fee position to the policy's pool and quote mint; the pool
/// must be the policy's, the mint the policy's, and the pool must belong
/// to the pool program.
pub fn init_honorary_position(policy: &Policy, accounts: &PositionAccounts) -> (r: Result<
    HonoraryPosition,
    FeeRouterError,
>)
    ensures
        r == position_bound(*policy, *accounts),
{
    if policy.cp_pool != accounts.cp_pool {
        return Err(FeeRouterError::ConstraintViolation);
    }
    if policy.quote_mint != accounts.quote_mint {
        return Err(FeeRouterError::ConstraintViolation);
    }
    match assert_cp_pool_quote_only(&accounts.cp_pool_owner, &accounts.pool_program) {
        Ok(()) => {},
        Err(e) => { return Err(e); },
    }
    Ok(
        HonoraryPosition {
            owner_pda: accounts.owner_pda,
            position: accounts.cp_position,
            cp_pool: accounts.cp_pool,
            quote_mint: accounts.quote_mint,
            bump: accounts.bump,
        },
    )
}

} // verus!
