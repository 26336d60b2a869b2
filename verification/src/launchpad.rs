//! The sale engine: buy, sell, bid and settle against a sale's terms and
//! its ledger record.

use vstd::prelude::*;
use crate::authority::assert_signer_is;
use crate::errors::CommonError;
use crate::errors::VertexError;
use crate::keccak::keccak256;
use crate::keccak::keccak_hash;
use crate::launchpad::state::LaunchConfig;
use crate::launchpad::state::LaunchPricing;
use crate::launchpad::state::SaleState;
use crate::launchpad::state::SaleStateView;
use crate::launchpad::state::SaleStatus;
use crate::merkle::proof_holds;
use crate::merkle::verify_merkle_proof;
use crate::pubkey::Pubkey;
use crate::time::Clock;

pub mod laws;
pub mod state;

verus! {

/// Errors of the sale operations.
#[derive(Clone, Copy, Debug, PartialEq, Eq, Structural)]
pub enum LaunchError {
    /// The configuration was initialised before.
    AlreadyInitialized,
    /// The quote is worse than the limit the trader set.
    SlippageExceeded,
    /// The sale is still active: it cannot be closed.
    SaleActive,
    /// The sale has a whitelist and no proof was given.
    WhitelistRequired,
    /// The operation is for auctions only.
    NotAuction,
    /// The sale is settled and takes no further operation.
    SaleSettled,
    /// The purchase would exceed the sale's global cap.
    CapExceeded,
    /// The purchase would exceed the buyer's wallet cap.
    WalletCapExceeded,
    /// The sale is an auction: bid instead of buying.
    AuctionBidRequired,
    /// The curve's kind is not priced here.
    UnsupportedCurve,
    /// The bid does not outbid the highest bid by the minimum increment.
    BidTooLow,
    /// The bid is below the reserve price.
    BidBelowReserve,
    /// The auction has not ended yet.
    AuctionStillActive,
    /// The auction takes no more bids.
    AuctionClosed,
    /// Selling back is for bonding-curve sales only.
    SellOnlyCurve,
    /// More is sold back than was sold, or than the seller is recorded with.
    SellTooLarge,
    /// The seller has no entry in the buyer table.
    UnknownBuyer,
}

/// The terms a sale is created with.
#[derive(Clone, Copy, Debug)]
pub struct InitLaunchArgs {
    /// Pricing model.
    pub pricing: LaunchPricing,
    /// Total number of tokens on sale.
    pub global_cap: u64,
    /// Most that one wallet may buy; zero for no limit.
    pub wallet_cap: u64,
    /// Start of the sale.
    pub start_time: i64,
    /// End of the sale.
    pub end_time: i64,
    /// Root of the whitelist, if the sale has one.
    pub whitelist_root: Option<[u8; 32]>,
}

/// Changes that the authority may make to a sale's terms.
#[derive(Clone, Copy, Debug)]
pub struct UpdateConfigArgs {
    /// New end of the sale, if it changes.
    pub end_time: Option<i64>,
    /// New wallet cap, if it changes.
    pub wallet_cap: Option<u64>,
}

impl Default for UpdateConfigArgs {
    /// No change.
    fn default() -> (args: Self)
        ensures
            args.end_time is None,
            args.wallet_cap is None,
    {
        UpdateConfigArgs { end_time: None, wallet_cap: None }
    }
}

/// What the custody service has to do for an accepted operation. The
/// operation and these movements commit together or not at all.
#[derive(Clone, Copy, Debug, PartialEq, Eq, Structural)]
pub struct CustodyOrder {
    /// Quote tokens to move from the trader to the treasury.
    pub to_treasury: u64,
    /// Quote tokens to move from the treasury to the trader.
    pub from_treasury: u64,
    /// Sale tokens to mint to the trader.
    pub minted: u64,
    /// Sale tokens to burn from the trader.
    pub burned: u64,
}

/// Bumps of the derived addresses of a sale's accounts.
#[derive(Clone, Copy, Debug, PartialEq, Eq, Structural)]
pub struct LaunchBumps {
    /// Bump of the treasury authority.
    pub treasury_authority: u8,
    /// Bump of the configuration.
    pub launch_config: u8,
    /// Bump of the sale record.
    pub sale_state: u8,
}

/// The siblings of an optional proof.
pub open spec fn proof_view(proof: Option<Vec<[u8; 32]>>) -> Option<Seq<[u8; 32]>> {
    match (proof) {
        Some(nodes) => Some(nodes@),
        None => None,
    }
}

/// The whitelist leaf of a wallet: the digest of its address alone.
pub open spec fn whitelist_leaf_of(wallet: Pubkey) -> Seq<u8> {
    keccak256(wallet@)
}

/// Whether `wallet` may trade: a sale without a whitelist admits everyone;
/// one with a whitelist wants a proof that leads from the wallet's leaf to
/// the committed root.
pub open spec fn whitelist_admits(
    config: LaunchConfig,
    wallet: Pubkey,
    proof: Option<Seq<[u8; 32]>>,
) -> Result<(), VertexError> {
    match config.whitelist_root {
        None => Ok(()),
        Some(root) => match (proof) {
            None => Err(VertexError::Launch(LaunchError::WhitelistRequired)),
            Some(nodes) => {
                if proof_holds(whitelist_leaf_of(wallet), nodes, root@) {
                    Ok(())
                } else {
                    Err(VertexError::Common(CommonError::InvalidMerkleProof))
                }
            },
        },
    }
}

/// The terms that `init_launch` creates, or the reason it refuses.
pub open spec fn launch_created(
    already_initialized: bool,
    authority: Pubkey,
    treasury_vault: Pubkey,
    mint: Pubkey,
    args: InitLaunchArgs,
    bumps: LaunchBumps,
) -> Result<LaunchConfig, VertexError> {
    if already_initialized {
        Err(VertexError::Launch(LaunchError::AlreadyInitialized))
    } else {
        match LaunchConfig::from_args(authority, treasury_vault, mint, args) {
            Err(e) => Err(e),
            Ok(config) => Ok(
                LaunchConfig {
                    treasury_bump: bumps.treasury_authority,
                    config_bump: bumps.launch_config,
                    sale_state_bump: bumps.sale_state,
                    initialized: true,
                    ..config
                },
            ),
        }
    }
}

/// The record and the price after a purchase, or the reason it is refused.
/// The checks come in this order: time window, whitelist, caps, quote,
/// slippage, bookkeeping.
pub open spec fn buy_outcome(
    config: LaunchConfig,
    state: SaleStateView,
    now: i64,
    buyer: Pubkey,
    amount: u64,
    proof: Option<Seq<[u8; 32]>>,
    max_quote: u64,
) -> Result<(SaleStateView, u64), VertexError> {
    if now < config.start_time || now > config.end_time {
        Err(VertexError::Common(CommonError::TimestampInvalid))
    } else if whitelist_admits(config, buyer, proof) is Err {
        Err(whitelist_admits(config, buyer, proof)->Err_0)
    } else if state.allows_purchase(buyer, amount, config) is Err {
        Err(state.allows_purchase(buyer, amount, config)->Err_0)
    } else {
        match config.pricing.buy_quote(state.sold, amount) {
            Err(e) => Err(e),
            Ok(quote) => {
                if quote > max_quote {
                    Err(VertexError::Launch(LaunchError::SlippageExceeded))
                } else {
                    match state.purchased(buyer, amount, quote, config) {
                        Err(e) => Err(e),
                        Ok(next) => Ok((next, quote)),
                    }
                }
            },
        }
    }
}

/// The record and the price after a sale back to the curve, or the reason
/// it is refused.
pub open spec fn sell_outcome(
    config: LaunchConfig,
    state: SaleStateView,
    now: i64,
    seller: Pubkey,
    amount: u64,
    min_quote: u64,
) -> Result<(SaleStateView, u64), VertexError> {
    if !(config.pricing is BondingCurve) {
        Err(VertexError::Launch(LaunchError::SellOnlyCurve))
    } else if now < config.start_time || now > config.end_time {
        Err(VertexError::Common(CommonError::TimestampInvalid))
    } else if amount == 0 {
        Err(VertexError::Common(CommonError::ConstraintViolation))
    } else {
        match config.pricing.sell_quote(state.sold, amount) {
            Err(e) => Err(e),
            Ok(quote) => {
                if quote < min_quote {
                    Err(VertexError::Launch(LaunchError::SlippageExceeded))
                } else {
                    match state.sold_back(seller, amount, quote) {
                        Err(e) => Err(e),
                        Ok(next) => Ok((next, quote)),
                    }
                }
            },
        }
    }
}

/// The record after a bid, or the reason it is refused.
pub open spec fn bid_outcome(
    config: LaunchConfig,
    state: SaleStateView,
    now: i64,
    bidder: Pubkey,
    amount: u64,
    proof: Option<Seq<[u8; 32]>>,
) -> Result<SaleStateView, VertexError> {
    if !(config.pricing is Auction) {
        Err(VertexError::Launch(LaunchError::NotAuction))
    } else if now < config.start_time {
        Err(VertexError::Common(CommonError::TimestampInvalid))
    } else if amount == 0 {
        Err(VertexError::Common(CommonError::ConstraintViolation))
    } else if whitelist_admits(config, bidder, proof) is Err {
        Err(whitelist_admits(config, bidder, proof)->Err_0)
    } else {
        state.bid_placed(bidder, amount, config, now)
    }
}

/// The record after settlement, or the reason it is refused.
pub open spec fn settle_outcome(config: LaunchConfig, state: SaleStateView, now: i64) -> Result<
    SaleStateView,
    VertexError,
> {
    if !(config.pricing is Auction) {
        Err(VertexError::Launch(LaunchError::NotAuction))
    } else {
        state.settled(config, now)
    }
}

/// The whitelist leaf of a wallet.
pub fn whitelist_leaf(wallet: &Pubkey) -> (leaf: [u8; 32])
    ensures
        leaf@ == whitelist_leaf_of(*wallet),
{
    keccak_hash(wallet.bytes.as_slice())
}

/// Checks a wallet against the sale's whitelist, if it has one.
pub fn check_whitelist(config: &LaunchConfig, wallet: &Pubkey, proof: &Option<Vec<[u8; 32]>>) -> (r:
    Result<(), VertexError>)
    ensures
        r == whitelist_admits(*config, *wallet, proof_view(*proof)),
{
    match config.whitelist_root {
        None => Ok(()),
        Some(root) => {
            let leaf = whitelist_leaf(wallet);
            match (proof) {
                None => Err(VertexError::Launch(LaunchError::WhitelistRequired)),
                Some(nodes) => {
                    if verify_merkle_proof(leaf, nodes.as_slice(), root) {
                        Ok(())
                    } else {
                        Err(VertexError::Common(CommonError::InvalidMerkleProof))
                    }
                },
            }
        },
    }
}

/// Creates a sale: its terms, marked initialised and carrying the bumps,
/// and a fresh record. Refused where the terms were initialised before or
/// are not consistent.
pub fn init_launch(
    already_initialized: bool,
    authority: &Pubkey,
    treasury_vault: &Pubkey,
    mint: &Pubkey,
    args: InitLaunchArgs,
    bumps: LaunchBumps,
) -> (r: Result<(LaunchConfig, SaleState), VertexError>)
    ensures
        match launch_created(already_initialized, *authority, *treasury_vault, *mint, args, bumps) {
            Ok(config) => r matches Ok((c, state)) && c == config && c.valid() && state@.zeroed()
                && state.wf() && state@.within_caps(c),
            Err(e) => r matches Err(err) && err == e,
        },
{
    if already_initialized {
        return Err(VertexError::Launch(LaunchError::AlreadyInitialized));
    }
    let mut new_config = match LaunchConfig::try_from_args(authority, treasury_vault, mint, args) {
        Ok(c) => c,
        Err(e) => { return Err(e); },
    };
    new_config.treasury_bump = bumps.treasury_authority;
    new_config.config_bump = bumps.launch_config;
    new_config.sale_state_bump = bumps.sale_state;
    new_config.initialized = true;
    let state = SaleState::default();
    Ok((new_config, state))
}

/// Changes a sale's terms on behalf of `signer`, who must be the sale's
/// authority.
pub fn update_config(config: &mut LaunchConfig, signer: &Pubkey, args: UpdateConfigArgs) -> (r:
    Result<(), VertexError>)
    ensures
        match (
            if *signer != old(config).authority {
                Err(VertexError::Authority(crate::authority::ErrorCode::UnauthorizedAuthority))
            } else {
                old(config).updated(args)
            }
        ) {
            Ok(next) => r is Ok && *final(config) == next,
            Err(e) => r == Err::<(), VertexError>(e) && *final(config) == *old(config),
        },
        old(config).valid() ==> final(config).valid(),
{
    match assert_signer_is(config.authority(), signer) {
        Ok(()) => {},
        Err(e) => { return Err(VertexError::Authority(e)); },
    }
    config.update(args)
}

/// Buys `amount` tokens for `buyer` at time `clock`, paying at most
/// `max_quote`. On success the record is updated and the order says what
/// to move: the price to the treasury, the tokens to the buyer. On an error
/// the record is as it was.
pub fn buy(
    config: &LaunchConfig,
    state: &mut SaleState,
    clock: &Clock,
    buyer: &Pubkey,
    amount: u64,
    proof: Option<Vec<[u8; 32]>>,
    max_quote: u64,
) -> (r: Result<CustodyOrder, VertexError>)
    requires
        old(state).wf(),
    ensures
        match buy_outcome(
            *config,
            old(state)@,
            clock.unix_timestamp,
            *buyer,
            amount,
            proof_view(proof),
            max_quote,
        ) {
            Ok((next, quote)) => {
                &&& r == Ok::<CustodyOrder, VertexError>(
                    CustodyOrder { to_treasury: quote, from_treasury: 0, minted: amount, burned: 0 },
                )
                &&& final(state)@ == next
            },
            Err(e) => r == Err::<CustodyOrder, VertexError>(e) && *final(state) == *old(state),
        },
        final(state).wf(),
        old(state)@.within_caps(*config) ==> final(state)@.within_caps(*config),
        old(state).status.rank() <= final(state).status.rank(),
{
    let now = clock.unix_timestamp;
    if !(now >= config.start_time) {
        return Err(VertexError::Common(CommonError::TimestampInvalid));
    }
    if !(now <= config.end_time) {
        return Err(VertexError::Common(CommonError::TimestampInvalid));
    }
    match check_whitelist(config, buyer, &proof) {
        Ok(()) => {},
        Err(e) => { return Err(e); },
    }
    match state.assert_allows_purchase(buyer, amount, config) {
        Ok(()) => {},
        Err(e) => { return Err(e); },
    }
    let quote_amount = match config.pricing.quote_buy(state.sold, amount) {
        Ok(q) => q,
        Err(e) => { return Err(e); },
    };
    if !(quote_amount <= max_quote) {
        return Err(VertexError::Launch(LaunchError::SlippageExceeded));
    }
    proof {
        if state@.purchased(*buyer, amount, quote_amount, *config) is Ok {
            crate::launchpad::laws::lemma_purchase_keeps_caps(
                state@,
                *buyer,
                amount,
                quote_amount,
                *config,
            );
        }
    }
    match state.record_purchase(buyer, amount, quote_amount, config) {
        Ok(()) => {},
        Err(e) => { return Err(e); },
    }
    Ok(CustodyOrder { to_treasury: quote_amount, from_treasury: 0, minted: amount, burned: 0 })
}

/// Sells `amount` tokens of `seller` back to the curve at time `clock`,
/// for at least `min_quote`. On success the record is updated and the
/// order says what to move: the tokens are burned, the price goes from the
/// treasury to the seller. On an error the record is as it was.
pub fn sell(
    config: &LaunchConfig,
    state: &mut SaleState,
    clock: &Clock,
    seller: &Pubkey,
    amount: u64,
    min_quote: u64,
) -> (r: Result<CustodyOrder, VertexError>)
    requires
        old(state).wf(),
    ensures
        match sell_outcome(*config, old(state)@, clock.unix_timestamp, *seller, amount, min_quote) {
            Ok((next, quote)) => {
                &&& r == Ok::<CustodyOrder, VertexError>(
                    CustodyOrder { to_treasury: 0, from_treasury: quote, minted: 0, burned: amount },
                )
                &&& final(state)@ == next
            },
            Err(e) => r == Err::<CustodyOrder, VertexError>(e) && *final(state) == *old(state),
        },
        final(state).wf(),
        old(state)@.within_caps(*config) ==> final(state)@.within_caps(*config),
        old(state).status.rank() <= final(state).status.rank(),
{
    match config.pricing {
        LaunchPricing::BondingCurve { .. } => {},
        _ => { return Err(VertexError::Launch(LaunchError::SellOnlyCurve)); },
    }
    let now = clock.unix_timestamp;
    if !(now >= config.start_time) {
        return Err(VertexError::Common(CommonError::TimestampInvalid));
    }
    if !(now <= config.end_time) {
        return Err(VertexError::Common(CommonError::TimestampInvalid));
    }
    if !(amount > 0) {
        return Err(VertexError::Common(CommonError::ConstraintViolation));
    }
    let quote_amount = match config.pricing.quote_sell(state.sold, amount) {
        Ok(q) => q,
        Err(e) => { return Err(e); },
    };
    if !(quote_amount >= min_quote) {
        return Err(VertexError::Launch(LaunchError::SlippageExceeded));
    }
    proof {
        if state@.sold_back(*seller, amount, quote_amount) is Ok {
            crate::launchpad::laws::lemma_sale_back_keeps_caps(
                state@,
                *seller,
                amount,
                quote_amount,
                *config,
            );
        }
    }
    match state.record_sell(seller, amount, quote_amount) {
        Ok(()) => {},
        Err(e) => { return Err(e); },
    }
    Ok(CustodyOrder { to_treasury: 0, from_treasury: quote_amount, minted: 0, burned: amount })
}

/// Places a bid of `amount` for `bidder` at time `clock`. On success the
/// record is updated and the order moves the bid to the treasury at once.
/// On an error the record is as it was.
pub fn bid(
    config: &LaunchConfig,
    state: &mut SaleState,
    clock: &Clock,
    bidder: &Pubkey,
    amount: u64,
    proof: Option<Vec<[u8; 32]>>,
) -> (r: Result<CustodyOrder, VertexError>)
    ensures
        match bid_outcome(
            *config,
            old(state)@,
            clock.unix_timestamp,
            *bidder,
            amount,
            proof_view(proof),
        ) {
            Ok(next) => {
                &&& r == Ok::<CustodyOrder, VertexError>(
                    CustodyOrder { to_treasury: amount, from_treasury: 0, minted: 0, burned: 0 },
                )
                &&& final(state)@ == next
            },
            Err(e) => r == Err::<CustodyOrder, VertexError>(e) && *final(state) == *old(state),
        },
        old(state).wf() ==> final(state).wf(),
        old(state)@.within_caps(*config) ==> final(state)@.within_caps(*config),
        old(state).status.rank() <= final(state).status.rank(),
{
    match config.pricing {
        LaunchPricing::Auction { .. } => {},
        _ => { return Err(VertexError::Launch(LaunchError::NotAuction)); },
    }
    if !(clock.unix_timestamp >= config.start_time) {
        return Err(VertexError::Common(CommonError::TimestampInvalid));
    }
    if !(amount > 0) {
        return Err(VertexError::Common(CommonError::ConstraintViolation));
    }
    match check_whitelist(config, bidder, &proof) {
        Ok(()) => {},
        Err(e) => { return Err(e); },
    }
    match state.record_bid(bidder, amount, config, clock) {
        Ok(()) => {},
        Err(e) => { return Err(e); },
    }
    Ok(CustodyOrder { to_treasury: amount, from_treasury: 0, minted: 0, burned: 0 })
}

/// Settles the auction at time `clock`: only an auction, only once its end
/// has come, and only once. On an error the record is as it was.
pub fn settle_auction(config: &LaunchConfig, state: &mut SaleState, clock: &Clock) -> (r: Result<
    (),
    VertexError,
>)
    ensures
        match settle_outcome(*config, old(state)@, clock.unix_timestamp) {
            Ok(next) => r is Ok && final(state)@ == next,
            Err(e) => r == Err::<(), VertexError>(e) && *final(state) == *old(state),
        },
        old(state).wf() ==> final(state).wf(),
        old(state)@.within_caps(*config) ==> final(state)@.within_caps(*config),
        old(state).status.rank() <= final(state).status.rank(),
{
    match config.pricing {
        LaunchPricing::Auction { .. } => {},
        _ => { return Err(VertexError::Launch(LaunchError::NotAuction)); },
    }
    state.settle_auction(config, clock)
}

/// Lets the sale's authority take `amount` out of the treasury: the order
/// moves it, if `signer` is the authority.
pub fn withdraw_treasury(config: &LaunchConfig, signer: &Pubkey, amount: u64) -> (r: Result<
    CustodyOrder,
    VertexError,
>)
    ensures
        match r {
            Ok(order) => {
                &&& *signer == config.authority
                &&& order == (
                    CustodyOrder { to_treasury: 0, from_treasury: amount, minted: 0, burned: 0 }
                )
            },
            Err(e) => {
                &&& *signer != config.authority
                &&& e == VertexError::Authority(
                    crate::authority::ErrorCode::UnauthorizedAuthority,
                )
            },
        },
{
    match assert_signer_is(config.authority(), signer) {
        Ok(()) => {},
        Err(e) => { return Err(VertexError::Authority(e)); },
    }
    Ok(CustodyOrder { to_treasury: 0, from_treasury: amount, minted: 0, burned: 0 })
}

/// Whether the sale's record may be closed: by the authority, and only
/// once the sale is settled.
pub fn close(config: &LaunchConfig, state: &SaleState, signer: &Pubkey) -> (r: Result<
    (),
    VertexError,
>)
    ensures
        match r {
            Ok(()) => *signer == config.authority && state.status == SaleStatus::Settled,
            Err(e) => {
                if *signer != config.authority {
                    e == VertexError::Authority(crate::authority::ErrorCode::UnauthorizedAuthority)
                } else {
                    e == VertexError::Launch(LaunchError::SaleActive) && state.status
                        != SaleStatus::Settled
                }
            },
        },
{
    match assert_signer_is(config.authority(), signer) {
        Ok(()) => {},
        Err(e) => { return Err(VertexError::Authority(e)); },
    }
    if !(state.status == SaleStatus::Settled) {
        return Err(VertexError::Launch(LaunchError::SaleActive));
    }
    Ok(())
}

} // verus!
