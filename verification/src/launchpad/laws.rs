//! What holds of every sale: the caps, the one-way lifecycle, and that a
//! refused operation changes nothing.

use vstd::prelude::*;
use crate::launchpad::bid_outcome;
use crate::launchpad::buy_outcome;
use crate::launchpad::sell_outcome;
use crate::launchpad::settle_outcome;
use crate::launchpad::state::required_bid;
use crate::launchpad::state::LaunchConfig;
use crate::launchpad::state::SaleStateView;
use crate::launchpad::state::SaleStatus;
use crate::pubkey::Pubkey;

verus! {

/// The slot that `find_buyer` names is in use and holds the buyer; where it
/// names none, no first entry of the buyer exists.
pub proof fn lemma_find_buyer(state: SaleStateView, buyer: Pubkey)
    ensures
        match state.find_buyer(buyer) {
            Some(i) => state.is_first_entry_of(buyer, i),
            None => forall|i: int| !state.is_first_entry_of(buyer, i),
        },
{
}

/// A purchase that the caps admit leaves the caps in force, keeps the
/// table valid, and never takes the status back.
pub proof fn lemma_purchase_keeps_caps(
    state: SaleStateView,
    buyer: Pubkey,
    amount: u64,
    quote_amount: u64,
    config: LaunchConfig,
)
    requires
        state.table_valid(),
        state.allows_purchase(buyer, amount, config) is Ok,
        state.purchased(buyer, amount, quote_amount, config) is Ok,
    ensures
        state.purchased(buyer, amount, quote_amount, config).unwrap().table_valid(),
        state.within_caps(config) ==> state.purchased(
            buyer,
            amount,
            quote_amount,
            config,
        ).unwrap().within_caps(config),
        state.status.rank() <= state.purchased(
            buyer,
            amount,
            quote_amount,
            config,
        ).unwrap().status.rank(),
{
    let next = state.purchased(buyer, amount, quote_amount, config).unwrap();
    lemma_find_buyer(state, buyer);
    if state.within_caps(config) && config.wallet_cap > 0 {
        assert forall|i: int| 0 <= i < next.buyer_count implies (#[trigger] next.buyers[i]).purchased
            <= config.wallet_cap by {
            match state.find_buyer(buyer) {
                Some(k) => {
                    if i != k {
                        assert(next.buyers[i] == state.buyers[i]);
                    }
                },
                None => {
                    if i != state.buyer_count {
                        assert(next.buyers[i] == state.buyers[i]);
                    }
                },
            }
        }
    }
}

/// A sale back to the curve leaves the caps in force and the status as it
/// was.
pub proof fn lemma_sale_back_keeps_caps(
    state: SaleStateView,
    seller: Pubkey,
    amount: u64,
    quote_amount: u64,
    config: LaunchConfig,
)
    requires
        state.table_valid(),
        state.sold_back(seller, amount, quote_amount) is Ok,
    ensures
        state.sold_back(seller, amount, quote_amount).unwrap().table_valid(),
        state.within_caps(config) ==> state.sold_back(
            seller,
            amount,
            quote_amount,
        ).unwrap().within_caps(config),
        state.sold_back(seller, amount, quote_amount).unwrap().status == state.status,
{
    let next = state.sold_back(seller, amount, quote_amount).unwrap();
    lemma_find_buyer(state, seller);
    if state.within_caps(config) && config.wallet_cap > 0 {
        let k = state.find_buyer(seller).unwrap();
        assert forall|i: int| 0 <= i < next.buyer_count implies (#[trigger] next.buyers[i]).purchased
            <= config.wallet_cap by {
            if i != k {
                assert(next.buyers[i] == state.buyers[i]);
            } else {
                assert(state.buyers[k].purchased <= config.wallet_cap);
            }
        }
    }
}

/// A bid leaves the caps in force and never takes the status back.
pub proof fn lemma_bid_keeps_caps(
    state: SaleStateView,
    bidder: Pubkey,
    amount: u64,
    config: LaunchConfig,
    now: i64,
)
    requires
        state.bid_placed(bidder, amount, config, now) is Ok,
    ensures
        state.table_valid() ==> state.bid_placed(bidder, amount, config, now).unwrap().table_valid(),
        state.within_caps(config) ==> state.bid_placed(
            bidder,
            amount,
            config,
            now,
        ).unwrap().within_caps(config),
        state.status.rank() <= state.bid_placed(bidder, amount, config, now).unwrap().status.rank(),
{
}

/// Settlement leaves the caps in force: a Dutch auction sells exactly what
/// was on sale.
pub proof fn lemma_settlement_keeps_caps(state: SaleStateView, config: LaunchConfig, now: i64)
    requires
        state.settled(config, now) is Ok,
    ensures
        state.table_valid() ==> state.settled(config, now).unwrap().table_valid(),
        state.within_caps(config) ==> state.settled(config, now).unwrap().within_caps(config),
        state.settled(config, now).unwrap().status == SaleStatus::Settled,
{
}

/// The increment rule of an auction: once there is a highest bid, a bid is
/// taken only if it reaches that bid plus the minimum increment, and every
/// bid short of that is refused.
pub proof fn lemma_bid_increment(
    state: SaleStateView,
    bidder: Pubkey,
    amount: u64,
    config: LaunchConfig,
    now: i64,
)
    requires
        state.highest_bid > 0,
        config.pricing.auction() is Some,
    ensures
        state.bid_placed(bidder, amount, config, now) is Ok ==> amount >= required_bid(
            state.highest_bid,
            config.pricing.auction().unwrap().min_increment_bps,
        ),
        amount < required_bid(
            state.highest_bid,
            config.pricing.auction().unwrap().min_increment_bps,
        ) ==> state.bid_placed(bidder, amount, config, now) is Err,
        state.bid_placed(bidder, amount, config, now) is Ok ==> amount > state.highest_bid,
{
}

/// A settled sale is final: every operation on it is refused.
pub proof fn lemma_settled_is_final(
    config: LaunchConfig,
    state: SaleStateView,
    now: i64,
    trader: Pubkey,
    amount: u64,
    proof_nodes: Option<Seq<[u8; 32]>>,
    limit: u64,
)
    requires
        state.status == SaleStatus::Settled,
    ensures
        buy_outcome(config, state, now, trader, amount, proof_nodes, limit) is Err,
        sell_outcome(config, state, now, trader, amount, limit) is Err,
        bid_outcome(config, state, now, trader, amount, proof_nodes) is Err,
        settle_outcome(config, state, now) is Err,
{
}

/// An operation of the sale engine, with the time at which it is made.
pub enum SaleOp {
    /// A purchase.
    Buy { buyer: Pubkey, amount: u64, siblings: Option<Seq<[u8; 32]>>, max_quote: u64, now: i64 },
    /// A sale back to the curve.
    Sell { seller: Pubkey, amount: u64, min_quote: u64, now: i64 },
    /// A bid.
    Bid { bidder: Pubkey, amount: u64, siblings: Option<Seq<[u8; 32]>>, now: i64 },
    /// Settlement of the auction.
    Settle { now: i64 },
}

/// The record after one operation: the operation's result where it is
/// accepted, the record unchanged where it is refused.
pub open spec fn step(config: LaunchConfig, state: SaleStateView, op: SaleOp) -> SaleStateView {
    match op {
        SaleOp::Buy { buyer, amount, siblings, max_quote, now } => match buy_outcome(
            config,
            state,
            now,
            buyer,
            amount,
            siblings,
            max_quote,
        ) {
            Ok((next, _)) => next,
            Err(_) => state,
        },
        SaleOp::Sell { seller, amount, min_quote, now } => match sell_outcome(
            config,
            state,
            now,
            seller,
            amount,
            min_quote,
        ) {
            Ok((next, _)) => next,
            Err(_) => state,
        },
        SaleOp::Bid { bidder, amount, siblings, now } => match bid_outcome(
            config,
            state,
            now,
            bidder,
            amount,
            siblings,
        ) {
            Ok(next) => next,
            Err(_) => state,
        },
        SaleOp::Settle { now } => match settle_outcome(config, state, now) {
            Ok(next) => next,
            Err(_) => state,
        },
    }
}

/// The record after a history of operations on a sale with fixed terms.
pub open spec fn run(config: LaunchConfig, start: SaleStateView, ops: Seq<SaleOp>) -> SaleStateView
    decreases ops.len(),
{
    if ops.len() == 0 {
        start
    } else {
        step(config, run(config, start, ops.drop_last()), ops.last())
    }
}

/// One operation, accepted or refused, keeps the table valid and the caps
/// in force, and never takes the status back.
pub proof fn lemma_step_keeps_invariant(config: LaunchConfig, state: SaleStateView, op: SaleOp)
    requires
        state.table_valid(),
    ensures
        step(config, state, op).table_valid(),
        state.within_caps(config) ==> step(config, state, op).within_caps(config),
        state.status.rank() <= step(config, state, op).status.rank(),
{
    match op {
        SaleOp::Buy { buyer, amount, siblings, max_quote, now } => {
            match buy_outcome(config, state, now, buyer, amount, siblings, max_quote) {
                Ok((next, quote)) => {
                    lemma_purchase_keeps_caps(state, buyer, amount, quote, config);
                },
                Err(_) => {},
            }
        },
        SaleOp::Sell { seller, amount, min_quote, now } => {
            match sell_outcome(config, state, now, seller, amount, min_quote) {
                Ok((next, quote)) => {
                    lemma_sale_back_keeps_caps(state, seller, amount, quote, config);
                },
                Err(_) => {},
            }
        },
        SaleOp::Bid { bidder, amount, siblings, now } => {
            match bid_outcome(config, state, now, bidder, amount, siblings) {
                Ok(next) => {
                    lemma_bid_keeps_caps(state, bidder, amount, config, now);
                },
                Err(_) => {},
            }
        },
        SaleOp::Settle { now } => {
            match settle_outcome(config, state, now) {
                Ok(next) => {
                    lemma_settlement_keeps_caps(state, config, now);
                },
                Err(_) => {},
            }
        },
    }
}

/// In every state that a sale can reach from a fresh record, whatever
/// operations were tried in whatever order, no more is sold than is on
/// sale, and where the wallet cap is on no tracked buyer holds more than
/// it.
pub proof fn theorem_caps_hold_in_every_reachable_state(
    config: LaunchConfig,
    start: SaleStateView,
    ops: Seq<SaleOp>,
)
    requires
        start.zeroed(),
    ensures
        run(config, start, ops).table_valid(),
        run(config, start, ops).within_caps(config),
    decreases ops.len(),
{
    if ops.len() > 0 {
        theorem_caps_hold_in_every_reachable_state(config, start, ops.drop_last());
        lemma_step_keeps_invariant(config, run(config, start, ops.drop_last()), ops.last());
    }
}

/// Where the caps hold, what any wallet is recorded with is within the
/// wallet cap.
pub proof fn lemma_every_buyer_within_cap(state: SaleStateView, config: LaunchConfig, buyer: Pubkey)
    requires
        state.within_caps(config),
        config.wallet_cap > 0,
    ensures
        state.purchased_by(buyer) <= config.wallet_cap,
{
    lemma_find_buyer(state, buyer);
}

/// The status only advances: along any history, the status at an earlier
/// point is never ahead of the status at a later point.
pub proof fn theorem_status_never_regresses(
    config: LaunchConfig,
    start: SaleStateView,
    ops: Seq<SaleOp>,
    earlier: int,
    later: int,
)
    requires
        start.table_valid(),
        0 <= earlier <= later <= ops.len(),
    ensures
        run(config, start, ops.take(earlier)).status.rank() <= run(
            config,
            start,
            ops.take(later),
        ).status.rank(),
    decreases later - earlier,
{
    if earlier < later {
        theorem_status_never_regresses(config, start, ops, earlier, later - 1);
        let prefix = ops.take(later);
        assert(prefix.drop_last() =~= ops.take(later - 1));
        lemma_run_keeps_table(config, start, ops.take(later - 1));
        lemma_step_keeps_invariant(
            config,
            run(config, start, ops.take(later - 1)),
            prefix.last(),
        );
    }
}

/// A history of operations keeps the table valid.
pub proof fn lemma_run_keeps_table(config: LaunchConfig, start: SaleStateView, ops: Seq<SaleOp>)
    requires
        start.table_valid(),
    ensures
        run(config, start, ops).table_valid(),
    decreases ops.len(),
{
    if ops.len() > 0 {
        lemma_run_keeps_table(config, start, ops.drop_last());
        lemma_step_keeps_invariant(config, run(config, start, ops.drop_last()), ops.last());
    }
}

/// A change of terms leaves the caps in force where the new wallet cap is
/// off or no tracked buyer holds more than it.
pub proof fn lemma_update_keeps_caps(
    state: SaleStateView,
    config: LaunchConfig,
    args: crate::launchpad::UpdateConfigArgs,
)
    requires
        state.within_caps(config),
        config.updated(args) is Ok,
        args.wallet_cap matches Some(cap) ==> cap == 0 || forall|i: int|
            0 <= i < state.buyer_count ==> (#[trigger] state.buyers[i]).purchased <= cap,
    ensures
        state.within_caps(config.updated(args).unwrap()),
{
}

/// A wallet that holds a slot in use holds a first one.
pub proof fn lemma_tracked_buyer_is_found(state: SaleStateView, buyer: Pubkey, i: int)
    requires
        0 <= i < state.buyer_count,
        state.buyers[i].buyer == buyer,
    ensures
        state.find_buyer(buyer) is Some,
    decreases i,
{
    if forall|j: int| 0 <= j < i ==> (#[trigger] state.buyers[j]).buyer != buyer {
        assert(state.is_first_entry_of(buyer, i));
    } else {
        let j = choose|j: int| 0 <= j < i && (#[trigger] state.buyers[j]).buyer == buyer;
        lemma_tracked_buyer_is_found(state, buyer, j);
    }
}

/// One operation, accepted or refused, never gives a wallet a second
/// entry.
pub proof fn lemma_step_keeps_buyers_distinct(config: LaunchConfig, state: SaleStateView, op: SaleOp)
    requires
        state.table_valid(),
        state.buyers_distinct(),
    ensures
        step(config, state, op).buyers_distinct(),
{
    let next = step(config, state, op);
    match op {
        SaleOp::Buy { buyer, amount, siblings, max_quote, now } => {
            if buy_outcome(config, state, now, buyer, amount, siblings, max_quote) is Ok {
                lemma_find_buyer(state, buyer);
                assert forall|i: int, j: int| 0 <= i < j < next.buyer_count implies (
                #[trigger] next.buyers[i]).buyer != (#[trigger] next.buyers[j]).buyer by {
                    if config.wallet_cap > 0 {
                        match state.find_buyer(buyer) {
                            Some(k) => {
                                assert(next.buyers[i].buyer == state.buyers[i].buyer);
                                assert(next.buyers[j].buyer == state.buyers[j].buyer);
                            },
                            None => {
                                assert(next.buyers[i].buyer == state.buyers[i].buyer);
                                if j < state.buyer_count {
                                    assert(next.buyers[j].buyer == state.buyers[j].buyer);
                                } else {
                                    if state.buyers[i].buyer == buyer {
                                        lemma_tracked_buyer_is_found(state, buyer, i);
                                    }
                                }
                            },
                        }
                    }
                }
            }
        },
        SaleOp::Sell { seller, amount, min_quote, now } => {
            if sell_outcome(config, state, now, seller, amount, min_quote) is Ok {
                lemma_find_buyer(state, seller);
                assert forall|i: int, j: int| 0 <= i < j < next.buyer_count implies (
                #[trigger] next.buyers[i]).buyer != (#[trigger] next.buyers[j]).buyer by {
                    assert(next.buyers[i].buyer == state.buyers[i].buyer);
                    assert(next.buyers[j].buyer == state.buyers[j].buyer);
                }
            }
        },
        SaleOp::Bid { bidder, amount, siblings, now } => {},
        SaleOp::Settle { now } => {},
    }
}

/// In every state that a sale can reach from a fresh record, each tracked
/// wallet has exactly one entry in the buyer table.
pub proof fn theorem_buyers_distinct_in_every_reachable_state(
    config: LaunchConfig,
    start: SaleStateView,
    ops: Seq<SaleOp>,
)
    requires
        start.zeroed(),
    ensures
        run(config, start, ops).buyers_distinct(),
    decreases ops.len(),
{
    if ops.len() > 0 {
        theorem_buyers_distinct_in_every_reachable_state(config, start, ops.drop_last());
        lemma_run_keeps_table(config, start, ops.drop_last());
        lemma_step_keeps_buyers_distinct(
            config,
            run(config, start, ops.drop_last()),
            ops.last(),
        );
    }
}

} // verus!
