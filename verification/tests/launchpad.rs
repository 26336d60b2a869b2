use keystone_vertex::authority::ErrorCode;
use keystone_vertex::curve::{CurveConfig, CurveError, CurveKind};
use keystone_vertex::errors::{CommonError, VertexError};
use keystone_vertex::fees::FeeConfig;
use keystone_vertex::launchpad::state::{
    AuctionConfig, AuctionKind, LaunchConfig, LaunchPricing, SaleState, SaleStateError,
    SaleStatus, MAX_TRACKED_BUYERS,
};
use keystone_vertex::launchpad::{
    bid, buy, close, init_launch, sell, settle_auction, update_config, withdraw_treasury,
    CustodyOrder, InitLaunchArgs, LaunchBumps, LaunchError, UpdateConfigArgs,
};
use keystone_vertex::merkle::hash_nodes;
use keystone_vertex::launchpad::whitelist_leaf;
use keystone_vertex::pubkey::Pubkey;
use keystone_vertex::time::Clock;

fn key(n: u8) -> Pubkey {
    Pubkey::new_from_array([n; 32])
}

fn at(t: i64) -> Clock {
    Clock { slot: 0, unix_timestamp: t }
}

fn config_with(pricing: LaunchPricing, global_cap: u64, wallet_cap: u64) -> LaunchConfig {
    LaunchConfig {
        authority: key(200),
        treasury_vault: key(201),
        mint: key(202),
        pricing,
        global_cap,
        wallet_cap,
        start_time: 0,
        end_time: 10,
        whitelist_root: None,
        treasury_bump: 0,
        config_bump: 0,
        sale_state_bump: 0,
        initialized: true,
    }
}

fn fixed(price: u64, global_cap: u64, wallet_cap: u64) -> LaunchConfig {
    config_with(LaunchPricing::Fixed { price }, global_cap, wallet_cap)
}

fn linear(base_price: u64, k: u64, max_supply: u64) -> CurveConfig {
    CurveConfig {
        kind: CurveKind::Linear,
        base_price,
        k,
        x0: 0,
        max_supply,
        fee_config: FeeConfig { numerator: 0, denominator: 1, fee_vault: Pubkey::default() },
    }
}

fn auction(kind: AuctionKind, floor: u64, bps: u16, anti_snipe: i64) -> LaunchConfig {
    let mut c = config_with(
        LaunchPricing::Auction {
            config: AuctionConfig {
                kind,
                start_price: floor,
                floor_price: floor,
                min_increment_bps: bps,
                anti_snipe_seconds: anti_snipe,
            },
        },
        1_000,
        0,
    );
    c.end_time = 1_000;
    c
}

fn snapshot(s: &SaleState) -> (u64, u64, SaleStatus, u64, Pubkey, i64, Vec<(Pubkey, u64)>, u16) {
    (
        s.sold,
        s.proceeds,
        s.status,
        s.highest_bid,
        s.highest_bidder,
        s.auction_end,
        s.buyers.iter().map(|b| (b.buyer, b.purchased)).collect(),
        s.buyer_count,
    )
}

fn order(to_treasury: u64, from_treasury: u64, minted: u64, burned: u64) -> CustodyOrder {
    CustodyOrder { to_treasury, from_treasury, minted, burned }
}

#[test]
fn enforce_wallet_cap() {
    let config = LaunchConfig {
        authority: key(1),
        treasury_vault: key(2),
        mint: key(3),
        pricing: LaunchPricing::Fixed { price: 1_000_000_000 },
        global_cap: 100,
        wallet_cap: 10,
        start_time: 0,
        end_time: 10,
        whitelist_root: None,
        treasury_bump: 0,
        config_bump: 0,
        sale_state_bump: 0,
        initialized: true,
    };
    let mut state = SaleState::default();
    let buyer = key(4);
    state.assert_allows_purchase(&buyer, 5, &config).unwrap();
    state.record_purchase(&buyer, 5, 5, &config).unwrap();
    assert!(state.assert_allows_purchase(&buyer, 6, &config).is_err());
}

#[test]
fn fresh_record_is_zeroed() {
    let s = SaleState::default();
    assert_eq!(s.sold, 0);
    assert_eq!(s.proceeds, 0);
    assert_eq!(s.status, SaleStatus::Pending);
    assert_eq!(s.highest_bid, 0);
    assert_eq!(s.highest_bidder, Pubkey::default());
    assert_eq!(s.auction_end, 0);
    assert_eq!(s.buyer_count, 0);
    assert_eq!(s.buyers.len(), MAX_TRACKED_BUYERS);
    assert!(s.buyers.iter().all(|b| b.purchased == 0 && b.buyer == Pubkey::default()));
    assert!(s.is_well_formed());
}

#[test]
fn wallet_cap_is_enforced_per_buyer() {
    let config = fixed(2, 100, 10);
    let mut state = SaleState::default();
    let x = key(7);
    assert_eq!(buy(&config, &mut state, &at(1), &x, 5, None, u64::MAX), Ok(order(10, 0, 5, 0)));
    assert_eq!(state.buyers[0].purchased, 5);
    assert_eq!(state.buyers[0].buyer, x);
    assert_eq!(state.buyer_count, 1);
    let before = snapshot(&state);
    assert_eq!(
        buy(&config, &mut state, &at(1), &x, 6, None, u64::MAX),
        Err(VertexError::Launch(LaunchError::WalletCapExceeded))
    );
    assert_eq!(snapshot(&state), before);
    assert_eq!(buy(&config, &mut state, &at(1), &x, 5, None, u64::MAX), Ok(order(10, 0, 5, 0)));
    assert_eq!(state.buyers[0].purchased, 10);
    assert_eq!(state.buyer_count, 1);
    assert_eq!(state.sold, 10);
    assert_eq!(state.proceeds, 20);
    assert_eq!(state.status, SaleStatus::Active);
    assert!(state.is_within_caps(&config));
}

#[test]
fn english_auction_increment() {
    let config = auction(AuctionKind::English, 100, 500, 0);
    let mut state = SaleState::default();
    assert_eq!(bid(&config, &mut state, &at(5), &key(1), 100, None), Ok(order(100, 0, 0, 0)));
    assert_eq!(state.highest_bid, 100);
    assert_eq!(state.status, SaleStatus::Active);
    let before = snapshot(&state);
    assert_eq!(
        bid(&config, &mut state, &at(6), &key(2), 104, None),
        Err(VertexError::Launch(LaunchError::BidTooLow))
    );
    assert_eq!(snapshot(&state), before);
    assert_eq!(bid(&config, &mut state, &at(7), &key(2), 105, None), Ok(order(105, 0, 0, 0)));
    assert_eq!(state.highest_bid, 105);
    assert_eq!(state.highest_bidder, key(2));
    // proceeds are overwritten, not accumulated
    assert_eq!(state.proceeds, 105);
}

#[test]
fn dutch_settlement_clears_the_supply() {
    let config = auction(AuctionKind::Dutch, 100, 500, 0);
    let mut state = SaleState::default();
    bid(&config, &mut state, &at(5), &key(1), 150, None).unwrap();
    state.sold = 3;
    assert_eq!(
        settle_auction(&config, &mut state, &at(999)),
        Err(VertexError::Launch(LaunchError::AuctionStillActive))
    );
    assert_eq!(state.sold, 3);
    assert_eq!(settle_auction(&config, &mut state, &at(1_000)), Ok(()));
    assert_eq!(state.sold, config.global_cap);
    assert_eq!(state.status, SaleStatus::Settled);
    let before = snapshot(&state);
    assert_eq!(
        settle_auction(&config, &mut state, &at(2_000)),
        Err(VertexError::Launch(LaunchError::SaleSettled))
    );
    assert_eq!(snapshot(&state), before);
}

#[test]
fn english_settlement_keeps_sold() {
    let config = auction(AuctionKind::English, 100, 500, 0);
    let mut state = SaleState::default();
    assert_eq!(settle_auction(&config, &mut state, &at(1_000)), Ok(()));
    assert_eq!(state.sold, 0);
    assert_eq!(state.status, SaleStatus::Settled);
}

#[test]
fn sell_from_untracked_buyer_is_refused() {
    // wallet cap off: purchases are not tracked
    let config = config_with(
        LaunchPricing::BondingCurve { curve: linear(1_000_000_000, 0, 1_000) },
        100,
        0,
    );
    let mut state = SaleState::default();
    let x = key(9);
    assert_eq!(buy(&config, &mut state, &at(1), &x, 10, None, u64::MAX), Ok(order(10, 0, 10, 0)));
    assert_eq!(state.sold, 10);
    assert_eq!(state.buyer_count, 0);
    let before = snapshot(&state);
    assert_eq!(
        sell(&config, &mut state, &at(2), &x, 4, 0),
        Err(VertexError::Launch(LaunchError::UnknownBuyer))
    );
    assert_eq!(snapshot(&state), before);
}

#[test]
fn sell_back_updates_totals_and_entry() {
    let config = config_with(
        LaunchPricing::BondingCurve { curve: linear(1_000_000_000, 1_000_000_000, 1_000) },
        100,
        50,
    );
    let mut state = SaleState::default();
    let x = key(9);
    // price = 1 + 1 * 10 = 11 per token
    assert_eq!(buy(&config, &mut state, &at(1), &x, 10, None, 110), Ok(order(110, 0, 10, 0)));
    // sell 4: price at supply 6 is 7 -> 28
    assert_eq!(sell(&config, &mut state, &at(2), &x, 4, 28), Ok(order(0, 28, 0, 4)));
    assert_eq!(state.sold, 6);
    assert_eq!(state.proceeds, 82);
    assert_eq!(state.buyers[0].purchased, 6);
    assert_eq!(state.status, SaleStatus::Active);
    let before = snapshot(&state);
    assert_eq!(
        sell(&config, &mut state, &at(2), &x, 1, 1_000),
        Err(VertexError::Launch(LaunchError::SlippageExceeded))
    );
    assert_eq!(
        sell(&config, &mut state, &at(2), &x, 0, 0),
        Err(VertexError::Common(CommonError::ConstraintViolation))
    );
    assert_eq!(
        sell(&config, &mut state, &at(2), &x, 7, 0),
        Err(VertexError::Curve(CurveError::InsufficientSupply))
    );
    assert_eq!(
        sell(&config, &mut state, &at(11), &x, 1, 0),
        Err(VertexError::Common(CommonError::TimestampInvalid))
    );
    assert_eq!(snapshot(&state), before);
}

#[test]
fn sell_exceeding_tracked_total_is_refused() {
    let config = config_with(
        LaunchPricing::BondingCurve { curve: linear(1_000_000_000, 0, 1_000) },
        100,
        50,
    );
    let mut state = SaleState::default();
    buy(&config, &mut state, &at(1), &key(1), 10, None, u64::MAX).unwrap();
    buy(&config, &mut state, &at(1), &key(2), 3, None, u64::MAX).unwrap();
    let before = snapshot(&state);
    assert_eq!(
        sell(&config, &mut state, &at(2), &key(2), 4, 0),
        Err(VertexError::Launch(LaunchError::SellTooLarge))
    );
    assert_eq!(snapshot(&state), before);
    // proceeds underflow
    state.proceeds = 2;
    assert_eq!(
        state.record_sell(&key(2), 3, 3),
        Err(VertexError::Common(CommonError::ArithmeticOverflow))
    );
    assert_eq!(
        state.record_sell(&key(2), 14, 0),
        Err(VertexError::Launch(LaunchError::SellTooLarge))
    );
}

#[test]
fn sell_is_for_curves_only() {
    let mut state = SaleState::default();
    assert_eq!(
        sell(&fixed(1, 100, 0), &mut state, &at(1), &key(1), 1, 0),
        Err(VertexError::Launch(LaunchError::SellOnlyCurve))
    );
    assert_eq!(
        sell(&auction(AuctionKind::English, 1, 0, 0), &mut state, &at(1), &key(1), 1, 0),
        Err(VertexError::Launch(LaunchError::SellOnlyCurve))
    );
    let mut curve = linear(1, 0, 10);
    curve.kind = CurveKind::Sigmoid;
    let config = config_with(LaunchPricing::BondingCurve { curve }, 100, 0);
    assert_eq!(
        sell(&config, &mut state, &at(1), &key(1), 1, 0),
        Err(VertexError::Launch(LaunchError::SellOnlyCurve))
    );
}

#[test]
fn buy_checks_the_time_window() {
    let config = fixed(1, 100, 0);
    let mut state = SaleState::default();
    let mut early = config;
    early.start_time = 5;
    assert_eq!(
        buy(&early, &mut state, &at(4), &key(1), 1, None, 10),
        Err(VertexError::Common(CommonError::TimestampInvalid))
    );
    assert_eq!(
        buy(&config, &mut state, &at(11), &key(1), 1, None, 10),
        Err(VertexError::Common(CommonError::TimestampInvalid))
    );
    // both ends of the window are inside it
    assert!(buy(&early, &mut state, &at(5), &key(1), 1, None, 10).is_ok());
    assert!(buy(&config, &mut state, &at(10), &key(1), 1, None, 10).is_ok());
}

#[test]
fn buy_checks_global_cap_and_slippage() {
    let config = fixed(3, 10, 0);
    let mut state = SaleState::default();
    assert_eq!(
        buy(&config, &mut state, &at(1), &key(1), 11, None, u64::MAX),
        Err(VertexError::Launch(LaunchError::CapExceeded))
    );
    assert_eq!(
        buy(&config, &mut state, &at(1), &key(1), 4, None, 11),
        Err(VertexError::Launch(LaunchError::SlippageExceeded))
    );
    assert_eq!(snapshot(&state), snapshot(&SaleState::default()));
    assert_eq!(buy(&config, &mut state, &at(1), &key(1), 4, None, 12), Ok(order(12, 0, 4, 0)));
    assert_eq!(buy(&config, &mut state, &at(1), &key(1), 6, None, 18), Ok(order(18, 0, 6, 0)));
    assert_eq!(state.sold, 10);
    assert_eq!(
        buy(&config, &mut state, &at(1), &key(1), 1, None, u64::MAX),
        Err(VertexError::Launch(LaunchError::CapExceeded))
    );
    assert_eq!(
        buy(&config, &mut state, &at(1), &key(1), u64::MAX, None, u64::MAX),
        Err(VertexError::Common(CommonError::ArithmeticOverflow))
    );
}

#[test]
fn buy_fixed_price_overflow() {
    let config = fixed(u64::MAX, u64::MAX, 0);
    let mut state = SaleState::default();
    assert_eq!(
        buy(&config, &mut state, &at(1), &key(1), 2, None, u64::MAX),
        Err(VertexError::Common(CommonError::ArithmeticOverflow))
    );
    assert_eq!(
        buy(&config, &mut state, &at(1), &key(1), 1, None, u64::MAX),
        Ok(order(u64::MAX, 0, 1, 0))
    );
    // proceeds would overflow
    assert_eq!(
        buy(&config, &mut state, &at(1), &key(1), 1, None, u64::MAX),
        Err(VertexError::Common(CommonError::ArithmeticOverflow))
    );
    assert_eq!(state.sold, 1);
}

#[test]
fn buy_on_auction_and_unsupported_curve() {
    let mut state = SaleState::default();
    assert_eq!(
        buy(&auction(AuctionKind::English, 1, 0, 0), &mut state, &at(1), &key(1), 1, None, 10),
        Err(VertexError::Launch(LaunchError::AuctionBidRequired))
    );
    for kind in [CurveKind::Fixed, CurveKind::Exponential, CurveKind::Sigmoid] {
        let mut curve = linear(1_000_000_000, 0, 10);
        curve.kind = kind;
        let config = config_with(LaunchPricing::BondingCurve { curve }, 100, 0);
        assert_eq!(
            buy(&config, &mut state, &at(1), &key(1), 1, None, 10),
            Err(VertexError::Launch(LaunchError::UnsupportedCurve))
        );
    }
    let config = config_with(LaunchPricing::BondingCurve { curve: linear(0, 0, 10) }, 100, 0);
    assert_eq!(
        buy(&config, &mut state, &at(1), &key(1), 1, None, 10),
        Err(VertexError::Common(CommonError::ConstraintViolation))
    );
    let config =
        config_with(LaunchPricing::BondingCurve { curve: linear(1_000_000_000, 0, 10) }, 100, 0);
    assert_eq!(
        buy(&config, &mut state, &at(1), &key(1), 11, None, 100),
        Err(VertexError::Curve(CurveError::SupplyExceeded))
    );
    assert_eq!(
        buy(&config, &mut state, &at(1), &key(1), 0, None, 100),
        Err(VertexError::Curve(CurveError::InvalidInput))
    );
    assert_eq!(snapshot(&state), snapshot(&SaleState::default()));
}

#[test]
fn buyer_table_capacity_is_a_hard_error() {
    let config = fixed(1, 1_000, 5);
    let mut state = SaleState::default();
    for n in 0..64u8 {
        assert_eq!(buy(&config, &mut state, &at(1), &key(n), 1, None, 1), Ok(order(1, 0, 1, 0)));
    }
    assert_eq!(state.buyer_count, 64);
    let before = snapshot(&state);
    assert_eq!(
        buy(&config, &mut state, &at(1), &key(64), 1, None, 1),
        Err(VertexError::SaleState(SaleStateError::BuyerCapacityExceeded))
    );
    assert_eq!(snapshot(&state), before);
    // a tracked buyer can still buy
    assert_eq!(buy(&config, &mut state, &at(1), &key(63), 1, None, 1), Ok(order(1, 0, 1, 0)));
    assert_eq!(state.buyers[63].purchased, 2);
    assert_eq!(state.sold, 65);
    assert!(state.is_within_caps(&config));
}

#[test]
fn settled_sale_takes_no_operation() {
    let config = auction(AuctionKind::English, 100, 500, 0);
    let mut state = SaleState::default();
    bid(&config, &mut state, &at(5), &key(1), 100, None).unwrap();
    settle_auction(&config, &mut state, &at(1_000)).unwrap();
    let before = snapshot(&state);
    assert_eq!(
        bid(&config, &mut state, &at(6), &key(2), 500, None),
        Err(VertexError::Launch(LaunchError::SaleSettled))
    );
    assert_eq!(
        state.assert_allows_purchase(&key(2), 1, &config),
        Err(VertexError::Launch(LaunchError::SaleSettled))
    );
    assert_eq!(
        state.record_sell(&key(2), 0, 0),
        Err(VertexError::Launch(LaunchError::SaleSettled))
    );
    assert_eq!(snapshot(&state), before);
    assert_eq!(close(&config, &state, &key(200)), Ok(()));
}

#[test]
fn bid_checks() {
    let config = auction(AuctionKind::English, 100, 500, 0);
    let mut state = SaleState::default();
    assert_eq!(
        bid(&fixed(1, 10, 0), &mut state, &at(5), &key(1), 100, None),
        Err(VertexError::Launch(LaunchError::NotAuction))
    );
    assert_eq!(
        bid(&config, &mut state, &at(-1), &key(1), 100, None),
        Err(VertexError::Common(CommonError::TimestampInvalid))
    );
    assert_eq!(
        bid(&auction(AuctionKind::English, 0, 0, 0), &mut state, &at(5), &key(1), 0, None),
        Err(VertexError::Common(CommonError::ConstraintViolation))
    );
    assert_eq!(
        bid(&config, &mut state, &at(5), &key(1), 99, None),
        Err(VertexError::Launch(LaunchError::BidBelowReserve))
    );
    assert_eq!(
        bid(&config, &mut state, &at(1_000), &key(1), 100, None),
        Err(VertexError::Launch(LaunchError::AuctionClosed))
    );
    assert_eq!(snapshot(&state), snapshot(&SaleState::default()));
    assert!(bid(&config, &mut state, &at(999), &key(1), 100, None).is_ok());
}

#[test]
fn bid_increment_is_at_least_one() {
    // 1 basis point of 100 rounds down to zero: the increment is one
    let config = auction(AuctionKind::Dutch, 1, 1, 0);
    let mut state = SaleState::default();
    bid(&config, &mut state, &at(5), &key(1), 100, None).unwrap();
    assert_eq!(
        bid(&config, &mut state, &at(5), &key(2), 100, None),
        Err(VertexError::Launch(LaunchError::BidTooLow))
    );
    assert!(bid(&config, &mut state, &at(5), &key(2), 101, None).is_ok());
    // increment of 10_000 bps doubles the bid
    let config = auction(AuctionKind::Dutch, 1, 10_000, 0);
    let mut state = SaleState::default();
    bid(&config, &mut state, &at(5), &key(1), 40, None).unwrap();
    assert_eq!(
        bid(&config, &mut state, &at(5), &key(2), 79, None),
        Err(VertexError::Launch(LaunchError::BidTooLow))
    );
    assert!(bid(&config, &mut state, &at(5), &key(2), 80, None).is_ok());
}

#[test]
fn bid_increment_overflow() {
    let config = auction(AuctionKind::Dutch, 1, 500, 0);
    let mut state = SaleState::default();
    bid(&config, &mut state, &at(5), &key(1), u64::MAX / 2, None).unwrap();
    assert_eq!(
        bid(&config, &mut state, &at(5), &key(2), u64::MAX, None),
        Err(VertexError::Common(CommonError::ArithmeticOverflow))
    );
    let config = auction(AuctionKind::Dutch, 1, 0, 0);
    let mut state = SaleState::default();
    bid(&config, &mut state, &at(5), &key(1), u64::MAX, None).unwrap();
    assert_eq!(
        bid(&config, &mut state, &at(5), &key(2), u64::MAX, None),
        Err(VertexError::Common(CommonError::ArithmeticOverflow))
    );
    assert_eq!(state.highest_bidder, key(1));
}

#[test]
fn english_late_bid_extends_the_end() {
    let config = auction(AuctionKind::English, 100, 500, 60);
    let mut state = SaleState::default();
    // remaining 61 > 60: no extension
    bid(&config, &mut state, &at(939), &key(1), 100, None).unwrap();
    assert_eq!(state.auction_end, 0);
    assert_eq!(state.current_auction_end(&config), 1_000);
    // remaining 60 <= 60: end becomes now + 60
    bid(&config, &mut state, &at(940), &key(2), 200, None).unwrap();
    assert_eq!(state.auction_end, 1_000);
    bid(&config, &mut state, &at(990), &key(3), 300, None).unwrap();
    assert_eq!(state.auction_end, 1_050);
    assert_eq!(state.current_auction_end(&config), 1_050);
    // the extended end governs bids and settlement
    assert!(bid(&config, &mut state, &at(1_049), &key(4), 400, None).is_ok());
    assert_eq!(state.auction_end, 1_109);
    assert_eq!(
        settle_auction(&config, &mut state, &at(1_108)),
        Err(VertexError::Launch(LaunchError::AuctionStillActive))
    );
    assert_eq!(
        bid(&config, &mut state, &at(1_109), &key(5), 500, None),
        Err(VertexError::Launch(LaunchError::AuctionClosed))
    );
    assert_eq!(settle_auction(&config, &mut state, &at(1_109)), Ok(()));
}

#[test]
fn dutch_bid_never_extends_the_end() {
    let config = auction(AuctionKind::Dutch, 100, 500, 60);
    let mut state = SaleState::default();
    bid(&config, &mut state, &at(999), &key(1), 100, None).unwrap();
    assert_eq!(state.auction_end, 0);
}

#[test]
fn english_extension_overflow_is_an_error() {
    let mut config = auction(AuctionKind::English, 100, 500, i64::MAX);
    config.end_time = i64::MAX;
    let mut state = SaleState::default();
    assert_eq!(
        bid(&config, &mut state, &at(1), &key(1), 100, None),
        Err(VertexError::Common(CommonError::ArithmeticOverflow))
    );
    assert_eq!(snapshot(&state), snapshot(&SaleState::default()));
    assert!(bid(&config, &mut state, &at(0), &key(1), 100, None).is_ok());
    assert_eq!(state.auction_end, i64::MAX);
}

#[test]
fn whitelist_gates_buy_and_bid() {
    let allowed = key(1);
    let other = key(2);
    let leaf = whitelist_leaf(&allowed);
    let sibling = [5u8; 32];
    let root = if leaf <= sibling { hash_nodes(&leaf, &sibling) } else { hash_nodes(&sibling, &leaf) };
    let mut config = fixed(1, 100, 0);
    config.whitelist_root = Some(root);
    let mut state = SaleState::default();
    assert_eq!(
        buy(&config, &mut state, &at(1), &allowed, 1, None, 1),
        Err(VertexError::Launch(LaunchError::WhitelistRequired))
    );
    assert_eq!(
        buy(&config, &mut state, &at(1), &other, 1, Some(vec![sibling]), 1),
        Err(VertexError::Common(CommonError::InvalidMerkleProof))
    );
    assert_eq!(
        buy(&config, &mut state, &at(1), &allowed, 1, Some(vec![]), 1),
        Err(VertexError::Common(CommonError::InvalidMerkleProof))
    );
    assert_eq!(snapshot(&state), snapshot(&SaleState::default()));
    assert_eq!(
        buy(&config, &mut state, &at(1), &allowed, 1, Some(vec![sibling]), 1),
        Ok(order(1, 0, 1, 0))
    );
    let mut config = auction(AuctionKind::English, 1, 0, 0);
    config.whitelist_root = Some(root);
    let mut state = SaleState::default();
    assert_eq!(
        bid(&config, &mut state, &at(1), &allowed, 5, None),
        Err(VertexError::Launch(LaunchError::WhitelistRequired))
    );
    assert_eq!(
        bid(&config, &mut state, &at(1), &other, 5, Some(vec![sibling])),
        Err(VertexError::Common(CommonError::InvalidMerkleProof))
    );
    assert!(bid(&config, &mut state, &at(1), &allowed, 5, Some(vec![sibling])).is_ok());
}

#[test]
fn settle_is_for_auctions_only() {
    let mut state = SaleState::default();
    assert_eq!(
        settle_auction(&fixed(1, 10, 0), &mut state, &at(100)),
        Err(VertexError::Launch(LaunchError::NotAuction))
    );
    assert_eq!(
        state.settle_auction(&fixed(1, 10, 0), &at(100)),
        Err(VertexError::Launch(LaunchError::NotAuction))
    );
    assert_eq!(state.status, SaleStatus::Pending);
}

#[test]
fn init_launch_validates_terms() {
    let args = InitLaunchArgs {
        pricing: LaunchPricing::Fixed { price: 1 },
        global_cap: 100,
        wallet_cap: 10,
        start_time: 5,
        end_time: 6,
        whitelist_root: None,
    };
    let bumps = LaunchBumps { treasury_authority: 1, launch_config: 2, sale_state: 3 };
    let (config, state) = init_launch(false, &key(1), &key(2), &key(3), args, bumps).unwrap();
    assert_eq!(config.authority, key(1));
    assert_eq!(config.treasury_vault, key(2));
    assert_eq!(config.mint, key(3));
    assert_eq!(*config.mint(), key(3));
    assert_eq!(*config.authority(), key(1));
    assert_eq!((config.global_cap, config.wallet_cap), (100, 10));
    assert_eq!((config.start_time, config.end_time), (5, 6));
    assert_eq!((config.treasury_bump, config.config_bump, config.sale_state_bump), (1, 2, 3));
    assert!(config.initialized);
    assert_eq!(snapshot(&state), snapshot(&SaleState::default()));

    assert_eq!(
        init_launch(true, &key(1), &key(2), &key(3), args, bumps).err(),
        Some(VertexError::Launch(LaunchError::AlreadyInitialized))
    );
    let mut bad = args;
    bad.global_cap = 0;
    bad.wallet_cap = 0;
    assert_eq!(
        init_launch(false, &key(1), &key(2), &key(3), bad, bumps).err(),
        Some(VertexError::Common(CommonError::ConstraintViolation))
    );
    let mut bad = args;
    bad.wallet_cap = 101;
    assert_eq!(
        init_launch(false, &key(1), &key(2), &key(3), bad, bumps).err(),
        Some(VertexError::Common(CommonError::ConstraintViolation))
    );
    let mut bad = args;
    bad.end_time = 5;
    assert_eq!(
        init_launch(false, &key(1), &key(2), &key(3), bad, bumps).err(),
        Some(VertexError::Common(CommonError::TimestampInvalid))
    );
    let unbumped = LaunchConfig::try_from_args(&key(1), &key(2), &key(3), args).unwrap();
    assert!(!unbumped.initialized);
    assert_eq!(unbumped.treasury_bump, 0);
}

#[test]
fn update_config_is_for_the_authority() {
    let mut config = fixed(1, 100, 10);
    let args = UpdateConfigArgs { end_time: Some(50), wallet_cap: Some(20) };
    assert_eq!(
        update_config(&mut config, &key(1), args),
        Err(VertexError::Authority(ErrorCode::UnauthorizedAuthority))
    );
    assert_eq!((config.end_time, config.wallet_cap), (10, 10));
    assert_eq!(update_config(&mut config, &key(200), args), Ok(()));
    assert_eq!((config.end_time, config.wallet_cap), (50, 20));
    assert_eq!(update_config(&mut config, &key(200), UpdateConfigArgs::default()), Ok(()));
    assert_eq!((config.end_time, config.wallet_cap), (50, 20));
}

#[test]
fn update_config_is_all_or_nothing() {
    let mut config = fixed(1, 100, 10);
    assert_eq!(
        config.update(UpdateConfigArgs { end_time: Some(50), wallet_cap: Some(101) }),
        Err(VertexError::Common(CommonError::ConstraintViolation))
    );
    assert_eq!((config.end_time, config.wallet_cap), (10, 10));
    assert_eq!(
        config.update(UpdateConfigArgs { end_time: Some(0), wallet_cap: Some(5) }),
        Err(VertexError::Common(CommonError::TimestampInvalid))
    );
    assert_eq!((config.end_time, config.wallet_cap), (10, 10));
    assert_eq!(config.update(UpdateConfigArgs { end_time: None, wallet_cap: Some(0) }), Ok(()));
    assert_eq!(config.wallet_cap, 0);
    assert_eq!(config.update(UpdateConfigArgs { end_time: Some(1), wallet_cap: Some(100) }), Ok(()));
    assert_eq!((config.end_time, config.wallet_cap), (1, 100));
}

#[test]
fn lowering_the_wallet_cap_can_leave_a_buyer_above_it() {
    let mut config = fixed(1, 100, 10);
    let mut state = SaleState::default();
    buy(&config, &mut state, &at(1), &key(1), 10, None, 10).unwrap();
    assert!(state.is_within_caps(&config));
    config.update(UpdateConfigArgs { end_time: None, wallet_cap: Some(5) }).unwrap();
    assert!(!state.is_within_caps(&config));
    // the sale goes on for other buyers
    assert!(buy(&config, &mut state, &at(1), &key(2), 5, None, 5).is_ok());
    assert_eq!(
        buy(&config, &mut state, &at(1), &key(1), 1, None, 1),
        Err(VertexError::Launch(LaunchError::WalletCapExceeded))
    );
}

#[test]
fn withdraw_and_close_are_for_the_authority() {
    let config = fixed(1, 100, 10);
    let state = SaleState::default();
    assert_eq!(withdraw_treasury(&config, &key(200), 77), Ok(order(0, 77, 0, 0)));
    assert_eq!(
        withdraw_treasury(&config, &key(1), 77),
        Err(VertexError::Authority(ErrorCode::UnauthorizedAuthority))
    );
    assert_eq!(
        close(&config, &state, &key(1)),
        Err(VertexError::Authority(ErrorCode::UnauthorizedAuthority))
    );
    assert_eq!(
        close(&config, &state, &key(200)),
        Err(VertexError::Launch(LaunchError::SaleActive))
    );
}

#[test]
fn pricing_quotes() {
    let fixed = LaunchPricing::Fixed { price: 7 };
    assert_eq!(fixed.quote_buy(0, 6), Ok(42));
    assert_eq!(fixed.quote_buy(u64::MAX, 1), Err(VertexError::Common(CommonError::ArithmeticOverflow)));
    assert_eq!(fixed.quote_sell(10, 1), Err(VertexError::Launch(LaunchError::SellOnlyCurve)));
    assert!(fixed.auction_config().is_none());
    let curve = LaunchPricing::BondingCurve { curve: linear(2_000_000_000, 0, 100) };
    assert_eq!(curve.quote_buy(0, 5), Ok(10));
    assert_eq!(curve.quote_sell(5, 5), Ok(10));
    assert_eq!(curve.quote_sell(4, 5), Err(VertexError::Curve(CurveError::InsufficientSupply)));
    let a = AuctionConfig {
        kind: AuctionKind::Dutch,
        start_price: 9,
        floor_price: 3,
        min_increment_bps: 1,
        anti_snipe_seconds: 2,
    };
    let auction = LaunchPricing::Auction { config: a };
    assert_eq!(auction.auction_config().map(|c| c.floor_price), Some(3));
    assert_eq!(
        auction.quote_buy(0, 1),
        Err(VertexError::Launch(LaunchError::AuctionBidRequired))
    );
}

#[test]
fn purchases_without_wallet_cap_are_not_tracked() {
    let config = fixed(1, 100, 0);
    let mut state = SaleState::default();
    buy(&config, &mut state, &at(1), &key(1), 60, None, 60).unwrap();
    assert_eq!(state.buyer_count, 0);
    assert_eq!(state.sold, 60);
    assert_eq!(state.status, SaleStatus::Active);
    // a zero purchase is taken by a fixed-price sale
    assert_eq!(buy(&config, &mut state, &at(1), &key(1), 0, None, 0), Ok(order(0, 0, 0, 0)));
}

#[test]
fn status_never_goes_back() {
    let config = auction(AuctionKind::English, 1, 0, 0);
    let mut state = SaleState::default();
    let mut last = 0u8;
    let rank = |s: SaleStatus| match s {
        SaleStatus::Pending => 0u8,
        SaleStatus::Active => 1,
        SaleStatus::Settled => 2,
    };
    for step in 0..6 {
        match step {
            0 => { let _ = settle_auction(&config, &mut state, &at(1)); }
            1 => { let _ = bid(&config, &mut state, &at(2), &key(1), 5, None); }
            2 => { let _ = bid(&config, &mut state, &at(3), &key(2), 1, None); }
            3 => { let _ = settle_auction(&config, &mut state, &at(1_000)); }
            4 => { let _ = bid(&config, &mut state, &at(4), &key(3), 50, None); }
            _ => { let _ = settle_auction(&config, &mut state, &at(2_000)); }
        }
        assert!(rank(state.status) >= last);
        last = rank(state.status);
    }
    assert_eq!(state.status, SaleStatus::Settled);
    assert_eq!(state.highest_bid, 5);
}
