//! A sale's terms and its ledger record.

use vstd::prelude::*;
use crate::authority::HasAuthority;
use crate::curve::linear_buy;
use crate::curve::linear_sell;
use crate::curve::CurveConfig;
use crate::curve::CurveKind;
use crate::curve::LinearCurve;
use crate::curve::PricingCurve;
use crate::errors::CommonError;
use crate::errors::VertexError;
use crate::keccak::append_bytes;
use crate::keccak::keccak256;
use crate::keccak::keccak_hash;
use crate::launchpad::InitLaunchArgs;
use crate::launchpad::LaunchError;
use crate::launchpad::UpdateConfigArgs;
use crate::pubkey::Pubkey;
use crate::time::Clock;

verus! {

/// Number of buyers that a sale record can track.
pub const MAX_TRACKED_BUYERS: usize = 64;

/// Basis points in one whole.
pub const BPS_PER_WHOLE: u64 = 10_000;

/// Auction variants.
#[derive(Clone, Copy, Debug, PartialEq, Eq, Structural)]
pub enum AuctionKind {
    /// Ascending bids; late bids push the end back.
    English,
    /// The highest bid clears the whole supply at settlement.
    Dutch,
}

/// Terms of an auction.
#[derive(Clone, Copy, Debug)]
pub struct AuctionConfig {
    /// Auction variant.
    pub kind: AuctionKind,
    /// Starting price.
    pub start_price: u64,
    /// Reserve: no bid below it is taken.
    pub floor_price: u64,
    /// Least increment over the highest bid, in basis points of it.
    pub min_increment_bps: u16,
    /// Anti-snipe window in seconds.
    pub anti_snipe_seconds: i64,
}

/// The pricing model of a sale.
#[derive(Clone, Copy, Debug)]
pub enum LaunchPricing {
    /// Every token costs `price`.
    Fixed { price: u64 },
    /// The price follows a bonding curve.
    BondingCurve { curve: CurveConfig },
    /// The tokens go to the highest bidder.
    Auction { config: AuctionConfig },
}

impl LaunchPricing {
    /// What buying `amount` costs once `sold` tokens are sold.
    pub open spec fn buy_quote(&self, sold: u64, amount: u64) -> Result<u64, VertexError> {
        match *self {
            LaunchPricing::Fixed { price } => {
                if sold + amount > u64::MAX || price * amount > u64::MAX {
                    Err(VertexError::Common(CommonError::ArithmeticOverflow))
                } else {
                    Ok((price * amount) as u64)
                }
            },
            LaunchPricing::BondingCurve { curve } => {
                if curve.kind != CurveKind::Linear {
                    Err(VertexError::Launch(LaunchError::UnsupportedCurve))
                } else if !curve.valid() {
                    Err(VertexError::Common(CommonError::ConstraintViolation))
                } else {
                    match linear_buy(curve, sold, amount) {
                        Ok(quote) => Ok(quote.quote_amount),
                        Err(e) => Err(VertexError::Curve(e)),
                    }
                }
            },
            LaunchPricing::Auction { .. } => Err(
                VertexError::Launch(LaunchError::AuctionBidRequired),
            ),
        }
    }

    /// What selling `amount` back pays once `sold` tokens are sold.
    pub open spec fn sell_quote(&self, sold: u64, amount: u64) -> Result<u64, VertexError> {
        match *self {
            LaunchPricing::BondingCurve { curve } => {
                if curve.kind != CurveKind::Linear {
                    Err(VertexError::Launch(LaunchError::SellOnlyCurve))
                } else if !curve.valid() {
                    Err(VertexError::Common(CommonError::ConstraintViolation))
                } else {
                    match linear_sell(curve, sold, amount) {
                        Ok(quote) => Ok(quote.quote_amount),
                        Err(e) => Err(VertexError::Curve(e)),
                    }
                }
            },
            _ => Err(VertexError::Launch(LaunchError::SellOnlyCurve)),
        }
    }

    /// The auction's terms, if the sale is an auction.
    pub open spec fn auction(&self) -> Option<AuctionConfig> {
        match *self {
            LaunchPricing::Auction { config } => Some(config),
            _ => None,
        }
    }

    /// Quotes the price of `amount` tokens once `sold` tokens are sold.
    pub fn quote_buy(&self, sold: u64, amount: u64) -> (r: Result<u64, VertexError>)
        ensures
            r == self.buy_quote(sold, amount),
    {
        match self {
            LaunchPricing::Fixed { price } => {
                if sold.checked_add(amount).is_none() {
                    return Err(VertexError::Common(CommonError::ArithmeticOverflow));
                }
                match price.checked_mul(amount) {
                    Some(total) => Ok(total),
                    None => Err(VertexError::Common(CommonError::ArithmeticOverflow)),
                }
            },
            LaunchPricing::BondingCurve { curve } => {
                match curve.kind {
                    CurveKind::Linear => {
                        let calc = match LinearCurve::new(curve) {
                            Ok(c) => c,
                            Err(_) => {
                                return Err(
                                    VertexError::Common(CommonError::ConstraintViolation),
                                );
                            },
                        };
                        match calc.quote_buy(sold, amount) {
                            Ok(quote) => Ok(quote.quote_amount),
                            Err(e) => Err(VertexError::Curve(e)),
                        }
                    },
                    _ => Err(VertexError::Launch(LaunchError::UnsupportedCurve)),
                }
            },
            LaunchPricing::Auction { .. } => Err(
                VertexError::Launch(LaunchError::AuctionBidRequired),
            ),
        }
    }

    /// The auction's terms, if the sale is an auction.
    pub fn auction_config(&self) -> (r: Option<&AuctionConfig>)
        ensures
            match r {
                Some(config) => self.auction() == Some(*config),
                None => self.auction() is None,
            },
    {
        match self {
            LaunchPricing::Auction { config } => Some(config),
            _ => None,
        }
    }

    /// Quotes what selling `amount` tokens back pays once `sold` are sold.
    pub fn quote_sell(&self, sold: u64, amount: u64) -> (r: Result<u64, VertexError>)
        ensures
            r == self.sell_quote(sold, amount),
    {
        match self {
            LaunchPricing::BondingCurve { curve } => {
                match curve.kind {
                    CurveKind::Linear => {
                        let calc = match LinearCurve::new(curve) {
                            Ok(c) => c,
                            Err(_) => {
                                return Err(
                                    VertexError::Common(CommonError::ConstraintViolation),
                                );
                            },
                        };
                        match calc.quote_sell(sold, amount) {
                            Ok(quote) => Ok(quote.quote_amount),
                            Err(e) => Err(VertexError::Curve(e)),
                        }
                    },
                    _ => Err(VertexError::Launch(LaunchError::SellOnlyCurve)),
                }
            },
            _ => Err(VertexError::Launch(LaunchError::SellOnlyCurve)),
        }
    }
}

/// The terms of a sale.
#[derive(Clone, Copy, Debug)]
pub struct LaunchConfig {
    /// Authority with the right to manage the sale.
    pub authority: Pubkey,
    /// Treasury vault that holds the proceeds.
    pub treasury_vault: Pubkey,
    /// The asset on sale.
    pub mint: Pubkey,
    /// Pricing model.
    pub pricing: LaunchPricing,
    /// Total number of tokens on sale.
    pub global_cap: u64,
    /// Most that one wallet may buy; zero for no limit.
    pub wallet_cap: u64,
    /// Start of the sale.
    pub start_time: i64,
    /// End of the sale.
    pub end_time: i64,
    /// Root of the whitelist, if the sale has one.
    pub whitelist_root: Option<[u8; 32]>,
    /// Bump of the treasury's derived address.
    pub treasury_bump: u8,
    /// Bump of the configuration's derived address.
    pub config_bump: u8,
    /// Bump of the sale record's derived address.
    pub sale_state_bump: u8,
    /// Whether the configuration has been initialised.
    pub initialized: bool,
}

/// The terms are consistent: something is on sale, the wallet cap is off or
/// within the global cap, and the sale ends after it starts.
pub open spec fn terms_valid(global_cap: u64, wallet_cap: u64, start_time: i64, end_time: i64) -> bool {
    &&& global_cap > 0
    &&& (wallet_cap == 0 || wallet_cap <= global_cap)
    &&& end_time > start_time
}

impl LaunchConfig {
    /// The invariant of a sale's terms.
    pub open spec fn valid(&self) -> bool {
        terms_valid(self.global_cap, self.wallet_cap, self.start_time, self.end_time)
    }

    /// The terms that `try_from_args` builds, or the reason it refuses.
    pub open spec fn from_args(
        authority: Pubkey,
        treasury_vault: Pubkey,
        mint: Pubkey,
        args: InitLaunchArgs,
    ) -> Result<LaunchConfig, VertexError> {
        if args.global_cap == 0 {
            Err(VertexError::Common(CommonError::ConstraintViolation))
        } else if !(args.wallet_cap == 0 || args.wallet_cap <= args.global_cap) {
            Err(VertexError::Common(CommonError::ConstraintViolation))
        } else if !(args.end_time > args.start_time) {
            Err(VertexError::Common(CommonError::TimestampInvalid))
        } else {
            Ok(
                LaunchConfig {
                    authority,
                    treasury_vault,
                    mint,
                    pricing: args.pricing,
                    global_cap: args.global_cap,
                    wallet_cap: args.wallet_cap,
                    start_time: args.start_time,
                    end_time: args.end_time,
                    whitelist_root: args.whitelist_root,
                    treasury_bump: 0,
                    config_bump: 0,
                    sale_state_bump: 0,
                    initialized: false,
                },
            )
        }
    }

    /// The terms after an update, or the reason the update is refused.
    pub open spec fn updated(&self, args: UpdateConfigArgs) -> Result<LaunchConfig, VertexError> {
        let end_time = match args.end_time {
            Some(t) => t,
            None => self.end_time,
        };
        let wallet_cap = match args.wallet_cap {
            Some(w) => w,
            None => self.wallet_cap,
        };
        if !(end_time > self.start_time) && args.end_time is Some {
            Err(VertexError::Common(CommonError::TimestampInvalid))
        } else if !(wallet_cap == 0 || wallet_cap <= self.global_cap) && args.wallet_cap is Some {
            Err(VertexError::Common(CommonError::ConstraintViolation))
        } else {
            Ok(LaunchConfig { end_time, wallet_cap, ..*self })
        }
    }

    /// New terms from the creation arguments; refused unless they are
    /// consistent.
    pub fn try_from_args(
        authority: &Pubkey,
        treasury_vault: &Pubkey,
        mint: &Pubkey,
        args: InitLaunchArgs,
    ) -> (r: Result<Self, VertexError>)
        ensures
            r == Self::from_args(*authority, *treasury_vault, *mint, args),
            r matches Ok(config) ==> config.valid(),
    {
        if !(args.global_cap > 0) {
            return Err(VertexError::Common(CommonError::ConstraintViolation));
        }
        if !(args.wallet_cap == 0 || args.wallet_cap <= args.global_cap) {
            return Err(VertexError::Common(CommonError::ConstraintViolation));
        }
        if !(args.end_time > args.start_time) {
            return Err(VertexError::Common(CommonError::TimestampInvalid));
        }
        Ok(
            LaunchConfig {
                authority: *authority,
                treasury_vault: *treasury_vault,
                mint: *mint,
                pricing: args.pricing,
                global_cap: args.global_cap,
                wallet_cap: args.wallet_cap,
                start_time: args.start_time,
                end_time: args.end_time,
                whitelist_root: args.whitelist_root,
                treasury_bump: 0,
                config_bump: 0,
                sale_state_bump: 0,
                initialized: false,
            },
        )
    }

    /// The asset on sale.
    pub fn mint(&self) -> (key: &Pubkey)
        ensures
            *key == self.mint,
    {
        &self.mint
    }

    /// The authority of the sale.
    pub fn authority(&self) -> (key: &Pubkey)
        ensures
            *key == self.authority,
    {
        &self.authority
    }

    /// The bytes that the configuration's digest is taken of: authority,
    /// the two caps and the two times in little-endian order, the asset,
    /// the whitelist root if there is one, and the treasury's and the sale
    /// record's bumps.
    pub open spec fn hash_input(&self) -> Seq<u8> {
        self.authority@ + vstd::bytes::spec_u64_to_le_bytes(self.global_cap)
            + vstd::bytes::spec_u64_to_le_bytes(self.wallet_cap)
            + vstd::bytes::spec_u64_to_le_bytes(self.start_time as u64)
            + vstd::bytes::spec_u64_to_le_bytes(self.end_time as u64) + self.mint@ + (
        match self.whitelist_root {
            Some(root) => root@,
            None => Seq::<u8>::empty(),
        }) + seq![self.treasury_bump, self.sale_state_bump]
    }

    /// Digest of the configuration, for audit records.
    pub fn config_hash(&self) -> (digest: [u8; 32])
        ensures
            digest@ == keccak256(self.hash_input()),
    {
        let mut data: Vec<u8> = Vec::with_capacity(128);
        append_bytes(&mut data, self.authority.bytes.as_slice());
        let cap = vstd::bytes::u64_to_le_bytes(self.global_cap);
        append_bytes(&mut data, cap.as_slice());
        let wallet = vstd::bytes::u64_to_le_bytes(self.wallet_cap);
        append_bytes(&mut data, wallet.as_slice());
        let start = vstd::bytes::u64_to_le_bytes(
            #[verifier::truncate]
            (self.start_time as u64),
        );
        append_bytes(&mut data, start.as_slice());
        let end = vstd::bytes::u64_to_le_bytes(
            #[verifier::truncate]
            (self.end_time as u64),
        );
        append_bytes(&mut data, end.as_slice());
        append_bytes(&mut data, self.mint.bytes.as_slice());
        if let Some(root) = self.whitelist_root {
            append_bytes(&mut data, root.as_slice());
        }
        data.push(self.treasury_bump);
        data.push(self.sale_state_bump);
        assert(data@ =~= self.hash_input());
        keccak_hash(data.as_slice())
    }

    /// Changes the end time, the wallet cap, or both. Either both changes
    /// are made or, where one is refused, none.
    pub fn update(&mut self, args: UpdateConfigArgs) -> (r: Result<(), VertexError>)
        ensures
            match old(self).updated(args) {
                Ok(next) => r is Ok && *final(self) == next,
                Err(e) => r == Err::<(), VertexError>(e) && *final(self) == *old(self),
            },
            old(self).valid() ==> final(self).valid(),
    {
        if let Some(end_time) = args.end_time {
            if !(end_time > self.start_time) {
                return Err(VertexError::Common(CommonError::TimestampInvalid));
            }
        }
        if let Some(wallet_cap) = args.wallet_cap {
            if !(wallet_cap == 0 || wallet_cap <= self.global_cap) {
                return Err(VertexError::Common(CommonError::ConstraintViolation));
            }
        }
        if let Some(end_time) = args.end_time {
            self.end_time = end_time;
        }
        if let Some(wallet_cap) = args.wallet_cap {
            self.wallet_cap = wallet_cap;
        }
        Ok(())
    }
}

impl HasAuthority for LaunchConfig {
    fn authority(&self) -> (key: &Pubkey)
        ensures
            *key == self.authority,
    {
        &self.authority
    }
}

/// Errors of the sale record itself.
#[derive(Clone, Copy, Debug, PartialEq, Eq, Structural)]
pub enum SaleStateError {
    /// The buyer table is full and the buyer is not in it.
    BuyerCapacityExceeded,
}

/// One buyer's running total.
#[derive(Clone, Copy, Debug)]
pub struct BuyerContribution {
    /// The buyer's wallet.
    pub buyer: Pubkey,
    /// Total amount the buyer holds from this sale.
    pub purchased: u64,
}

impl Default for BuyerContribution {
    /// An empty slot of the buyer table.
    fn default() -> (entry: Self)
        ensures
            entry.purchased == 0,
            entry.buyer@ == Seq::new(32, |i: int| 0u8),
    {
        BuyerContribution { buyer: Pubkey::default(), purchased: 0 }
    }
}

/// Lifecycle of a sale. It only ever advances: pending, active, settled.
#[derive(Clone, Copy, Debug, PartialEq, Eq, Structural)]
pub enum SaleStatus {
    /// No purchase or bid was taken yet.
    Pending,
    /// The sale has taken a purchase or a bid.
    Active,
    /// The sale is settled; nothing changes it any more.
    Settled,
}

impl SaleStatus {
    /// Position of the status in the lifecycle.
    pub open spec fn rank(self) -> nat {
        match self {
            SaleStatus::Pending => 0,
            SaleStatus::Active => 1,
            SaleStatus::Settled => 2,
        }
    }

    /// The status after an accepted purchase or bid.
    pub open spec fn activated(self) -> SaleStatus {
        if self == SaleStatus::Pending {
            SaleStatus::Active
        } else {
            self
        }
    }
}

/// The ledger record of a sale.
#[derive(Clone, Copy, Debug)]
pub struct SaleState {
    /// Tokens sold so far.
    pub sold: u64,
    /// Proceeds collected so far.
    pub proceeds: u64,
    /// Lifecycle status.
    pub status: SaleStatus,
    /// Highest bid so far (auctions); zero for none.
    pub highest_bid: u64,
    /// Who made the highest bid.
    pub highest_bidder: Pubkey,
    /// End of the auction after anti-snipe extensions; zero for none.
    pub auction_end: i64,
    /// The buyer table: the first `buyer_count` slots are in use.
    pub buyers: [BuyerContribution; MAX_TRACKED_BUYERS],
    /// Number of slots of the buyer table in use.
    pub buyer_count: u16,
}

/// The record as a mathematical value: the buyer table is a sequence.
pub struct SaleStateView {
    /// Tokens sold so far.
    pub sold: u64,
    /// Proceeds collected so far.
    pub proceeds: u64,
    /// Lifecycle status.
    pub status: SaleStatus,
    /// Highest bid so far; zero for none.
    pub highest_bid: u64,
    /// Who made the highest bid.
    pub highest_bidder: Pubkey,
    /// End of the auction after extensions; zero for none.
    pub auction_end: i64,
    /// All slots of the buyer table.
    pub buyers: Seq<BuyerContribution>,
    /// Number of slots in use.
    pub buyer_count: u16,
}

impl View for SaleState {
    type V = SaleStateView;

    open spec fn view(&self) -> SaleStateView {
        SaleStateView {
            sold: self.sold,
            proceeds: self.proceeds,
            status: self.status,
            highest_bid: self.highest_bid,
            highest_bidder: self.highest_bidder,
            auction_end: self.auction_end,
            buyers: self.buyers@,
            buyer_count: self.buyer_count,
        }
    }
}

impl SaleStateView {
    /// The table has its fixed number of slots and the count is within it.
    pub open spec fn table_valid(self) -> bool {
        &&& self.buyers.len() == MAX_TRACKED_BUYERS
        &&& self.buyer_count <= MAX_TRACKED_BUYERS
    }

    /// A fresh record: nothing sold, nothing bid, no buyer tracked.
    pub open spec fn zeroed(self) -> bool {
        &&& self.sold == 0
        &&& self.proceeds == 0
        &&& self.status == SaleStatus::Pending
        &&& self.highest_bid == 0
        &&& self.auction_end == 0
        &&& self.buyer_count == 0
        &&& self.buyers.len() == MAX_TRACKED_BUYERS
    }

    /// No wallet has two entries among the slots in use.
    pub open spec fn buyers_distinct(self) -> bool {
        forall|i: int, j: int|
            0 <= i < j < self.buyer_count ==> (#[trigger] self.buyers[i]).buyer != (
            #[trigger] self.buyers[j]).buyer
    }

    /// The caps hold: no more is sold than is on sale, and where the wallet
    /// cap is on, no tracked buyer holds more than it.
    pub open spec fn within_caps(self, config: LaunchConfig) -> bool {
        &&& self.sold <= config.global_cap
        &&& config.wallet_cap > 0 ==> forall|i: int|
            0 <= i < self.buyer_count ==> (#[trigger] self.buyers[i]).purchased
                <= config.wallet_cap
    }

    /// Slot `i` is the first slot in use that holds `buyer`.
    pub open spec fn is_first_entry_of(self, buyer: Pubkey, i: int) -> bool {
        &&& 0 <= i < self.buyer_count
        &&& self.buyers[i].buyer == buyer
        &&& forall|j: int| 0 <= j < i ==> (#[trigger] self.buyers[j]).buyer != buyer
    }

    /// The slot of `buyer`, if the buyer is tracked.
    pub open spec fn find_buyer(self, buyer: Pubkey) -> Option<int> {
        if exists|i: int| self.is_first_entry_of(buyer, i) {
            Some(choose|i: int| self.is_first_entry_of(buyer, i))
        } else {
            None
        }
    }

    /// What `buyer` is recorded with; nothing for an untracked buyer.
    pub open spec fn purchased_by(self, buyer: Pubkey) -> nat {
        match self.find_buyer(buyer) {
            Some(i) => self.buyers[i].purchased as nat,
            None => 0,
        }
    }

    /// The end of the auction: the extended end if there is one, else the
    /// end of the sale.
    pub open spec fn auction_end_time(self, config: LaunchConfig) -> i64 {
        if self.auction_end == 0 {
            config.end_time
        } else {
            self.auction_end
        }
    }

    /// Whether the sale takes a purchase of `amount` by `buyer`.
    pub open spec fn allows_purchase(self, buyer: Pubkey, amount: u64, config: LaunchConfig) -> Result<
        (),
        VertexError,
    > {
        if self.status == SaleStatus::Settled {
            Err(VertexError::Launch(LaunchError::SaleSettled))
        } else if self.sold + amount > u64::MAX {
            Err(VertexError::Common(CommonError::ArithmeticOverflow))
        } else if self.sold + amount > config.global_cap {
            Err(VertexError::Launch(LaunchError::CapExceeded))
        } else if config.wallet_cap > 0 && self.purchased_by(buyer) + amount > u64::MAX {
            Err(VertexError::Common(CommonError::ArithmeticOverflow))
        } else if config.wallet_cap > 0 && self.purchased_by(buyer) + amount > config.wallet_cap {
            Err(VertexError::Launch(LaunchError::WalletCapExceeded))
        } else {
            Ok(())
        }
    }

    /// The record after `amount` is added to the entry of `buyer`. Nothing
    /// is tracked while the wallet cap is off. A new buyer takes the next
    /// free slot, and there must be one.
    pub open spec fn upserted(self, buyer: Pubkey, amount: u64, config: LaunchConfig) -> Result<
        SaleStateView,
        VertexError,
    > {
        if config.wallet_cap == 0 {
            Ok(self)
        } else {
            match self.find_buyer(buyer) {
                Some(i) => {
                    if self.buyers[i].purchased + amount > u64::MAX {
                        Err(VertexError::Common(CommonError::ArithmeticOverflow))
                    } else {
                        Ok(
                            SaleStateView {
                                buyers: self.buyers.update(
                                    i,
                                    BuyerContribution {
                                        buyer: self.buyers[i].buyer,
                                        purchased: (self.buyers[i].purchased + amount) as u64,
                                    },
                                ),
                                ..self
                            },
                        )
                    }
                },
                None => {
                    if self.buyer_count >= MAX_TRACKED_BUYERS {
                        Err(VertexError::SaleState(SaleStateError::BuyerCapacityExceeded))
                    } else {
                        Ok(
                            SaleStateView {
                                buyers: self.buyers.update(
                                    self.buyer_count as int,
                                    BuyerContribution { buyer, purchased: amount },
                                ),
                                buyer_count: (self.buyer_count + 1) as u16,
                                ..self
                            },
                        )
                    }
                },
            }
        }
    }

    /// The record after a purchase of `amount` for `quote_amount`.
    pub open spec fn purchased(
        self,
        buyer: Pubkey,
        amount: u64,
        quote_amount: u64,
        config: LaunchConfig,
    ) -> Result<SaleStateView, VertexError> {
        if self.sold + amount > u64::MAX {
            Err(VertexError::Common(CommonError::ArithmeticOverflow))
        } else if self.proceeds + quote_amount > u64::MAX {
            Err(VertexError::Common(CommonError::ArithmeticOverflow))
        } else {
            match self.upserted(buyer, amount, config) {
                Err(e) => Err(e),
                Ok(next) => Ok(
                    SaleStateView {
                        sold: (self.sold + amount) as u64,
                        proceeds: (self.proceeds + quote_amount) as u64,
                        status: self.status.activated(),
                        ..next
                    },
                ),
            }
        }
    }

    /// The record after `buyer` sells `amount` back for `quote_amount`.
    /// The seller must be tracked, whatever the total sold allows.
    pub open spec fn sold_back(self, buyer: Pubkey, amount: u64, quote_amount: u64) -> Result<
        SaleStateView,
        VertexError,
    > {
        if self.status == SaleStatus::Settled {
            Err(VertexError::Launch(LaunchError::SaleSettled))
        } else if amount > self.sold {
            Err(VertexError::Launch(LaunchError::SellTooLarge))
        } else if quote_amount > self.proceeds {
            Err(VertexError::Common(CommonError::ArithmeticOverflow))
        } else {
            match self.find_buyer(buyer) {
                None => Err(VertexError::Launch(LaunchError::UnknownBuyer)),
                Some(i) => {
                    if amount > self.buyers[i].purchased {
                        Err(VertexError::Launch(LaunchError::SellTooLarge))
                    } else {
                        Ok(
                            SaleStateView {
                                sold: (self.sold - amount) as u64,
                                proceeds: (self.proceeds - quote_amount) as u64,
                                buyers: self.buyers.update(
                                    i,
                                    BuyerContribution {
                                        buyer: self.buyers[i].buyer,
                                        purchased: (self.buyers[i].purchased - amount) as u64,
                                    },
                                ),
                                ..self
                            },
                        )
                    }
                },
            }
        }
    }

    /// The record after the auction is settled at time `now`. A Dutch
    /// auction clears the whole supply.
    pub open spec fn settled(self, config: LaunchConfig, now: i64) -> Result<
        SaleStateView,
        VertexError,
    > {
        if self.status == SaleStatus::Settled {
            Err(VertexError::Launch(LaunchError::SaleSettled))
        } else {
            match config.pricing.auction() {
                None => Err(VertexError::Launch(LaunchError::NotAuction)),
                Some(auction) => {
                    if now < self.auction_end_time(config) {
                        Err(VertexError::Launch(LaunchError::AuctionStillActive))
                    } else {
                        Ok(
                            SaleStateView {
                                sold: if auction.kind == AuctionKind::Dutch {
                                    config.global_cap
                                } else {
                                    self.sold
                                },
                                status: SaleStatus::Settled,
                                ..self
                            },
                        )
                    }
                },
            }
        }
    }
}

/// The least bid that outbids `highest`: the highest bid plus the minimum
/// increment, which is the given basis points of it and at least one.
pub open spec fn required_bid(highest: u64, min_increment_bps: u16) -> int {
    let increment = highest * min_increment_bps / (BPS_PER_WHOLE as int);
    highest + if increment >= 1 {
        increment
    } else {
        1
    }
}

/// Whether a bid at `now` falls in the anti-snipe window before `end`.
pub open spec fn in_snipe_window(auction: AuctionConfig, end: i64, now: i64) -> bool {
    &&& auction.kind == AuctionKind::English
    &&& end - now <= auction.anti_snipe_seconds
}

impl SaleStateView {
    /// The record after a bid of `bid_amount` by `bidder` at time `now`.
    pub open spec fn bid_placed(
        self,
        bidder: Pubkey,
        bid_amount: u64,
        config: LaunchConfig,
        now: i64,
    ) -> Result<SaleStateView, VertexError> {
        if self.status == SaleStatus::Settled {
            Err(VertexError::Launch(LaunchError::SaleSettled))
        } else {
            match config.pricing.auction() {
                None => Err(VertexError::Launch(LaunchError::NotAuction)),
                Some(auction) => {
                    let end = self.auction_end_time(config);
                    if bid_amount < auction.floor_price {
                        Err(VertexError::Launch(LaunchError::BidBelowReserve))
                    } else if !(now < end) {
                        Err(VertexError::Launch(LaunchError::AuctionClosed))
                    } else if self.highest_bid > 0 && (self.highest_bid * auction.min_increment_bps
                        > u64::MAX || required_bid(self.highest_bid, auction.min_increment_bps)
                        > u64::MAX) {
                        Err(VertexError::Common(CommonError::ArithmeticOverflow))
                    } else if self.highest_bid > 0 && bid_amount < required_bid(
                        self.highest_bid,
                        auction.min_increment_bps,
                    ) {
                        Err(VertexError::Launch(LaunchError::BidTooLow))
                    } else if in_snipe_window(auction, end, now) && now
                        + auction.anti_snipe_seconds > i64::MAX {
                        Err(VertexError::Common(CommonError::ArithmeticOverflow))
                    } else {
                        Ok(
                            SaleStateView {
                                highest_bid: bid_amount,
                                highest_bidder: bidder,
                                proceeds: bid_amount,
                                status: self.status.activated(),
                                auction_end: if in_snipe_window(auction, end, now) {
                                    (now + auction.anti_snipe_seconds) as i64
                                } else {
                                    self.auction_end
                                },
                                ..self
                            },
                        )
                    }
                },
            }
        }
    }
}

impl Default for SaleState {
    /// A fresh record with an empty buyer table.
    fn default() -> (state: Self)
        ensures
            state@.zeroed(),
            state.wf(),
            state.highest_bidder@ == Seq::new(32, |i: int| 0u8),
            forall|i: int|
                0 <= i < MAX_TRACKED_BUYERS ==> {
                    &&& (#[trigger] state.buyers[i]).purchased == 0
                    &&& state.buyers[i].buyer@ == Seq::new(32, |k: int| 0u8)
                },
    {
        SaleState {
            sold: 0,
            proceeds: 0,
            status: SaleStatus::Pending,
            highest_bid: 0,
            highest_bidder: Pubkey::default(),
            auction_end: 0,
            buyers: [BuyerContribution::default();MAX_TRACKED_BUYERS],
            buyer_count: 0,
        }
    }
}

impl SaleState {
    /// The record's own invariant: the count of slots in use is within the
    /// table.
    pub open spec fn wf(&self) -> bool {
        self@.table_valid()
    }

    /// Whether the record's own invariant holds.
    pub fn is_well_formed(&self) -> (ok: bool)
        ensures
            ok == self.wf(),
    {
        self.buyer_count as usize <= MAX_TRACKED_BUYERS
    }

    /// Whether the caps of `config` hold of the record.
    pub fn is_within_caps(&self, config: &LaunchConfig) -> (ok: bool)
        requires
            self.wf(),
        ensures
            ok == self@.within_caps(*config),
    {
        if self.sold > config.global_cap {
            return false;
        }
        if config.wallet_cap == 0 {
            return true;
        }
        let count = self.buyer_count as usize;
        let mut i: usize = 0;
        while i < count
            invariant
                i <= count,
                count == self.buyer_count,
                count <= MAX_TRACKED_BUYERS,
                config.wallet_cap > 0,
                self.sold <= config.global_cap,
                forall|j: int|
                    0 <= j < i ==> (#[trigger] self@.buyers[j]).purchased <= config.wallet_cap,
            decreases count - i,
        {
            if self.buyers[i].purchased > config.wallet_cap {
                assert(self@.buyers[i as int].purchased > config.wallet_cap);
                return false;
            }
            i += 1;
        }
        true
    }

    /// Checks that the sale takes a purchase of `amount` by `buyer`: it is
    /// not settled and neither cap would be exceeded.
    pub fn assert_allows_purchase(&self, buyer: &Pubkey, amount: u64, config: &LaunchConfig) -> (r:
        Result<(), VertexError>)
        requires
            self.wf(),
        ensures
            r == self@.allows_purchase(*buyer, amount, *config),
    {
        if self.status == SaleStatus::Settled {
            return Err(VertexError::Launch(LaunchError::SaleSettled));
        }
        let new_sold = match self.sold.checked_add(amount) {
            Some(v) => v,
            None => { return Err(VertexError::Common(CommonError::ArithmeticOverflow)); },
        };
        if !(new_sold <= config.global_cap) {
            return Err(VertexError::Launch(LaunchError::CapExceeded));
        }
        if config.wallet_cap > 0 {
            let existing: u64 = match self.find_buyer(buyer) {
                Some(idx) => self.buyers[idx].purchased,
                None => 0,
            };
            let updated = match existing.checked_add(amount) {
                Some(v) => v,
                None => { return Err(VertexError::Common(CommonError::ArithmeticOverflow)); },
            };
            if !(updated <= config.wallet_cap) {
                return Err(VertexError::Launch(LaunchError::WalletCapExceeded));
            }
        }
        Ok(())
    }

    /// Records a purchase: adds to the totals, to the buyer's entry where
    /// buyers are tracked, and makes a pending sale active. On an error the
    /// record is as it was.
    pub fn record_purchase(
        &mut self,
        buyer: &Pubkey,
        amount: u64,
        quote_amount: u64,
        config: &LaunchConfig,
    ) -> (r: Result<(), VertexError>)
        requires
            old(self).wf(),
        ensures
            match old(self)@.purchased(*buyer, amount, quote_amount, *config) {
                Ok(next) => r is Ok && final(self)@ == next,
                Err(e) => r == Err::<(), VertexError>(e) && *final(self) == *old(self),
            },
            final(self).wf(),
    {
        let new_sold = match self.sold.checked_add(amount) {
            Some(v) => v,
            None => { return Err(VertexError::Common(CommonError::ArithmeticOverflow)); },
        };
        let new_proceeds = match self.proceeds.checked_add(quote_amount) {
            Some(v) => v,
            None => { return Err(VertexError::Common(CommonError::ArithmeticOverflow)); },
        };
        match self.upsert_buyer(buyer, amount, config) {
            Ok(()) => {},
            Err(e) => { return Err(e); },
        }
        self.sold = new_sold;
        self.proceeds = new_proceeds;
        if self.status == SaleStatus::Pending {
            self.status = SaleStatus::Active;
        }
        Ok(())
    }

    /// Records a sale back to the curve: takes the amount off the totals
    /// and off the seller's entry. On an error the record is as it was.
    pub fn record_sell(&mut self, buyer: &Pubkey, amount: u64, quote_amount: u64) -> (r: Result<
        (),
        VertexError,
    >)
        requires
            old(self).wf(),
        ensures
            match old(self)@.sold_back(*buyer, amount, quote_amount) {
                Ok(next) => r is Ok && final(self)@ == next,
                Err(e) => r == Err::<(), VertexError>(e) && *final(self) == *old(self),
            },
            final(self).wf(),
    {
        if self.status == SaleStatus::Settled {
            return Err(VertexError::Launch(LaunchError::SaleSettled));
        }
        let new_sold = match self.sold.checked_sub(amount) {
            Some(v) => v,
            None => { return Err(VertexError::Launch(LaunchError::SellTooLarge)); },
        };
        let new_proceeds = match self.proceeds.checked_sub(quote_amount) {
            Some(v) => v,
            None => { return Err(VertexError::Common(CommonError::ArithmeticOverflow)); },
        };
        match self.find_buyer(buyer) {
            Some(idx) => {
                let new_total = match self.buyers[idx].purchased.checked_sub(amount) {
                    Some(v) => v,
                    None => { return Err(VertexError::Launch(LaunchError::SellTooLarge)); },
                };
                self.buyers[idx].purchased = new_total;
            },
            None => {
                return Err(VertexError::Launch(LaunchError::UnknownBuyer));
            },
        }
        self.sold = new_sold;
        self.proceeds = new_proceeds;
        Ok(())
    }

    /// Settles the auction once its end has come. A Dutch auction clears
    /// the whole supply. On an error the record is as it was.
    pub fn settle_auction(&mut self, config: &LaunchConfig, clock: &Clock) -> (r: Result<
        (),
        VertexError,
    >)
        ensures
            match old(self)@.settled(*config, clock.unix_timestamp) {
                Ok(next) => r is Ok && final(self)@ == next,
                Err(e) => r == Err::<(), VertexError>(e) && *final(self) == *old(self),
            },
    {
        if self.status == SaleStatus::Settled {
            return Err(VertexError::Launch(LaunchError::SaleSettled));
        }
        let auction = match config.pricing.auction_config() {
            Some(a) => a,
            None => { return Err(VertexError::Launch(LaunchError::NotAuction)); },
        };
        let end = self.current_auction_end(config);
        if !(clock.unix_timestamp >= end) {
            return Err(VertexError::Launch(LaunchError::AuctionStillActive));
        }
        if auction.kind == AuctionKind::Dutch {
            self.sold = config.global_cap;
        }
        self.status = SaleStatus::Settled;
        Ok(())
    }

    /// The end of the auction, extensions included.
    pub fn current_auction_end(&self, config: &LaunchConfig) -> (end: i64)
        ensures
            end == self@.auction_end_time(*config),
    {
        if self.auction_end == 0 {
            config.end_time
        } else {
            self.auction_end
        }
    }

    /// Records a bid: it must reach the reserve, come before the end, and
    /// outbid the highest bid by the minimum increment. The proceeds become
    /// the bid. A late bid in an English auction pushes the end back. On an
    /// error the record is as it was.
    pub fn record_bid(
        &mut self,
        bidder: &Pubkey,
        bid_amount: u64,
        config: &LaunchConfig,
        clock: &Clock,
    ) -> (r: Result<(), VertexError>)
        ensures
            match old(self)@.bid_placed(*bidder, bid_amount, *config, clock.unix_timestamp) {
                Ok(next) => r is Ok && final(self)@ == next,
                Err(e) => r == Err::<(), VertexError>(e) && *final(self) == *old(self),
            },
    {
        if self.status == SaleStatus::Settled {
            return Err(VertexError::Launch(LaunchError::SaleSettled));
        }
        let auction = match config.pricing.auction_config() {
            Some(a) => a,
            None => { return Err(VertexError::Launch(LaunchError::NotAuction)); },
        };
        if !(bid_amount >= auction.floor_price) {
            return Err(VertexError::Launch(LaunchError::BidBelowReserve));
        }
        let now = clock.unix_timestamp;
        let end = self.current_auction_end(config);
        if !(now < end) {
            return Err(VertexError::Launch(LaunchError::AuctionClosed));
        }
        if self.highest_bid > 0 {
            let scaled = match self.highest_bid.checked_mul(auction.min_increment_bps as u64) {
                Some(v) => v,
                None => { return Err(VertexError::Common(CommonError::ArithmeticOverflow)); },
            };
            let min_increment: u64 = scaled / BPS_PER_WHOLE;
            let step: u64 = if min_increment >= 1 {
                min_increment
            } else {
                1
            };
            let required = match self.highest_bid.checked_add(step) {
                Some(v) => v,
                None => { return Err(VertexError::Common(CommonError::ArithmeticOverflow)); },
            };
            if !(bid_amount >= required) {
                return Err(VertexError::Launch(LaunchError::BidTooLow));
            }
        }
        let mut new_end: i64 = self.auction_end;
        if auction.kind == AuctionKind::English {
            let remaining: i128 = end as i128 - now as i128;
            if remaining <= auction.anti_snipe_seconds as i128 {
                new_end = match now.checked_add(auction.anti_snipe_seconds) {
                    Some(v) => v,
                    None => { return Err(VertexError::Common(CommonError::ArithmeticOverflow)); },
                };
            }
        }
        self.highest_bid = bid_amount;
        self.highest_bidder = *bidder;
        self.proceeds = bid_amount;
        if self.status == SaleStatus::Pending {
            self.status = SaleStatus::Active;
        }
        self.auction_end = new_end;
        Ok(())
    }

    /// The slot of `buyer` among the slots in use.
    fn find_buyer(&self, buyer: &Pubkey) -> (r: Option<usize>)
        requires
            self.wf(),
        ensures
            match r {
                Some(idx) => self@.find_buyer(*buyer) == Some(idx as int) && idx
                    < self.buyer_count,
                None => self@.find_buyer(*buyer) is None,
            },
    {
        let count = self.buyer_count as usize;
        let mut i: usize = 0;
        while i < count
            invariant
                i <= count,
                count == self.buyer_count,
                count <= MAX_TRACKED_BUYERS,
                forall|j: int| 0 <= j < i ==> (#[trigger] self@.buyers[j]).buyer != *buyer,
            decreases count - i,
        {
            if self.buyers[i].buyer == *buyer {
                proof {
                    let found = i as int;
                    assert(self@.is_first_entry_of(*buyer, found));
                    let chosen = choose|k: int| self@.is_first_entry_of(*buyer, k);
                    assert(self@.is_first_entry_of(*buyer, chosen));
                    if chosen < found {
                        assert(self@.buyers[chosen].buyer != *buyer);
                    } else if chosen > found {
                        assert(self@.buyers[found].buyer != *buyer);
                    }
                }
                return Some(i);
            }
            i += 1;
        }
        proof {
            assert forall|k: int| !self@.is_first_entry_of(*buyer, k) by {
                if 0 <= k < count {
                    assert(self@.buyers[k].buyer != *buyer);
                }
            }
        }
        None
    }

    /// Adds `amount` to the entry of `buyer`, in a new slot for a new buyer.
    fn upsert_buyer(&mut self, buyer: &Pubkey, amount: u64, config: &LaunchConfig) -> (r: Result<
        (),
        VertexError,
    >)
        requires
            old(self).wf(),
        ensures
            match old(self)@.upserted(*buyer, amount, *config) {
                Ok(next) => r is Ok && final(self)@ == next,
                Err(e) => r == Err::<(), VertexError>(e) && *final(self) == *old(self),
            },
            final(self).wf(),
    {
        if config.wallet_cap == 0 {
            return Ok(());
        }
        if let Some(idx) = self.find_buyer(buyer) {
            let new_total = match self.buyers[idx].purchased.checked_add(amount) {
                Some(v) => v,
                None => { return Err(VertexError::Common(CommonError::ArithmeticOverflow)); },
            };
            self.buyers[idx].purchased = new_total;
            return Ok(());
        }
        let idx = self.buyer_count as usize;
        if !(idx < MAX_TRACKED_BUYERS) {
            return Err(VertexError::SaleState(SaleStateError::BuyerCapacityExceeded));
        }
        self.buyers[idx] = BuyerContribution { buyer: *buyer, purchased: amount };
        self.buyer_count = self.buyer_count + 1;
        Ok(())
    }
}

} // verus!
