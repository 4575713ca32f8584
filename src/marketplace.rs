use vstd::prelude::*;
use crate::auction::{
    auctions_may_become, bid_is_high_enough, end_after_bid, extended_end, meets_min_bid,
    outbid_refund, refund_for_outbid, Auction, MAX_AUCTION_DURATION, MIN_AUCTION_DURATION,
};
use crate::fee::{fee_of, split_payment, validate_fee_rate, BPS_DENOMINATOR, MAX_FEE_BPS};
use crate::listing::{listings_may_become, Listing, MAX_LISTING_DURATION, MIN_LISTING_DURATION};
use crate::records::{
    count_true, ids_where, lemma_count_true_bounded, lemma_count_true_clear,
    lemma_count_true_push, lemma_ids_where_push,
};
use crate::stats::MarketplaceStats;
use crate::types::{
    Address, AssetDeposit, AssetRef, Funds, MarketError, Notification, PaymentToken, Receipt,
    Transfer,
};

verus! {

/// The largest number of listings, or of auctions, the engine holds: each
/// gets a `u32` identifier from 1 up, and the counter keeps one ahead.
pub const MAX_RECORDS: usize = 4294967294;

/// The marketplace: its configuration, its records and its statistics.
///
/// Listing `id` is stored at index `id - 1`, auction `id` likewise; records
/// are never removed, so identifiers are issued once, from 1 up, and never
/// reused.
pub struct WineMarketplace {
    fee_bps: u64,
    owner: Address,
    supported_tokens: Vec<PaymentToken>,
    listings: Vec<Listing>,
    auctions: Vec<Auction>,
    stats: MarketplaceStats,
}

/// The state of a marketplace as contracts see it.
pub struct MarketView {
    /// Fee rate in basis points.
    pub fee_bps: u64,
    /// The owner, who configures the marketplace and receives its fees.
    pub owner: Address,
    pub supported_tokens: Seq<PaymentToken>,
    pub listings: Seq<Listing>,
    pub auctions: Seq<Auction>,
    pub stats: MarketplaceStats,
}

impl View for WineMarketplace {
    type V = MarketView;

    closed spec fn view(&self) -> MarketView {
        MarketView {
            fee_bps: self.fee_bps,
            owner: self.owner,
            supported_tokens: self.supported_tokens@,
            listings: self.listings@,
            auctions: self.auctions@,
            stats: self.stats,
        }
    }
}

/// Which listings are open.
pub open spec fn listing_flags(s: Seq<Listing>) -> Seq<bool> {
    Seq::new(s.len(), |i: int| s[i].active)
}

/// Which auctions are open.
pub open spec fn auction_flags(s: Seq<Auction>) -> Seq<bool> {
    Seq::new(s.len(), |i: int| s[i].active)
}

/// Which listings `seller` made.
pub open spec fn listing_seller_flags(s: Seq<Listing>, seller: Address) -> Seq<bool> {
    Seq::new(s.len(), |i: int| s[i].seller == seller)
}

/// Which auctions `seller` made.
pub open spec fn auction_seller_flags(s: Seq<Auction>, seller: Address) -> Seq<bool> {
    Seq::new(s.len(), |i: int| s[i].seller == seller)
}

/// The transfers that settle a sale at `price`: the asset to the winner, the
/// net amount to the seller, then the fee to its recipient where it is not zero.
pub open spec fn settlement(
    winner: Address,
    seller: Address,
    asset: AssetRef,
    token: PaymentToken,
    price: int,
    fee_bps: int,
    fee_recipient: Address,
) -> Seq<Transfer> {
    let fee = fee_of(price, fee_bps);
    let head = seq![
        Transfer::Asset { to: winner, asset },
        Transfer::Funds { to: seller, token, amount: (price - fee) as u128 },
    ];
    if fee > 0 {
        head.push(Transfer::Funds { to: fee_recipient, token, amount: fee as u128 })
    } else {
        head
    }
}

/// The total of the currency amounts in `transfers`.
pub open spec fn funds_paid(transfers: Seq<Transfer>) -> int
    decreases transfers.len(),
{
    if transfers.len() == 0 {
        0
    } else {
        funds_paid(transfers.drop_last()) + match transfers.last() {
            Transfer::Funds { amount, .. } => amount as int,
            Transfer::Asset { .. } => 0,
        }
    }
}

/// A settlement pays out exactly the price: the seller's net amount and the
/// fee add up to it, with the fee rounded down.
pub proof fn lemma_settlement_pays_price(
    winner: Address,
    seller: Address,
    asset: AssetRef,
    token: PaymentToken,
    price: u128,
    fee_bps: u64,
    fee_recipient: Address,
)
    requires
        fee_bps <= BPS_DENOMINATOR,
    ensures
        funds_paid(settlement(winner, seller, asset, token, price as int, fee_bps as int, fee_recipient))
            == price,
        0 <= fee_of(price as int, fee_bps as int) <= price,
{
    let fee = fee_of(price as int, fee_bps as int);
    assert(0 <= fee <= price) by {
        assert(price * fee_bps <= price * 10000) by (nonlinear_arith)
            requires fee_bps <= 10000;
        assert(0 <= price * fee_bps) by (nonlinear_arith);
    }
    let head = seq![
        Transfer::Asset { to: winner, asset },
        Transfer::Funds { to: seller, token, amount: (price - fee) as u128 },
    ];
    assert(head.drop_last() =~= seq![Transfer::Asset { to: winner, asset }]);
    assert(head.drop_last().drop_last() =~= Seq::<Transfer>::empty());
    assert(funds_paid(head.drop_last().drop_last()) == 0);
    assert(funds_paid(head.drop_last()) == 0);
    assert(funds_paid(head) == price - fee);
    if fee > 0 {
        let full = head.push(Transfer::Funds { to: fee_recipient, token, amount: fee as u128 });
        assert(full.drop_last() =~= head);
    }
}

/// A purchase pays out exactly what the buyer attached: the price, split
/// between seller and fee, and the surplus back to the buyer.
pub proof fn lemma_purchase_pays_attached(m: MarketView, buyer: Address, payment: Funds, id: u32)
    requires
        m.wf(),
        m.has_listing(id),
        payment.amount >= m.listing(id).price,
    ensures
        funds_paid(m.purchase_transfers(buyer, payment, id)) == payment.amount,
{
    let l = m.listing(id);
    let asset = AssetRef { token: l.nft_token_id, nonce: l.nft_nonce };
    lemma_settlement_pays_price(buyer, l.seller, asset, l.payment_token, l.price, m.fee_bps, m.owner);
    let base = settlement(buyer, l.seller, asset, l.payment_token, l.price as int, m.fee_bps as int, m.owner);
    if payment.amount > l.price {
        let t = Transfer::Funds { to: buyer, token: payment.token, amount: (payment.amount - l.price) as u128 };
        assert(base.push(t).drop_last() =~= base);
    }
}

/// Builds the transfers that settle a sale at `price`.
fn settle(
    winner: Address,
    seller: Address,
    asset: AssetRef,
    token: PaymentToken,
    price: u128,
    fee_bps: u64,
    fee_recipient: Address,
) -> (r: Vec<Transfer>)
    requires
        fee_bps <= MAX_FEE_BPS,
    ensures
        r@ == settlement(winner, seller, asset, token, price as int, fee_bps as int, fee_recipient),
{
    let (fee, net) = split_payment(price, fee_bps);
    let mut v: Vec<Transfer> = Vec::new();
    v.push(Transfer::Asset { to: winner, asset });
    v.push(Transfer::Funds { to: seller, token, amount: net });
    if fee > 0 {
        v.push(Transfer::Funds { to: fee_recipient, token, amount: fee });
    }
    proof {
        let head = seq![
            Transfer::Asset { to: winner, asset },
            Transfer::Funds { to: seller, token, amount: net },
        ];
        if fee > 0 {
            assert(v@ =~= head.push(Transfer::Funds { to: fee_recipient, token, amount: fee }));
        } else {
            assert(v@ =~= head);
        }
    }
    v
}

impl MarketView {
    /// The engine's invariant.
    pub open spec fn wf(self) -> bool {
        &&& self.fee_bps <= MAX_FEE_BPS
        &&& self.supported_tokens.contains(PaymentToken::Native)
        &&& self.listings.len() <= MAX_RECORDS
        &&& self.auctions.len() <= MAX_RECORDS
        &&& forall|i: int| 0 <= i < self.listings.len() ==> (#[trigger] self.listings[i]).wf()
        &&& forall|i: int| 0 <= i < self.auctions.len() ==> (#[trigger] self.auctions[i]).wf()
        &&& self.stats.total_listings == self.listings.len()
        &&& self.stats.active_listings == count_true(listing_flags(self.listings))
        &&& self.stats.active_auctions == count_true(auction_flags(self.auctions))
    }

    pub open spec fn has_listing(self, id: u32) -> bool {
        1 <= id <= self.listings.len()
    }

    pub open spec fn listing(self, id: u32) -> Listing {
        self.listings[id - 1]
    }

    pub open spec fn has_auction(self, id: u32) -> bool {
        1 <= id <= self.auctions.len()
    }

    pub open spec fn auction(self, id: u32) -> Auction {
        self.auctions[id - 1]
    }

    /// `next` follows from this state by one operation, as far as records go:
    /// existing listings and auctions only move as they may, and none is removed.
    pub open spec fn may_become(self, next: MarketView) -> bool {
        &&& listings_may_become(self.listings, next.listings)
        &&& auctions_may_become(self.auctions, next.auctions)
    }

    /// The first check that `create_listing` fails, if any.
    pub open spec fn create_listing_error(
        self,
        now: u64,
        deposit: AssetDeposit,
        price: u128,
        payment_token: PaymentToken,
        duration_seconds: u64,
    ) -> Option<MarketError> {
        if !self.supported_tokens.contains(payment_token) {
            Some(MarketError::UnsupportedPaymentToken)
        } else if price == 0 {
            Some(MarketError::ZeroPrice)
        } else if duration_seconds < MIN_LISTING_DURATION {
            Some(MarketError::DurationTooShort)
        } else if duration_seconds > MAX_LISTING_DURATION {
            Some(MarketError::DurationTooLong)
        } else if now + duration_seconds > u64::MAX {
            Some(MarketError::TimestampOverflow)
        } else if deposit.amount != 1 {
            Some(MarketError::NotExactlyOneAsset)
        } else if self.listings.len() >= MAX_RECORDS {
            Some(MarketError::IdSpaceExhausted)
        } else {
            None
        }
    }

    /// The state after `listing` is added as a new open listing.
    pub open spec fn with_new_listing(self, listing: Listing) -> MarketView {
        MarketView {
            listings: self.listings.push(listing),
            stats: MarketplaceStats {
                total_listings: (self.stats.total_listings + 1) as u32,
                active_listings: (self.stats.active_listings + 1) as u32,
                ..self.stats
            },
            ..self
        }
    }

    /// The listing with identifier `id` closed, and counted as no longer open.
    pub open spec fn with_listing_closed(self, id: u32) -> MarketView {
        MarketView {
            listings: self.listings.update(id - 1, Listing { active: false, ..self.listing(id) }),
            stats: MarketplaceStats {
                active_listings: (self.stats.active_listings - 1) as u32,
                ..self.stats
            },
            ..self
        }
    }

    /// The first check that `buy_wine` fails, if any.
    pub open spec fn buy_wine_error(self, caller: Address, now: u64, payment: Funds, id: u32) -> Option<
        MarketError,
    > {
        if !self.has_listing(id) {
            Some(MarketError::UnknownListing)
        } else {
            let l = self.listing(id);
            if !l.active {
                Some(MarketError::ListingNotActive)
            } else if now > l.deadline {
                Some(MarketError::ListingExpired)
            } else if payment.token != l.payment_token {
                Some(MarketError::InvalidPaymentToken)
            } else if payment.amount < l.price {
                Some(MarketError::InsufficientPayment)
            } else if caller == l.seller {
                Some(MarketError::SelfPurchase)
            } else if !self.stats.can_record_sale(
                l.price as int,
                fee_of(l.price as int, self.fee_bps as int),
            ) {
                Some(MarketError::StatsOverflow)
            } else {
                None
            }
        }
    }

    /// The state after listing `id` is sold.
    pub open spec fn with_listing_sold(self, id: u32) -> MarketView {
        let price = self.listing(id).price as int;
        let closed = self.with_listing_closed(id);
        MarketView {
            stats: closed.stats.after_sale(price, fee_of(price, self.fee_bps as int)),
            ..closed
        }
    }

    /// The transfers of a purchase of listing `id` by `buyer` with `payment`:
    /// the settlement at the listing's price, then any surplus back to the buyer.
    pub open spec fn purchase_transfers(self, buyer: Address, payment: Funds, id: u32) -> Seq<
        Transfer,
    > {
        let l = self.listing(id);
        let base = settlement(
            buyer,
            l.seller,
            AssetRef { token: l.nft_token_id, nonce: l.nft_nonce },
            l.payment_token,
            l.price as int,
            self.fee_bps as int,
            self.owner,
        );
        if payment.amount > l.price {
            base.push(
                Transfer::Funds {
                    to: buyer,
                    token: payment.token,
                    amount: (payment.amount - l.price) as u128,
                },
            )
        } else {
            base
        }
    }

    /// The first check that `cancel_listing` fails, if any.
    pub open spec fn cancel_listing_error(self, caller: Address, id: u32) -> Option<MarketError> {
        if !self.has_listing(id) {
            Some(MarketError::UnknownListing)
        } else if !self.listing(id).active {
            Some(MarketError::ListingNotActive)
        } else if caller != self.listing(id).seller {
            Some(MarketError::NotSeller)
        } else {
            None
        }
    }

    /// The state after `token` is accepted for payment.
    pub open spec fn with_supported_token(self, token: PaymentToken) -> MarketView {
        MarketView {
            supported_tokens: if self.supported_tokens.contains(token) {
                self.supported_tokens
            } else {
                self.supported_tokens.push(token)
            },
            ..self
        }
    }

    /// The first check that `create_auction` fails, if any.
    pub open spec fn create_auction_error(
        self,
        now: u64,
        deposit: AssetDeposit,
        starting_price: u128,
        payment_token: PaymentToken,
        duration_seconds: u64,
        min_bid_increment: u128,
    ) -> Option<MarketError> {
        if !self.supported_tokens.contains(payment_token) {
            Some(MarketError::UnsupportedPaymentToken)
        } else if starting_price == 0 {
            Some(MarketError::ZeroPrice)
        } else if duration_seconds < MIN_AUCTION_DURATION {
            Some(MarketError::DurationTooShort)
        } else if duration_seconds > MAX_AUCTION_DURATION {
            Some(MarketError::DurationTooLong)
        } else if min_bid_increment == 0 {
            Some(MarketError::ZeroBidIncrement)
        } else if now + duration_seconds > u64::MAX {
            Some(MarketError::TimestampOverflow)
        } else if deposit.amount != 1 {
            Some(MarketError::NotExactlyOneAsset)
        } else if self.auctions.len() >= MAX_RECORDS {
            Some(MarketError::IdSpaceExhausted)
        } else {
            None
        }
    }

    /// The state after `auction` is added as a new open auction.
    pub open spec fn with_new_auction(self, auction: Auction) -> MarketView {
        MarketView {
            auctions: self.auctions.push(auction),
            stats: MarketplaceStats {
                active_auctions: (self.stats.active_auctions + 1) as u32,
                ..self.stats
            },
            ..self
        }
    }

    /// The first check that `place_bid` fails, if any.
    pub open spec fn place_bid_error(self, caller: Address, now: u64, payment: Funds, id: u32) -> Option<
        MarketError,
    > {
        if !self.has_auction(id) {
            Some(MarketError::UnknownAuction)
        } else {
            let a = self.auction(id);
            if !a.active {
                Some(MarketError::AuctionNotActive)
            } else if now >= a.end_timestamp {
                Some(MarketError::AuctionEnded)
            } else if payment.token != a.payment_token {
                Some(MarketError::InvalidPaymentToken)
            } else if caller == a.seller {
                Some(MarketError::SelfBid)
            } else if !bid_is_high_enough(
                a.current_bid as int,
                a.min_bid_increment as int,
                payment.amount as int,
            ) {
                Some(MarketError::BidTooLow)
            } else if a.bid_count + 1 > u32::MAX {
                Some(MarketError::BidCountOverflow)
            } else if end_after_bid(a.end_timestamp as int, now as int) > u64::MAX {
                Some(MarketError::TimestampOverflow)
            } else {
                None
            }
        }
    }

    /// Auction `id` after `bidder` bids `amount` at `now`.
    pub open spec fn auction_after_bid(self, bidder: Address, now: u64, amount: u128, id: u32) -> Auction {
        let a = self.auction(id);
        Auction {
            current_bid: amount,
            highest_bidder: bidder,
            bid_count: (a.bid_count + 1) as u32,
            end_timestamp: end_after_bid(a.end_timestamp as int, now as int) as u64,
            ..a
        }
    }

    /// The first check that `finalize_auction` fails, if any.
    pub open spec fn finalize_auction_error(self, caller: Address, now: u64, id: u32) -> Option<
        MarketError,
    > {
        if !self.has_auction(id) {
            Some(MarketError::UnknownAuction)
        } else {
            let a = self.auction(id);
            if !a.active {
                Some(MarketError::AuctionNotActive)
            } else if now < a.end_timestamp {
                Some(MarketError::AuctionNotEnded)
            } else if caller != a.seller && caller != a.highest_bidder {
                Some(MarketError::NotAllowedToFinalize)
            } else if a.has_real_bid() && !self.stats.can_record_sale(
                a.current_bid as int,
                fee_of(a.current_bid as int, self.fee_bps as int),
            ) {
                Some(MarketError::StatsOverflow)
            } else {
                None
            }
        }
    }

    /// The auction with identifier `id` closed, and counted as no longer open.
    pub open spec fn with_auction_closed(self, id: u32) -> MarketView {
        MarketView {
            auctions: self.auctions.update(id - 1, Auction { active: false, ..self.auction(id) }),
            stats: MarketplaceStats {
                active_auctions: (self.stats.active_auctions - 1) as u32,
                ..self.stats
            },
            ..self
        }
    }

    /// The state after auction `id` is finalized: closed, and counted as a
    /// sale where someone bid.
    pub open spec fn with_auction_finalized(self, id: u32) -> MarketView {
        let a = self.auction(id);
        let closed = self.with_auction_closed(id);
        if a.has_real_bid() {
            MarketView {
                stats: closed.stats.after_sale(
                    a.current_bid as int,
                    fee_of(a.current_bid as int, self.fee_bps as int),
                ),
                ..closed
            }
        } else {
            closed
        }
    }

    /// The transfers that finalizing auction `id` makes: the settlement at
    /// the winning bid, or the asset back to the seller where nobody bid.
    pub open spec fn finalize_transfers(self, id: u32) -> Seq<Transfer> {
        let a = self.auction(id);
        let asset = AssetRef { token: a.nft_token_id, nonce: a.nft_nonce };
        if a.has_real_bid() {
            settlement(
                a.highest_bidder,
                a.seller,
                asset,
                a.payment_token,
                a.current_bid as int,
                self.fee_bps as int,
                self.owner,
            )
        } else {
            seq![Transfer::Asset { to: a.seller, asset }]
        }
    }
}

impl WineMarketplace {
    /// The invariant, on the engine itself.
    pub open spec fn wf(&self) -> bool {
        self@.wf()
    }

    /// A new marketplace owned by `owner`, charging `marketplace_fee_percent`
    /// basis points, that accepts the native currency; rejected where the
    /// rate is above the cap.
    pub fn new(marketplace_fee_percent: u64, owner: Address) -> (r: Result<
        WineMarketplace,
        MarketError,
    >)
        ensures
            marketplace_fee_percent > MAX_FEE_BPS ==> r == Err::<WineMarketplace, MarketError>(
                MarketError::FeeTooHigh,
            ),
            marketplace_fee_percent <= MAX_FEE_BPS ==> r is Ok,
            r matches Ok(m) ==> {
                &&& m.wf()
                &&& m@.fee_bps == marketplace_fee_percent
                &&& m@.owner == owner
                &&& m@.supported_tokens == seq![PaymentToken::Native]
                &&& m@.listings.len() == 0
                &&& m@.auctions.len() == 0
                &&& m@.stats == MarketplaceStats::zero()
            },
    {
        let fee_bps = match validate_fee_rate(marketplace_fee_percent) {
            Ok(v) => v,
            Err(e) => return Err(e),
        };
        let mut supported_tokens: Vec<PaymentToken> = Vec::new();
        supported_tokens.push(PaymentToken::Native);
        let m = WineMarketplace {
            fee_bps,
            owner,
            supported_tokens,
            listings: Vec::new(),
            auctions: Vec::new(),
            stats: MarketplaceStats::new(),
        };
        proof {
            assert(m@.supported_tokens[0] == PaymentToken::Native);
            assert(listing_flags(m@.listings) =~= Seq::<bool>::empty());
            assert(auction_flags(m@.auctions) =~= Seq::<bool>::empty());
        }
        Ok(m)
    }

    /// Whether payments in `token_id` are accepted.
    pub fn is_supported_payment_token(&self, token_id: PaymentToken) -> (r: bool)
        ensures
            r == self@.supported_tokens.contains(token_id),
    {
        let mut i: usize = 0;
        while i < self.supported_tokens.len()
            invariant
                0 <= i <= self.supported_tokens@.len(),
                forall|j: int| 0 <= j < i ==> self.supported_tokens@[j] != token_id,
            decreases self.supported_tokens@.len() - i,
        {
            if self.supported_tokens[i] == token_id {
                return true;
            }
            i += 1;
        }
        false
    }

    /// Puts one asset into escrow and lists it for sale at `price` in
    /// `payment_token` until `now + duration_seconds`; returns the new
    /// listing's identifier.
    pub fn create_listing(
        &mut self,
        caller: Address,
        now: u64,
        deposit: AssetDeposit,
        wine_nft_id: u32,
        price: u128,
        payment_token: PaymentToken,
        duration_seconds: u64,
    ) -> (r: Result<(u32, Notification), MarketError>)
        requires
            old(self).wf(),
        ensures
            final(self).wf(),
            old(self)@.may_become(final(self)@),
            match r {
                Ok((id, note)) => {
                    let listing = Listing {
                        wine_nft_id,
                        nft_token_id: deposit.asset.token,
                        nft_nonce: deposit.asset.nonce,
                        seller: caller,
                        price,
                        payment_token,
                        deadline: (now + duration_seconds) as u64,
                        active: true,
                        created_timestamp: now,
                    };
                    &&& old(self)@.create_listing_error(
                        now,
                        deposit,
                        price,
                        payment_token,
                        duration_seconds,
                    ) == None::<MarketError>
                    &&& id == old(self)@.listings.len() + 1
                    &&& final(self)@ == old(self)@.with_new_listing(listing)
                    &&& note == (Notification::WineListed {
                        listing_id: id,
                        wine_nft_id,
                        seller: caller,
                        price,
                        payment_token,
                    })
                },
                Err(e) => {
                    &&& old(self)@.create_listing_error(
                        now,
                        deposit,
                        price,
                        payment_token,
                        duration_seconds,
                    ) == Some(e)
                    &&& final(self)@ == old(self)@
                },
            },
    {
        if !self.is_supported_payment_token(payment_token) {
            return Err(MarketError::UnsupportedPaymentToken);
        }
        if price == 0 {
            return Err(MarketError::ZeroPrice);
        }
        if duration_seconds < MIN_LISTING_DURATION {
            return Err(MarketError::DurationTooShort);
        }
        if duration_seconds > MAX_LISTING_DURATION {
            return Err(MarketError::DurationTooLong);
        }
        let deadline = match now.checked_add(duration_seconds) {
            Some(d) => d,
            None => return Err(MarketError::TimestampOverflow),
        };
        if deposit.amount != 1 {
            return Err(MarketError::NotExactlyOneAsset);
        }
        if self.listings.len() >= MAX_RECORDS {
            return Err(MarketError::IdSpaceExhausted);
        }
        let listing_id = (self.listings.len() + 1) as u32;
        let listing = Listing {
            wine_nft_id,
            nft_token_id: deposit.asset.token,
            nft_nonce: deposit.asset.nonce,
            seller: caller,
            price,
            payment_token,
            deadline,
            active: true,
            created_timestamp: now,
        };
        proof {
            let flags = listing_flags(self@.listings);
            lemma_count_true_bounded(flags);
            lemma_count_true_push(flags, true);
            assert(listing_flags(self@.listings.push(listing)) =~= flags.push(true));
        }
        self.listings.push(listing);
        self.stats = MarketplaceStats {
            total_listings: self.stats.total_listings + 1,
            active_listings: self.stats.active_listings + 1,
            ..self.stats
        };
        Ok(
            (
                listing_id,
                Notification::WineListed {
                    listing_id,
                    wine_nft_id,
                    seller: caller,
                    price,
                    payment_token,
                },
            ),
        )
    }

    /// Closes listing `id` in the store and in the counters.
    fn close_listing(&mut self, id: u32)
        requires
            old(self).wf(),
            old(self)@.has_listing(id),
            old(self)@.listing(id).active,
        ensures
            final(self).wf(),
            final(self)@ == old(self)@.with_listing_closed(id),
    {
        let idx = (id - 1) as usize;
        let closed = Listing { active: false, ..self.listings[idx] };
        proof {
            let flags = listing_flags(self@.listings);
            lemma_count_true_clear(flags, idx as int);
            assert(listing_flags(self@.listings.update(idx as int, closed)) =~= flags.update(
                idx as int,
                false,
            ));
        }
        self.listings.set(idx, closed);
        self.stats = MarketplaceStats {
            active_listings: self.stats.active_listings - 1,
            ..self.stats
        };
    }

    /// Buys listing `listing_id` for `caller`, who attached `payment`: the
    /// asset goes to the buyer, the price less the fee to the seller, the fee
    /// to the owner, and any surplus back to the buyer.
    pub fn buy_wine(&mut self, caller: Address, now: u64, payment: Funds, listing_id: u32) -> (r:
        Result<Receipt, MarketError>)
        requires
            old(self).wf(),
        ensures
            final(self).wf(),
            old(self)@.may_become(final(self)@),
            match r {
                Ok(receipt) => {
                    let l = old(self)@.listing(listing_id);
                    &&& old(self)@.buy_wine_error(caller, now, payment, listing_id) == None::<
                        MarketError,
                    >
                    &&& final(self)@ == old(self)@.with_listing_sold(listing_id)
                    &&& receipt.transfers@ == old(self)@.purchase_transfers(
                        caller,
                        payment,
                        listing_id,
                    )
                    &&& receipt.notification == (Notification::WineSold {
                        listing_id,
                        wine_nft_id: l.wine_nft_id,
                        seller: l.seller,
                        buyer: caller,
                        price: l.price,
                    })
                },
                Err(e) => {
                    &&& old(self)@.buy_wine_error(caller, now, payment, listing_id) == Some(e)
                    &&& final(self)@ == old(self)@
                },
            },
    {
        let listing = match self.get_listing(listing_id) {
            Some(l) => l,
            None => return Err(MarketError::UnknownListing),
        };
        if !listing.active {
            return Err(MarketError::ListingNotActive);
        }
        if now > listing.deadline {
            return Err(MarketError::ListingExpired);
        }
        if payment.token != listing.payment_token {
            return Err(MarketError::InvalidPaymentToken);
        }
        if payment.amount < listing.price {
            return Err(MarketError::InsufficientPayment);
        }
        if caller == listing.seller {
            return Err(MarketError::SelfPurchase);
        }
        let (fee, _net) = split_payment(listing.price, self.fee_bps);
        let sold_stats = match self.stats.with_sale(listing.price, fee) {
            Some(s) => s,
            None => return Err(MarketError::StatsOverflow),
        };
        let ghost before = self@;
        let mut transfers = settle(
            caller,
            listing.seller,
            AssetRef { token: listing.nft_token_id, nonce: listing.nft_nonce },
            listing.payment_token,
            listing.price,
            self.fee_bps,
            self.owner,
        );
        if payment.amount > listing.price {
            transfers.push(
                Transfer::Funds {
                    to: caller,
                    token: payment.token,
                    amount: payment.amount - listing.price,
                },
            );
        }
        self.close_listing(listing_id);
        self.stats = MarketplaceStats { active_listings: self.stats.active_listings, ..sold_stats };
        proof {
            assert(self@.listings =~= before.with_listing_sold(listing_id).listings);
        }
        Ok(
            Receipt {
                transfers,
                notification: Notification::WineSold {
                    listing_id,
                    wine_nft_id: listing.wine_nft_id,
                    seller: listing.seller,
                    buyer: caller,
                    price: listing.price,
                },
            },
        )
    }

    /// Withdraws listing `listing_id` at its seller's request and returns
    /// the asset to them.
    pub fn cancel_listing(&mut self, caller: Address, listing_id: u32) -> (r: Result<
        Receipt,
        MarketError,
    >)
        requires
            old(self).wf(),
        ensures
            final(self).wf(),
            old(self)@.may_become(final(self)@),
            match r {
                Ok(receipt) => {
                    let l = old(self)@.listing(listing_id);
                    &&& old(self)@.cancel_listing_error(caller, listing_id) == None::<MarketError>
                    &&& final(self)@ == old(self)@.with_listing_closed(listing_id)
                    &&& receipt.transfers@ == seq![
                        Transfer::Asset {
                            to: l.seller,
                            asset: AssetRef { token: l.nft_token_id, nonce: l.nft_nonce },
                        },
                    ]
                    &&& receipt.notification == (Notification::ListingCancelled { listing_id })
                },
                Err(e) => {
                    &&& old(self)@.cancel_listing_error(caller, listing_id) == Some(e)
                    &&& final(self)@ == old(self)@
                },
            },
    {
        let listing = match self.get_listing(listing_id) {
            Some(l) => l,
            None => return Err(MarketError::UnknownListing),
        };
        if !listing.active {
            return Err(MarketError::ListingNotActive);
        }
        if caller != listing.seller {
            return Err(MarketError::NotSeller);
        }
        self.close_listing(listing_id);
        let mut transfers: Vec<Transfer> = Vec::new();
        transfers.push(
            Transfer::Asset {
                to: listing.seller,
                asset: AssetRef { token: listing.nft_token_id, nonce: listing.nft_nonce },
            },
        );
        proof {
            assert(transfers@ =~= seq![
                Transfer::Asset {
                    to: listing.seller,
                    asset: AssetRef { token: listing.nft_token_id, nonce: listing.nft_nonce },
                },
            ]);
        }
        Ok(Receipt { transfers, notification: Notification::ListingCancelled { listing_id } })
    }

    /// The listing with identifier `listing_id`, if there is one.
    pub fn get_listing(&self, listing_id: u32) -> (r: Option<Listing>)
        ensures
            r == if self@.has_listing(listing_id) {
                Some(self@.listing(listing_id))
            } else {
                None
            },
    {
        if listing_id >= 1 && (listing_id as usize) <= self.listings.len() {
            Some(self.listings[(listing_id - 1) as usize])
        } else {
            None
        }
    }

    /// The identifiers of `seller`'s listings, oldest first.
    pub fn get_seller_listings(&self, seller: Address) -> (r: Vec<u32>)
        requires
            self.wf(),
        ensures
            r@ == ids_where(listing_seller_flags(self@.listings, seller)),
    {
        let mut out: Vec<u32> = Vec::new();
        let mut i: usize = 0;
        while i < self.listings.len()
            invariant
                self.wf(),
                0 <= i <= self.listings@.len(),
                out@ == ids_where(listing_seller_flags(self@.listings.take(i as int), seller)),
            decreases self.listings@.len() - i,
        {
            proof {
                let s = self@.listings;
                lemma_ids_where_push(listing_seller_flags(s.take(i as int), seller), s[i as int].seller == seller);
                assert(listing_seller_flags(s.take(i + 1), seller) =~= listing_seller_flags(
                    s.take(i as int),
                    seller,
                ).push(s[i as int].seller == seller));
            }
            if self.listings[i].seller == seller {
                out.push((i + 1) as u32);
            }
            i += 1;
        }
        proof {
            assert(self@.listings.take(i as int) =~= self@.listings);
        }
        out
    }

    /// Accepts `token_id` for payment from now on; only the owner may.
    pub fn add_supported_token(&mut self, caller: Address, token_id: PaymentToken) -> (r: Result<
        Notification,
        MarketError,
    >)
        requires
            old(self).wf(),
        ensures
            final(self).wf(),
            old(self)@.may_become(final(self)@),
            caller == old(self)@.owner ==> {
                &&& r == Ok::<Notification, MarketError>(
                    Notification::TokenAdded { token: token_id },
                )
                &&& final(self)@ == old(self)@.with_supported_token(token_id)
            },
            caller != old(self)@.owner ==> {
                &&& r == Err::<Notification, MarketError>(MarketError::NotOwner)
                &&& final(self)@ == old(self)@
            },
    {
        if caller != self.owner {
            return Err(MarketError::NotOwner);
        }
        if !self.is_supported_payment_token(token_id) {
            self.supported_tokens.push(token_id);
            proof {
                let prev = old(self)@.supported_tokens;
                let j = choose|j: int| 0 <= j < prev.len() && prev[j] == PaymentToken::Native;
                assert(self@.supported_tokens[j] == PaymentToken::Native);
            }
        }
        Ok(Notification::TokenAdded { token: token_id })
    }

    /// Puts one asset into escrow and auctions it from `starting_price` in
    /// `payment_token` until `now + duration_seconds`; every bid must beat
    /// the current one by `min_bid_increment`. Returns the new auction's
    /// identifier.
    pub fn create_auction(
        &mut self,
        caller: Address,
        now: u64,
        deposit: AssetDeposit,
        wine_nft_id: u32,
        starting_price: u128,
        payment_token: PaymentToken,
        duration_seconds: u64,
        min_bid_increment: u128,
    ) -> (r: Result<(u32, Notification), MarketError>)
        requires
            old(self).wf(),
        ensures
            final(self).wf(),
            old(self)@.may_become(final(self)@),
            match r {
                Ok((id, note)) => {
                    let auction = Auction {
                        wine_nft_id,
                        nft_token_id: deposit.asset.token,
                        nft_nonce: deposit.asset.nonce,
                        seller: caller,
                        starting_price,
                        current_bid: starting_price,
                        highest_bidder: caller,
                        payment_token,
                        end_timestamp: (now + duration_seconds) as u64,
                        active: true,
                        min_bid_increment,
                        bid_count: 0,
                    };
                    &&& old(self)@.create_auction_error(
                        now,
                        deposit,
                        starting_price,
                        payment_token,
                        duration_seconds,
                        min_bid_increment,
                    ) == None::<MarketError>
                    &&& id == old(self)@.auctions.len() + 1
                    &&& final(self)@ == old(self)@.with_new_auction(auction)
                    &&& note == (Notification::AuctionCreated {
                        auction_id: id,
                        wine_nft_id,
                        seller: caller,
                        starting_price,
                    })
                },
                Err(e) => {
                    &&& old(self)@.create_auction_error(
                        now,
                        deposit,
                        starting_price,
                        payment_token,
                        duration_seconds,
                        min_bid_increment,
                    ) == Some(e)
                    &&& final(self)@ == old(self)@
                },
            },
    {
        if !self.is_supported_payment_token(payment_token) {
            return Err(MarketError::UnsupportedPaymentToken);
        }
        if starting_price == 0 {
            return Err(MarketError::ZeroPrice);
        }
        if duration_seconds < MIN_AUCTION_DURATION {
            return Err(MarketError::DurationTooShort);
        }
        if duration_seconds > MAX_AUCTION_DURATION {
            return Err(MarketError::DurationTooLong);
        }
        if min_bid_increment == 0 {
            return Err(MarketError::ZeroBidIncrement);
        }
        let end_timestamp = match now.checked_add(duration_seconds) {
            Some(t) => t,
            None => return Err(MarketError::TimestampOverflow),
        };
        if deposit.amount != 1 {
            return Err(MarketError::NotExactlyOneAsset);
        }
        if self.auctions.len() >= MAX_RECORDS {
            return Err(MarketError::IdSpaceExhausted);
        }
        let auction_id = (self.auctions.len() + 1) as u32;
        let auction = Auction {
            wine_nft_id,
            nft_token_id: deposit.asset.token,
            nft_nonce: deposit.asset.nonce,
            seller: caller,
            starting_price,
            current_bid: starting_price,
            highest_bidder: caller,
            payment_token,
            end_timestamp,
            active: true,
            min_bid_increment,
            bid_count: 0,
        };
        proof {
            let flags = auction_flags(self@.auctions);
            lemma_count_true_bounded(flags);
            lemma_count_true_push(flags, true);
            assert(auction_flags(self@.auctions.push(auction)) =~= flags.push(true));
        }
        self.auctions.push(auction);
        self.stats = MarketplaceStats {
            active_auctions: self.stats.active_auctions + 1,
            ..self.stats
        };
        Ok(
            (
                auction_id,
                Notification::AuctionCreated {
                    auction_id,
                    wine_nft_id,
                    seller: caller,
                    starting_price,
                },
            ),
        )
    }

    /// Bids `payment` on auction `auction_id` for `caller`. The bidder it
    /// displaces, if any, gets their bid back; a bid close to the end pushes
    /// the end back.
    pub fn place_bid(&mut self, caller: Address, now: u64, payment: Funds, auction_id: u32) -> (r:
        Result<Receipt, MarketError>)
        requires
            old(self).wf(),
        ensures
            final(self).wf(),
            old(self)@.may_become(final(self)@),
            old(self)@.has_auction(auction_id) && !bid_is_high_enough(
                old(self)@.auction(auction_id).current_bid as int,
                old(self)@.auction(auction_id).min_bid_increment as int,
                payment.amount as int,
            ) ==> r is Err,
            match r {
                Ok(receipt) => {
                    let a = old(self)@.auction(auction_id);
                    &&& old(self)@.place_bid_error(caller, now, payment, auction_id) == None::<
                        MarketError,
                    >
                    &&& final(self)@ == MarketView {
                        auctions: old(self)@.auctions.update(
                            auction_id - 1,
                            old(self)@.auction_after_bid(caller, now, payment.amount, auction_id),
                        ),
                        ..old(self)@
                    }
                    &&& receipt.transfers@ == match outbid_refund(a) {
                        Some(t) => seq![t],
                        None => Seq::<Transfer>::empty(),
                    }
                    &&& receipt.notification == (Notification::BidPlaced {
                        auction_id,
                        bidder: caller,
                        amount: payment.amount,
                    })
                },
                Err(e) => {
                    &&& old(self)@.place_bid_error(caller, now, payment, auction_id) == Some(e)
                    &&& final(self)@ == old(self)@
                },
            },
    {
        let auction = match self.get_auction(auction_id) {
            Some(a) => a,
            None => return Err(MarketError::UnknownAuction),
        };
        if !auction.active {
            return Err(MarketError::AuctionNotActive);
        }
        if now >= auction.end_timestamp {
            return Err(MarketError::AuctionEnded);
        }
        if payment.token != auction.payment_token {
            return Err(MarketError::InvalidPaymentToken);
        }
        if caller == auction.seller {
            return Err(MarketError::SelfBid);
        }
        if !meets_min_bid(auction.current_bid, auction.min_bid_increment, payment.amount) {
            return Err(MarketError::BidTooLow);
        }
        let bid_count = match auction.bid_count.checked_add(1) {
            Some(c) => c,
            None => return Err(MarketError::BidCountOverflow),
        };
        let end_timestamp = match extended_end(auction.end_timestamp, now) {
            Some(t) => t,
            None => return Err(MarketError::TimestampOverflow),
        };
        let mut transfers: Vec<Transfer> = Vec::new();
        match refund_for_outbid(&auction) {
            Some(t) => transfers.push(t),
            None => {},
        }
        let updated = Auction {
            current_bid: payment.amount,
            highest_bidder: caller,
            bid_count,
            end_timestamp,
            ..auction
        };
        let idx = (auction_id - 1) as usize;
        proof {
            assert(auction_flags(self@.auctions.update(idx as int, updated)) =~= auction_flags(
                self@.auctions,
            ));
            match outbid_refund(auction) {
                Some(t) => assert(transfers@ =~= seq![t]),
                None => assert(transfers@ =~= Seq::<Transfer>::empty()),
            }
        }
        self.auctions.set(idx, updated);
        Ok(
            Receipt {
                transfers,
                notification: Notification::BidPlaced {
                    auction_id,
                    bidder: caller,
                    amount: payment.amount,
                },
            },
        )
    }

    /// Closes auction `auction_id` once it has ended, at the request of its
    /// seller or its highest bidder: the asset goes to the winner and the
    /// winning bid, less the fee, to the seller; where nobody bid, the asset
    /// goes back to the seller.
    pub fn finalize_auction(&mut self, caller: Address, now: u64, auction_id: u32) -> (r: Result<
        Receipt,
        MarketError,
    >)
        requires
            old(self).wf(),
        ensures
            final(self).wf(),
            old(self)@.may_become(final(self)@),
            match r {
                Ok(receipt) => {
                    let a = old(self)@.auction(auction_id);
                    &&& old(self)@.finalize_auction_error(caller, now, auction_id) == None::<
                        MarketError,
                    >
                    &&& final(self)@ == old(self)@.with_auction_finalized(auction_id)
                    &&& receipt.transfers@ == old(self)@.finalize_transfers(auction_id)
                    &&& receipt.notification == if a.has_real_bid() {
                        Notification::AuctionFinalized {
                            auction_id,
                            winner: a.highest_bidder,
                            final_price: a.current_bid,
                        }
                    } else {
                        Notification::AuctionCancelled { auction_id }
                    }
                },
                Err(e) => {
                    &&& old(self)@.finalize_auction_error(caller, now, auction_id) == Some(e)
                    &&& final(self)@ == old(self)@
                },
            },
    {
        let auction = match self.get_auction(auction_id) {
            Some(a) => a,
            None => return Err(MarketError::UnknownAuction),
        };
        if !auction.active {
            return Err(MarketError::AuctionNotActive);
        }
        if now < auction.end_timestamp {
            return Err(MarketError::AuctionNotEnded);
        }
        if caller != auction.seller && caller != auction.highest_bidder {
            return Err(MarketError::NotAllowedToFinalize);
        }
        let sold = auction.bid_count > 0 && auction.highest_bidder != auction.seller;
        let asset = AssetRef { token: auction.nft_token_id, nonce: auction.nft_nonce };
        let ghost before = self@;
        if sold {
            let (fee, _net) = split_payment(auction.current_bid, self.fee_bps);
            let sold_stats = match self.stats.with_sale(auction.current_bid, fee) {
                Some(s) => s,
                None => return Err(MarketError::StatsOverflow),
            };
            let transfers = settle(
                auction.highest_bidder,
                auction.seller,
                asset,
                auction.payment_token,
                auction.current_bid,
                self.fee_bps,
                self.owner,
            );
            self.close_auction(auction_id);
            self.stats = MarketplaceStats { active_auctions: self.stats.active_auctions, ..sold_stats };
            proof {
                assert(self@.auctions =~= before.with_auction_finalized(auction_id).auctions);
            }
            Ok(
                Receipt {
                    transfers,
                    notification: Notification::AuctionFinalized {
                        auction_id,
                        winner: auction.highest_bidder,
                        final_price: auction.current_bid,
                    },
                },
            )
        } else {
            self.close_auction(auction_id);
            let mut transfers: Vec<Transfer> = Vec::new();
            transfers.push(Transfer::Asset { to: auction.seller, asset });
            proof {
                assert(transfers@ =~= seq![Transfer::Asset { to: auction.seller, asset }]);
            }
            Ok(Receipt { transfers, notification: Notification::AuctionCancelled { auction_id } })
        }
    }

    /// Closes auction `id` in the store and in the counters.
    fn close_auction(&mut self, id: u32)
        requires
            old(self).wf(),
            old(self)@.has_auction(id),
            old(self)@.auction(id).active,
        ensures
            final(self).wf(),
            final(self)@ == old(self)@.with_auction_closed(id),
    {
        let idx = (id - 1) as usize;
        let closed = Auction { active: false, ..self.auctions[idx] };
        proof {
            let flags = auction_flags(self@.auctions);
            lemma_count_true_clear(flags, idx as int);
            assert(auction_flags(self@.auctions.update(idx as int, closed)) =~= flags.update(
                idx as int,
                false,
            ));
        }
        self.auctions.set(idx, closed);
        self.stats = MarketplaceStats {
            active_auctions: self.stats.active_auctions - 1,
            ..self.stats
        };
    }

    /// The auction with identifier `auction_id`, if there is one.
    pub fn get_auction(&self, auction_id: u32) -> (r: Option<Auction>)
        ensures
            r == if self@.has_auction(auction_id) {
                Some(self@.auction(auction_id))
            } else {
                None
            },
    {
        if auction_id >= 1 && (auction_id as usize) <= self.auctions.len() {
            Some(self.auctions[(auction_id - 1) as usize])
        } else {
            None
        }
    }

    /// The identifiers of `seller`'s auctions, oldest first.
    pub fn get_seller_auctions(&self, seller: Address) -> (r: Vec<u32>)
        requires
            self.wf(),
        ensures
            r@ == ids_where(auction_seller_flags(self@.auctions, seller)),
    {
        let mut out: Vec<u32> = Vec::new();
        let mut i: usize = 0;
        while i < self.auctions.len()
            invariant
                self.wf(),
                0 <= i <= self.auctions@.len(),
                out@ == ids_where(auction_seller_flags(self@.auctions.take(i as int), seller)),
            decreases self.auctions@.len() - i,
        {
            proof {
                let s = self@.auctions;
                lemma_ids_where_push(auction_seller_flags(s.take(i as int), seller), s[i as int].seller == seller);
                assert(auction_seller_flags(s.take(i + 1), seller) =~= auction_seller_flags(
                    s.take(i as int),
                    seller,
                ).push(s[i as int].seller == seller));
            }
            if self.auctions[i].seller == seller {
                out.push((i + 1) as u32);
            }
            i += 1;
        }
        proof {
            assert(self@.auctions.take(i as int) =~= self@.auctions);
        }
        out
    }

    /// The marketplace-wide counters.
    pub fn get_marketplace_stats(&self) -> (r: MarketplaceStats)
        ensures
            r == self@.stats,
    {
        self.stats
    }

    /// The fee rate, in basis points.
    pub fn get_marketplace_fee_percent(&self) -> (r: u64)
        ensures
            r == self@.fee_bps,
    {
        self.fee_bps
    }
}

} // verus!
