use vstd::prelude::*;
use crate::types::{Address, PaymentToken, TokenId, Transfer};

verus! {

/// An ascending auction of one escrowed asset.
///
/// Until the first bid, `highest_bidder` is the seller and `current_bid` the
/// starting price.
#[derive(Clone, Copy, Debug, PartialEq, Eq, Structural)]
pub struct Auction {
    pub wine_nft_id: u32,
    pub nft_token_id: TokenId,
    pub nft_nonce: u64,
    pub seller: Address,
    pub starting_price: u128,
    pub current_bid: u128,
    pub highest_bidder: Address,
    pub payment_token: PaymentToken,
    pub end_timestamp: u64,
    pub active: bool,
    pub min_bid_increment: u128,
    pub bid_count: u32,
}

/// Shortest auction window, in seconds: one hour.
pub const MIN_AUCTION_DURATION: u64 = 3600;

/// Longest auction window, in seconds: seven days.
pub const MAX_AUCTION_DURATION: u64 = 604800;

/// A bid that lands this close to the end, in seconds, extends the auction.
pub const SNIPING_WINDOW: u64 = 600;

/// How far, in seconds, a late bid pushes the end back.
pub const SNIPING_EXTENSION: u64 = 600;

impl Auction {
    /// The record's own invariant.
    pub open spec fn wf(self) -> bool {
        &&& self.starting_price > 0
        &&& self.min_bid_increment > 0
        &&& self.current_bid >= self.starting_price
        &&& self.bid_count > 0 ==> self.highest_bidder != self.seller
    }

    /// Whether someone other than the seller has bid.
    pub open spec fn has_real_bid(self) -> bool {
        self.bid_count > 0 && self.highest_bidder != self.seller
    }

    /// `next` is what an auction may become: bids and its end only go up,
    /// what it sells and on which terms stays, and once closed it stays as it is.
    pub open spec fn may_become(self, next: Auction) -> bool {
        &&& self.current_bid <= next.current_bid
        &&& self.end_timestamp <= next.end_timestamp
        &&& self.bid_count <= next.bid_count
        &&& next.wine_nft_id == self.wine_nft_id
        &&& next.nft_token_id == self.nft_token_id
        &&& next.nft_nonce == self.nft_nonce
        &&& next.seller == self.seller
        &&& next.starting_price == self.starting_price
        &&& next.payment_token == self.payment_token
        &&& next.min_bid_increment == self.min_bid_increment
        &&& next.active ==> self.active
        &&& !self.active ==> next == self
    }
}

/// Whether a bid of `amount` beats `current_bid` by at least `min_bid_increment`.
pub open spec fn bid_is_high_enough(current_bid: int, min_bid_increment: int, amount: int) -> bool {
    amount >= current_bid + min_bid_increment
}

/// The end of an auction after a bid at `now`: pushed back when the bid lands
/// within the sniping window, else unchanged.
pub open spec fn end_after_bid(end_timestamp: int, now: int) -> int {
    if end_timestamp - now < SNIPING_WINDOW as int {
        end_timestamp + SNIPING_EXTENSION as int
    } else {
        end_timestamp
    }
}

/// The refund owed to the bidder that a new bid displaces: the exact amount
/// they bid, to them, in the auction's currency; none while only the seller
/// stands as highest bidder.
pub open spec fn outbid_refund(a: Auction) -> Option<Transfer> {
    if a.has_real_bid() {
        Some(Transfer::Funds { to: a.highest_bidder, token: a.payment_token, amount: a.current_bid })
    } else {
        None
    }
}

/// Tells whether a bid of `amount` is high enough, without overflow.
pub fn meets_min_bid(current_bid: u128, min_bid_increment: u128, amount: u128) -> (r: bool)
    ensures
        r == bid_is_high_enough(current_bid as int, min_bid_increment as int, amount as int),
{
    match current_bid.checked_add(min_bid_increment) {
        Some(min_bid) => amount >= min_bid,
        None => false,
    }
}

/// The end of an auction after a bid at `now`, or `None` where it would not
/// fit in a timestamp.
pub fn extended_end(end_timestamp: u64, now: u64) -> (r: Option<u64>)
    requires
        now < end_timestamp,
    ensures
        end_after_bid(end_timestamp as int, now as int) <= u64::MAX ==> r == Some(
            end_after_bid(end_timestamp as int, now as int) as u64,
        ),
        end_after_bid(end_timestamp as int, now as int) > u64::MAX ==> r.is_none(),
{
    let time_left: u64 = end_timestamp - now;
    if time_left < SNIPING_WINDOW {
        end_timestamp.checked_add(SNIPING_EXTENSION)
    } else {
        Some(end_timestamp)
    }
}

/// The refund that a new bid on `a` makes due.
pub fn refund_for_outbid(a: &Auction) -> (r: Option<Transfer>)
    ensures
        r == outbid_refund(*a),
{
    if a.bid_count > 0 && a.highest_bidder != a.seller {
        Some(Transfer::Funds { to: a.highest_bidder, token: a.payment_token, amount: a.current_bid })
    } else {
        None
    }
}

/// Each auction in a table may become the one at its index in `next`, and
/// `next` may hold new auctions after them.
pub open spec fn auctions_may_become(prev: Seq<Auction>, next: Seq<Auction>) -> bool {
    &&& prev.len() <= next.len()
    &&& forall|i: int| 0 <= i < prev.len() ==> (#[trigger] prev[i]).may_become(next[i])
}

/// Over any run of operations, an auction's current bid and end never go
/// down, and a closed auction stays as it is.
pub proof fn lemma_auction_monotonic(a: Seq<Auction>, b: Seq<Auction>, c: Seq<Auction>)
    requires
        auctions_may_become(a, b),
        auctions_may_become(b, c),
    ensures
        auctions_may_become(a, c),
        forall|i: int|
            0 <= i < a.len() ==> a[i].current_bid <= #[trigger] c[i].current_bid
                && a[i].end_timestamp <= c[i].end_timestamp,
{
    assert forall|i: int| 0 <= i < a.len() implies (#[trigger] a[i]).may_become(c[i]) by {
        assert(b[i].may_become(c[i]));
    }
}

} // verus!
