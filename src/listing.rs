use vstd::prelude::*;
use crate::types::{Address, PaymentToken, TokenId};

verus! {

/// A fixed-price sale of one escrowed asset.
#[derive(Clone, Copy, Debug, PartialEq, Eq, Structural)]
pub struct Listing {
    pub wine_nft_id: u32,
    pub nft_token_id: TokenId,
    pub nft_nonce: u64,
    pub seller: Address,
    pub price: u128,
    pub payment_token: PaymentToken,
    pub deadline: u64,
    pub active: bool,
    pub created_timestamp: u64,
}

impl Listing {
    /// The record's own invariant: a positive price and a deadline after creation.
    pub open spec fn wf(self) -> bool {
        self.price > 0 && self.deadline > self.created_timestamp
    }

    /// `next` is what a listing may become: the same listing, or the same
    /// listing closed once while it was open.
    pub open spec fn may_become(self, next: Listing) -> bool {
        next == self || (self.active && next == Listing { active: false, ..self })
    }
}

/// Shortest listing window, in seconds: one hour.
pub const MIN_LISTING_DURATION: u64 = 3600;

/// Longest listing window, in seconds: thirty days.
pub const MAX_LISTING_DURATION: u64 = 2592000;

/// Each listing in a table may become the one at its index in `next`, and
/// `next` may hold new listings after them.
pub open spec fn listings_may_become(prev: Seq<Listing>, next: Seq<Listing>) -> bool {
    &&& prev.len() <= next.len()
    &&& forall|i: int| 0 <= i < prev.len() ==> (#[trigger] prev[i]).may_become(next[i])
}

/// Once closed, a listing stays closed and unchanged, however many
/// operations follow.
pub proof fn lemma_listing_closure_is_permanent(a: Seq<Listing>, b: Seq<Listing>, c: Seq<Listing>)
    requires
        listings_may_become(a, b),
        listings_may_become(b, c),
    ensures
        listings_may_become(a, c),
        forall|i: int| 0 <= i < a.len() && !a[i].active ==> #[trigger] c[i] == a[i],
{
    assert forall|i: int| 0 <= i < a.len() implies (#[trigger] a[i]).may_become(c[i]) by {
        assert(b[i].may_become(c[i]));
    }
}

} // verus!
