use vstd::prelude::*;

verus! {

/// An account, as the ledger's identity service resolves it.
#[derive(Clone, Copy, Debug, PartialEq, Eq, Structural)]
pub struct Address {
    pub id: u64,
}

/// A token collection or fungible token, as the ledger's token registry names it.
#[derive(Clone, Copy, Debug, PartialEq, Eq, Structural)]
pub struct TokenId {
    pub id: u64,
}

/// What a price is paid in: the native currency or one designated fungible token.
#[derive(Clone, Copy, Debug, PartialEq, Eq, Structural)]
pub enum PaymentToken {
    Native,
    Fungible(TokenId),
}

/// One unique asset: its collection and its serial number within it.
#[derive(Clone, Copy, Debug, PartialEq, Eq, Structural)]
pub struct AssetRef {
    pub token: TokenId,
    pub nonce: u64,
}

/// Units of an asset attached to a call that puts it into escrow.
#[derive(Clone, Copy, Debug, PartialEq, Eq, Structural)]
pub struct AssetDeposit {
    pub asset: AssetRef,
    pub amount: u128,
}

/// Currency attached to a call.
#[derive(Clone, Copy, Debug, PartialEq, Eq, Structural)]
pub struct Funds {
    pub token: PaymentToken,
    pub amount: u128,
}

/// A movement out of escrow that the ledger must carry out.
#[derive(Clone, Copy, Debug, PartialEq, Eq, Structural)]
pub enum Transfer {
    /// Release one unit of an escrowed asset.
    Asset { to: Address, asset: AssetRef },
    /// Pay an amount of currency.
    Funds { to: Address, token: PaymentToken, amount: u128 },
}

/// The notification emitted by a successful operation.
#[derive(Clone, Copy, Debug, PartialEq, Eq, Structural)]
pub enum Notification {
    TokenAdded { token: PaymentToken },
    WineListed {
        listing_id: u32,
        wine_nft_id: u32,
        seller: Address,
        price: u128,
        payment_token: PaymentToken,
    },
    WineSold { listing_id: u32, wine_nft_id: u32, seller: Address, buyer: Address, price: u128 },
    ListingCancelled { listing_id: u32 },
    AuctionCreated { auction_id: u32, wine_nft_id: u32, seller: Address, starting_price: u128 },
    BidPlaced { auction_id: u32, bidder: Address, amount: u128 },
    AuctionFinalized { auction_id: u32, winner: Address, final_price: u128 },
    AuctionCancelled { auction_id: u32 },
}

/// What a successful operation hands back: transfers in the order they are
/// to be made, and its notification.
#[derive(Debug, PartialEq, Eq)]
pub struct Receipt {
    pub transfers: Vec<Transfer>,
    pub notification: Notification,
}

/// Why an operation was rejected. A rejected operation changes nothing.
#[derive(Clone, Copy, Debug, PartialEq, Eq, Structural)]
pub enum MarketError {
    // validation
    FeeTooHigh,
    UnsupportedPaymentToken,
    ZeroPrice,
    DurationTooShort,
    DurationTooLong,
    ZeroBidIncrement,
    NotExactlyOneAsset,
    // state
    UnknownListing,
    UnknownAuction,
    ListingNotActive,
    ListingExpired,
    AuctionNotActive,
    AuctionEnded,
    AuctionNotEnded,
    // authorization
    NotOwner,
    NotSeller,
    SelfPurchase,
    SelfBid,
    NotAllowedToFinalize,
    // payment
    InvalidPaymentToken,
    InsufficientPayment,
    BidTooLow,
    // capacity of the fixed-width identifiers, counters and timestamps
    IdSpaceExhausted,
    BidCountOverflow,
    StatsOverflow,
    TimestampOverflow,
}

} // verus!
