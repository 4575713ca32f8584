use wine_marketplace::auction::{extended_end, meets_min_bid, refund_for_outbid, Auction};
use wine_marketplace::fee::{marketplace_fee, split_payment, validate_fee_rate};
use wine_marketplace::marketplace::WineMarketplace;
use wine_marketplace::types::{
    Address, AssetDeposit, AssetRef, Funds, MarketError, Notification, PaymentToken, TokenId,
    Transfer,
};

const OWNER: Address = Address { id: 1 };
const SELLER: Address = Address { id: 2 };
const BUYER: Address = Address { id: 3 };
const BIDDER2: Address = Address { id: 4 };
const NFT: TokenId = TokenId { id: 77 };
const USDC: TokenId = TokenId { id: 500 };
const T0: u64 = 1_000_000;

fn deposit(nonce: u64) -> AssetDeposit {
    AssetDeposit { asset: AssetRef { token: NFT, nonce }, amount: 1 }
}

fn native(amount: u128) -> Funds {
    Funds { token: PaymentToken::Native, amount }
}

fn market(fee_bps: u64) -> WineMarketplace {
    WineMarketplace::new(fee_bps, OWNER).unwrap()
}

fn listed(fee_bps: u64, price: u128) -> (WineMarketplace, u32) {
    let mut m = market(fee_bps);
    let (id, _) = m
        .create_listing(SELLER, T0, deposit(1), 9, price, PaymentToken::Native, 3600)
        .unwrap();
    (m, id)
}

fn auctioned(start: u128, inc: u128) -> (WineMarketplace, u32) {
    let mut m = market(250);
    let (id, _) = m
        .create_auction(SELLER, T0, deposit(5), 9, start, PaymentToken::Native, 3600, inc)
        .unwrap();
    (m, id)
}

#[test]
fn scenario_a_fixed_price_sale() {
    let (mut m, id) = listed(250, 100);
    assert_eq!(id, 1);
    let before = m.get_marketplace_stats();
    assert_eq!(before.active_listings, 1);
    let receipt = m.buy_wine(BUYER, T0 + 10, native(100), id).unwrap();
    // 100 * 250 / 10000 = 2.5, rounded down to a fee of 2; the seller nets 98.
    assert_eq!(
        receipt.transfers,
        vec![
            Transfer::Asset { to: BUYER, asset: AssetRef { token: NFT, nonce: 1 } },
            Transfer::Funds { to: SELLER, token: PaymentToken::Native, amount: 98 },
            Transfer::Funds { to: OWNER, token: PaymentToken::Native, amount: 2 },
        ]
    );
    assert_eq!(
        receipt.notification,
        Notification::WineSold { listing_id: 1, wine_nft_id: 9, seller: SELLER, buyer: BUYER, price: 100 }
    );
    assert!(!m.get_listing(id).unwrap().active);
    let after = m.get_marketplace_stats();
    assert_eq!(after.active_listings, 0);
    assert_eq!(after.total_sales, before.total_sales + 1);
    assert_eq!(after.total_volume, 100);
    assert_eq!(after.total_fees_collected, 2);
    assert_eq!(after.total_listings, 1);
}

#[test]
fn scenario_b_outbid_refund() {
    let (mut m, id) = auctioned(50, 5);
    let r1 = m.place_bid(BUYER, T0 + 10, native(55), id).unwrap();
    assert!(r1.transfers.is_empty());
    let r2 = m.place_bid(BIDDER2, T0 + 20, native(61), id).unwrap();
    assert_eq!(
        r2.transfers,
        vec![Transfer::Funds { to: BUYER, token: PaymentToken::Native, amount: 55 }]
    );
    let a = m.get_auction(id).unwrap();
    assert_eq!(a.current_bid, 61);
    assert_eq!(a.bid_count, 2);
    assert_eq!(a.highest_bidder, BIDDER2);
}

#[test]
fn scenario_c_unsold_auction_returns_asset() {
    let (mut m, id) = auctioned(50, 5);
    let end = m.get_auction(id).unwrap().end_timestamp;
    let before = m.get_marketplace_stats();
    let receipt = m.finalize_auction(SELLER, end, id).unwrap();
    assert_eq!(
        receipt.transfers,
        vec![Transfer::Asset { to: SELLER, asset: AssetRef { token: NFT, nonce: 5 } }]
    );
    assert_eq!(receipt.notification, Notification::AuctionCancelled { auction_id: id });
    let after = m.get_marketplace_stats();
    assert_eq!(after.total_sales, before.total_sales);
    assert_eq!(after.total_volume, before.total_volume);
    assert_eq!(after.total_fees_collected, before.total_fees_collected);
    assert_eq!(after.active_auctions, 0);
    assert!(!m.get_auction(id).unwrap().active);
}

#[test]
fn scenario_d_listing_too_short() {
    let mut m = market(250);
    let r = m.create_listing(SELLER, T0, deposit(1), 9, 100, PaymentToken::Native, 1800);
    assert_eq!(r, Err(MarketError::DurationTooShort));
    assert_eq!(m.get_marketplace_stats().total_listings, 0);
    assert!(m.get_listing(1).is_none());
}

#[test]
fn scenario_e_buy_inactive_listing() {
    let (mut m, id) = listed(250, 100);
    m.cancel_listing(SELLER, id).unwrap();
    let stats = m.get_marketplace_stats();
    let r = m.buy_wine(BUYER, T0 + 10, native(100), id);
    assert_eq!(r, Err(MarketError::ListingNotActive));
    assert_eq!(m.get_marketplace_stats(), stats);
}

#[test]
fn scenario_f_fee_above_cap() {
    assert!(matches!(WineMarketplace::new(1500, OWNER), Err(MarketError::FeeTooHigh)));
    assert_eq!(validate_fee_rate(1500), Err(MarketError::FeeTooHigh));
    assert_eq!(validate_fee_rate(1000), Ok(1000));
    assert_eq!(market(1000).get_marketplace_fee_percent(), 1000);
}

#[test]
fn fee_rounds_down() {
    assert_eq!(marketplace_fee(100, 250), 2);
    assert_eq!(marketplace_fee(10_000, 250), 250);
    assert_eq!(marketplace_fee(39, 250), 0);
    assert_eq!(marketplace_fee(40, 250), 1);
    assert_eq!(marketplace_fee(12_345, 0), 0);
}

#[test]
fn fee_on_largest_amount() {
    let p = u128::MAX;
    let expected = p / 10_000 * 1000 + (p % 10_000) * 1000 / 10_000;
    assert_eq!(marketplace_fee(p, 1000), expected);
    let (fee, net) = split_payment(p, 1000);
    assert_eq!(fee, expected);
    assert_eq!(fee + net, p);
}

#[test]
fn split_adds_up() {
    for price in [1u128, 99, 100, 101, 9_999, 123_456_789] {
        for bps in [0u64, 1, 250, 999, 1000] {
            let (fee, net) = split_payment(price, bps);
            assert_eq!(fee + net, price);
            assert_eq!(fee, price * bps as u128 / 10_000);
        }
    }
}

#[test]
fn zero_fee_skips_fee_transfer() {
    let (mut m, id) = listed(0, 100);
    let receipt = m.buy_wine(BUYER, T0, native(100), id).unwrap();
    assert_eq!(
        receipt.transfers,
        vec![
            Transfer::Asset { to: BUYER, asset: AssetRef { token: NFT, nonce: 1 } },
            Transfer::Funds { to: SELLER, token: PaymentToken::Native, amount: 100 },
        ]
    );
}

#[test]
fn surplus_is_returned() {
    let (mut m, id) = listed(250, 100);
    let receipt = m.buy_wine(BUYER, T0, native(130), id).unwrap();
    assert_eq!(
        receipt.transfers.last(),
        Some(&Transfer::Funds { to: BUYER, token: PaymentToken::Native, amount: 30 })
    );
    assert_eq!(receipt.transfers.len(), 4);
}

#[test]
fn buy_rejections() {
    let (mut m, id) = listed(250, 100);
    assert_eq!(m.buy_wine(BUYER, T0, native(100), 2), Err(MarketError::UnknownListing));
    assert_eq!(m.buy_wine(BUYER, T0, native(100), 0), Err(MarketError::UnknownListing));
    assert_eq!(m.buy_wine(BUYER, T0 + 3601, native(100), id), Err(MarketError::ListingExpired));
    let usdc = Funds { token: PaymentToken::Fungible(USDC), amount: 100 };
    assert_eq!(m.buy_wine(BUYER, T0, usdc, id), Err(MarketError::InvalidPaymentToken));
    assert_eq!(m.buy_wine(BUYER, T0, native(99), id), Err(MarketError::InsufficientPayment));
    assert_eq!(m.buy_wine(SELLER, T0, native(100), id), Err(MarketError::SelfPurchase));
    assert!(m.get_listing(id).unwrap().active);
    // the deadline itself is still within the window
    assert!(m.buy_wine(BUYER, T0 + 3600, native(100), id).is_ok());
}

#[test]
fn listing_closes_once() {
    let (mut m, id) = listed(250, 100);
    m.buy_wine(BUYER, T0, native(100), id).unwrap();
    let closed = m.get_listing(id).unwrap();
    assert_eq!(m.cancel_listing(SELLER, id).unwrap_err(), MarketError::ListingNotActive);
    assert_eq!(m.buy_wine(BIDDER2, T0, native(100), id).unwrap_err(), MarketError::ListingNotActive);
    assert_eq!(m.get_listing(id).unwrap(), closed);
    assert_eq!(m.get_marketplace_stats().active_listings, 0);
}

#[test]
fn create_listing_rejections() {
    let mut m = market(250);
    let usdc = PaymentToken::Fungible(USDC);
    assert_eq!(
        m.create_listing(SELLER, T0, deposit(1), 9, 100, usdc, 3600),
        Err(MarketError::UnsupportedPaymentToken)
    );
    assert_eq!(
        m.create_listing(SELLER, T0, deposit(1), 9, 0, PaymentToken::Native, 3600),
        Err(MarketError::ZeroPrice)
    );
    assert_eq!(
        m.create_listing(SELLER, T0, deposit(1), 9, 100, PaymentToken::Native, 2_592_001),
        Err(MarketError::DurationTooLong)
    );
    assert_eq!(
        m.create_listing(SELLER, u64::MAX - 10, deposit(1), 9, 100, PaymentToken::Native, 3600),
        Err(MarketError::TimestampOverflow)
    );
    let two = AssetDeposit { asset: AssetRef { token: NFT, nonce: 1 }, amount: 2 };
    assert_eq!(
        m.create_listing(SELLER, T0, two, 9, 100, PaymentToken::Native, 3600),
        Err(MarketError::NotExactlyOneAsset)
    );
    assert!(m.create_listing(SELLER, T0, deposit(1), 9, 100, PaymentToken::Native, 2_592_000).is_ok());
}

#[test]
fn listing_ids_count_up_per_seller() {
    let mut m = market(250);
    let a = m.create_listing(SELLER, T0, deposit(1), 9, 100, PaymentToken::Native, 3600).unwrap();
    let b = m.create_listing(BUYER, T0, deposit(2), 9, 100, PaymentToken::Native, 3600).unwrap();
    let c = m.create_listing(SELLER, T0, deposit(3), 9, 100, PaymentToken::Native, 3600).unwrap();
    assert_eq!((a.0, b.0, c.0), (1, 2, 3));
    assert_eq!(
        a.1,
        Notification::WineListed {
            listing_id: 1,
            wine_nft_id: 9,
            seller: SELLER,
            price: 100,
            payment_token: PaymentToken::Native,
        }
    );
    assert_eq!(m.get_seller_listings(SELLER), vec![1, 3]);
    assert_eq!(m.get_seller_listings(BUYER), vec![2]);
    assert_eq!(m.get_seller_listings(OWNER), Vec::<u32>::new());
    let l = m.get_listing(3).unwrap();
    assert_eq!(l.deadline, T0 + 3600);
    assert_eq!(l.created_timestamp, T0);
    let s = m.get_marketplace_stats();
    assert_eq!((s.total_listings, s.active_listings), (3, 3));
}

#[test]
fn cancel_listing_returns_asset() {
    let (mut m, id) = listed(250, 100);
    assert_eq!(m.cancel_listing(BUYER, id).unwrap_err(), MarketError::NotSeller);
    let receipt = m.cancel_listing(SELLER, id).unwrap();
    assert_eq!(
        receipt.transfers,
        vec![Transfer::Asset { to: SELLER, asset: AssetRef { token: NFT, nonce: 1 } }]
    );
    assert_eq!(receipt.notification, Notification::ListingCancelled { listing_id: id });
    assert_eq!(m.get_marketplace_stats().active_listings, 0);
}

#[test]
fn supported_tokens() {
    let mut m = market(250);
    let usdc = PaymentToken::Fungible(USDC);
    assert!(m.is_supported_payment_token(PaymentToken::Native));
    assert!(!m.is_supported_payment_token(usdc));
    assert_eq!(m.add_supported_token(SELLER, usdc), Err(MarketError::NotOwner));
    assert!(!m.is_supported_payment_token(usdc));
    assert_eq!(m.add_supported_token(OWNER, usdc), Ok(Notification::TokenAdded { token: usdc }));
    assert!(m.is_supported_payment_token(usdc));
    assert!(m.add_supported_token(OWNER, usdc).is_ok());
    let (id, _) = m.create_listing(SELLER, T0, deposit(1), 9, 1000, usdc, 3600).unwrap();
    let receipt = m.buy_wine(BUYER, T0, Funds { token: usdc, amount: 1000 }, id).unwrap();
    assert_eq!(receipt.transfers[1], Transfer::Funds { to: SELLER, token: usdc, amount: 975 });
    assert_eq!(receipt.transfers[2], Transfer::Funds { to: OWNER, token: usdc, amount: 25 });
}

#[test]
fn create_auction_rejections() {
    let mut m = market(250);
    let n = PaymentToken::Native;
    assert_eq!(m.create_auction(SELLER, T0, deposit(1), 9, 0, n, 3600, 5), Err(MarketError::ZeroPrice));
    assert_eq!(
        m.create_auction(SELLER, T0, deposit(1), 9, 50, n, 3599, 5),
        Err(MarketError::DurationTooShort)
    );
    assert_eq!(
        m.create_auction(SELLER, T0, deposit(1), 9, 50, n, 604_801, 5),
        Err(MarketError::DurationTooLong)
    );
    assert_eq!(
        m.create_auction(SELLER, T0, deposit(1), 9, 50, n, 3600, 0),
        Err(MarketError::ZeroBidIncrement)
    );
    assert_eq!(
        m.create_auction(SELLER, T0, deposit(1), 9, 50, PaymentToken::Fungible(USDC), 3600, 5),
        Err(MarketError::UnsupportedPaymentToken)
    );
    let none = AssetDeposit { asset: AssetRef { token: NFT, nonce: 1 }, amount: 0 };
    assert_eq!(
        m.create_auction(SELLER, T0, none, 9, 50, n, 3600, 5),
        Err(MarketError::NotExactlyOneAsset)
    );
    assert_eq!(m.get_marketplace_stats().active_auctions, 0);
    let (id, note) = m.create_auction(SELLER, T0, deposit(1), 9, 50, n, 604_800, 5).unwrap();
    assert_eq!(id, 1);
    assert_eq!(
        note,
        Notification::AuctionCreated { auction_id: 1, wine_nft_id: 9, seller: SELLER, starting_price: 50 }
    );
    let a = m.get_auction(id).unwrap();
    assert_eq!((a.current_bid, a.highest_bidder, a.bid_count), (50, SELLER, 0));
    assert_eq!(a.end_timestamp, T0 + 604_800);
    assert_eq!(m.get_seller_auctions(SELLER), vec![1]);
    assert_eq!(m.get_marketplace_stats().active_auctions, 1);
}

#[test]
fn bid_below_increment_rejected() {
    let (mut m, id) = auctioned(50, 5);
    assert_eq!(m.place_bid(BUYER, T0, native(54), id).unwrap_err(), MarketError::BidTooLow);
    m.place_bid(BUYER, T0, native(55), id).unwrap();
    assert_eq!(m.place_bid(BIDDER2, T0, native(59), id).unwrap_err(), MarketError::BidTooLow);
    assert_eq!(m.get_auction(id).unwrap().current_bid, 55);
}

#[test]
fn bid_rejections() {
    let (mut m, id) = auctioned(50, 5);
    assert_eq!(m.place_bid(BUYER, T0, native(60), 9).unwrap_err(), MarketError::UnknownAuction);
    assert_eq!(m.place_bid(SELLER, T0, native(60), id).unwrap_err(), MarketError::SelfBid);
    let usdc = Funds { token: PaymentToken::Fungible(USDC), amount: 60 };
    assert_eq!(m.place_bid(BUYER, T0, usdc, id).unwrap_err(), MarketError::InvalidPaymentToken);
    assert_eq!(m.place_bid(BUYER, T0 + 3600, native(60), id).unwrap_err(), MarketError::AuctionEnded);
    m.finalize_auction(SELLER, T0 + 3600, id).unwrap();
    assert_eq!(m.place_bid(BUYER, T0, native(60), id).unwrap_err(), MarketError::AuctionNotActive);
}

#[test]
fn late_bid_extends_end() {
    let (mut m, id) = auctioned(50, 5);
    let end = T0 + 3600;
    m.place_bid(BUYER, end - 600, native(55), id).unwrap();
    assert_eq!(m.get_auction(id).unwrap().end_timestamp, end);
    m.place_bid(BIDDER2, end - 599, native(60), id).unwrap();
    assert_eq!(m.get_auction(id).unwrap().end_timestamp, end + 600);
    m.place_bid(BUYER, end + 599, native(65), id).unwrap();
    assert_eq!(m.get_auction(id).unwrap().end_timestamp, end + 1200);
}

#[test]
fn bid_rules_directly() {
    assert!(meets_min_bid(50, 5, 55));
    assert!(!meets_min_bid(50, 5, 54));
    assert!(!meets_min_bid(u128::MAX, 1, u128::MAX));
    assert_eq!(extended_end(1000, 401), Some(1600));
    assert_eq!(extended_end(1000, 400), Some(1000));
    assert_eq!(extended_end(u64::MAX, u64::MAX - 1), None);
}

#[test]
fn refund_only_for_real_bidder() {
    let mut a = Auction {
        wine_nft_id: 1,
        nft_token_id: NFT,
        nft_nonce: 1,
        seller: SELLER,
        starting_price: 50,
        current_bid: 50,
        highest_bidder: SELLER,
        payment_token: PaymentToken::Native,
        end_timestamp: T0,
        active: true,
        min_bid_increment: 5,
        bid_count: 0,
    };
    assert_eq!(refund_for_outbid(&a), None);
    a.current_bid = 70;
    a.highest_bidder = BUYER;
    a.bid_count = 1;
    assert_eq!(
        refund_for_outbid(&a),
        Some(Transfer::Funds { to: BUYER, token: PaymentToken::Native, amount: 70 })
    );
}

#[test]
fn finalize_sold_auction() {
    let (mut m, id) = auctioned(50, 5);
    m.place_bid(BUYER, T0, native(1000), id).unwrap();
    assert_eq!(m.finalize_auction(SELLER, T0 + 3599, id).unwrap_err(), MarketError::AuctionNotEnded);
    assert_eq!(
        m.finalize_auction(BIDDER2, T0 + 3600, id).unwrap_err(),
        MarketError::NotAllowedToFinalize
    );
    let receipt = m.finalize_auction(BUYER, T0 + 3600, id).unwrap();
    assert_eq!(
        receipt.transfers,
        vec![
            Transfer::Asset { to: BUYER, asset: AssetRef { token: NFT, nonce: 5 } },
            Transfer::Funds { to: SELLER, token: PaymentToken::Native, amount: 975 },
            Transfer::Funds { to: OWNER, token: PaymentToken::Native, amount: 25 },
        ]
    );
    assert_eq!(
        receipt.notification,
        Notification::AuctionFinalized { auction_id: id, winner: BUYER, final_price: 1000 }
    );
    let s = m.get_marketplace_stats();
    assert_eq!((s.total_sales, s.total_volume, s.total_fees_collected, s.active_auctions), (1, 1000, 25, 0));
    assert_eq!(m.finalize_auction(SELLER, T0 + 3600, id).unwrap_err(), MarketError::AuctionNotActive);
}

#[test]
fn bids_never_lower_current_bid_or_end() {
    let (mut m, id) = auctioned(50, 5);
    let mut last = m.get_auction(id).unwrap();
    let bids = [(BUYER, 55u128, T0), (BIDDER2, 54, T0 + 1), (BIDDER2, 70, T0 + 3300), (BUYER, 71, T0 + 3400)];
    for (who, amount, now) in bids {
        let _ = m.place_bid(who, now, native(amount), id);
        let a = m.get_auction(id).unwrap();
        assert!(a.current_bid >= last.current_bid);
        assert!(a.end_timestamp >= last.end_timestamp);
        last = a;
    }
    assert_eq!(last.current_bid, 70);
    assert_eq!(last.end_timestamp, T0 + 4200);
}

#[test]
fn unknown_ids() {
    let mut m = market(250);
    assert_eq!(m.cancel_listing(SELLER, 1).unwrap_err(), MarketError::UnknownListing);
    assert_eq!(m.finalize_auction(SELLER, T0, 1).unwrap_err(), MarketError::UnknownAuction);
    assert!(m.get_auction(1).is_none());
    assert_eq!(m.get_seller_auctions(SELLER), Vec::<u32>::new());
}

#[test]
fn sale_volume_overflow_rejected() {
    let mut m = market(0);
    let (a, _) = m
        .create_listing(SELLER, T0, deposit(1), 9, u128::MAX, PaymentToken::Native, 3600)
        .unwrap();
    let (b, _) = m.create_listing(SELLER, T0, deposit(2), 9, 1, PaymentToken::Native, 3600).unwrap();
    m.buy_wine(BUYER, T0, native(u128::MAX), a).unwrap();
    assert_eq!(m.buy_wine(BUYER, T0, native(1), b).unwrap_err(), MarketError::StatsOverflow);
    assert!(m.get_listing(b).unwrap().active);
}
