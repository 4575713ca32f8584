use vstd::prelude::*;

verus! {

/// Running marketplace-wide counters.
#[derive(Clone, Copy, Debug, PartialEq, Eq, Structural)]
pub struct MarketplaceStats {
    pub total_listings: u32,
    pub total_sales: u32,
    pub total_volume: u128,
    pub total_fees_collected: u128,
    pub active_listings: u32,
    pub active_auctions: u32,
}

impl MarketplaceStats {
    /// All counters at zero.
    pub open spec fn zero() -> MarketplaceStats {
        MarketplaceStats {
            total_listings: 0,
            total_sales: 0,
            total_volume: 0,
            total_fees_collected: 0,
            active_listings: 0,
            active_auctions: 0,
        }
    }

    /// All counters at zero.
    pub fn new() -> (r: MarketplaceStats)
        ensures
            r == MarketplaceStats::zero(),
    {
        MarketplaceStats {
            total_listings: 0,
            total_sales: 0,
            total_volume: 0,
            total_fees_collected: 0,
            active_listings: 0,
            active_auctions: 0,
        }
    }

    /// Whether a sale of `price` with `fee` can be counted without overflow.
    pub open spec fn can_record_sale(self, price: int, fee: int) -> bool {
        &&& self.total_sales + 1 <= u32::MAX
        &&& self.total_volume + price <= u128::MAX
        &&& self.total_fees_collected + fee <= u128::MAX
    }

    /// The counters after a sale of `price` with `fee`.
    pub open spec fn after_sale(self, price: int, fee: int) -> MarketplaceStats {
        MarketplaceStats {
            total_sales: (self.total_sales + 1) as u32,
            total_volume: (self.total_volume + price) as u128,
            total_fees_collected: (self.total_fees_collected + fee) as u128,
            ..self
        }
    }

    /// Counts a sale, or returns `None` where a counter would overflow.
    pub fn with_sale(&self, price: u128, fee: u128) -> (r: Option<MarketplaceStats>)
        ensures
            self.can_record_sale(price as int, fee as int) ==> r == Some(
                self.after_sale(price as int, fee as int),
            ),
            !self.can_record_sale(price as int, fee as int) ==> r.is_none(),
    {
        let sales = match self.total_sales.checked_add(1) {
            Some(v) => v,
            None => return None,
        };
        let volume = match self.total_volume.checked_add(price) {
            Some(v) => v,
            None => return None,
        };
        let fees = match self.total_fees_collected.checked_add(fee) {
            Some(v) => v,
            None => return None,
        };
        Some(
            MarketplaceStats {
                total_sales: sales,
                total_volume: volume,
                total_fees_collected: fees,
                ..*self
            },
        )
    }
}

} // verus!
