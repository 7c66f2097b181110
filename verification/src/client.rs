//! The read-side decision a price consumer makes: is the stored feed fresh
//! enough to use?

use vstd::prelude::*;
use crate::price_feed::PriceFeed;

verus! {

/// How old a feed's valid timestamp may be, in seconds, before its price is
/// discarded.
pub const STALENESS_THRESHOLD: u128 = 3600;

/// What a consumer stores after reading a feed: the benchmark price where
/// the feed is fresh, a zero marked invalid where it is not.
pub struct PriceResult {
    pub price: u128,
    pub is_valid: bool,
}

/// Turns a loaded feed into a `PriceResult` against the current time. The
/// feed is fresh when its valid timestamp is no later than now and at most
/// `STALENESS_THRESHOLD` seconds behind it.
pub fn fetch_price_result(feed: &PriceFeed, current_timestamp: u128) -> (r: PriceResult)
    ensures
        (feed.valid_time_stamp <= current_timestamp && current_timestamp - feed.valid_time_stamp
            <= STALENESS_THRESHOLD) ==> r == (PriceResult {
            price: feed.benchmark_price,
            is_valid: true,
        }),
        !(feed.valid_time_stamp <= current_timestamp && current_timestamp - feed.valid_time_stamp
            <= STALENESS_THRESHOLD) ==> r == (PriceResult { price: 0u128, is_valid: false }),
{
    if feed.valid_time_stamp <= current_timestamp && current_timestamp - feed.valid_time_stamp
        <= STALENESS_THRESHOLD {
        PriceResult { price: feed.benchmark_price, is_valid: true }
    } else {
        PriceResult { price: 0, is_valid: false }
    }
}

} // verus!
