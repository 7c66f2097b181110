//! The read-side decision an expiry-aware consumer makes: reject a feed
//! whose own expiry has passed.

use vstd::prelude::*;
use crate::price_feed::PriceFeed;

verus! {

/// Emitted when a fresh price is served to a consumer.
pub struct FetchPriceEvent {
    pub feed_id: [u8; 32],
    pub timestamp: i64,
    pub expired_at: u128,
    pub benchmark_price: u128,
    pub ask_price: u128,
    pub bid_price: u128,
}

/// The one way serving a price can fail.
#[derive(Clone, Copy, Debug, PartialEq, Eq, Structural)]
pub enum ErrorCode {
    /// The feed's own expiry lies before the current time.
    PriceExpired,
}

/// A consumer's configuration: which registry its feeds hang off.
pub struct Config {
    pub oracle_state: [u8; 32],
}

/// Serves the prices of `feed` if it has not expired at `unix_timestamp`,
/// else fails with `PriceExpired`.
pub fn fetch_price(feed: &PriceFeed, feed_id: [u8; 32], unix_timestamp: i64) -> (r: Result<
    FetchPriceEvent,
    ErrorCode,
>)
    requires
        unix_timestamp >= 0,
    ensures
        feed.expire_at < unix_timestamp ==> r == Err::<FetchPriceEvent, ErrorCode>(
            ErrorCode::PriceExpired,
        ),
        feed.expire_at >= unix_timestamp ==> r == Ok::<FetchPriceEvent, ErrorCode>(
            FetchPriceEvent {
                feed_id,
                timestamp: unix_timestamp,
                expired_at: feed.expire_at,
                benchmark_price: feed.benchmark_price,
                ask_price: feed.ask_price,
                bid_price: feed.bid_price,
            },
        ),
{
    if feed.expire_at < unix_timestamp as u128 {
        return Err(ErrorCode::PriceExpired);
    }
    Ok(
        FetchPriceEvent {
            feed_id,
            timestamp: unix_timestamp,
            expired_at: feed.expire_at,
            benchmark_price: feed.benchmark_price,
            ask_price: feed.ask_price,
            bid_price: feed.bid_price,
        },
    )
}

} // verus!
