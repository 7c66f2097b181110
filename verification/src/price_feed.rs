//! The persisted per-feed record.

use vstd::prelude::*;
use crate::report::Report;

verus! {

/// The latest verified report of one feed, keyed by `(registry, feed_id)`.
/// Created on the first accepted update and overwritten wholesale on each
/// later one; no history is kept.
#[derive(Clone, Copy)]
pub struct PriceFeed {
    pub feed_id: [u8; 32],
    pub valid_time_stamp: u128,
    pub observe_time_stamp: u128,
    pub native_fee: u128,
    pub apro_token_fee: u128,
    pub expire_at: u128,
    pub benchmark_price: u128,
    pub ask_price: u128,
    pub bid_price: u128,
    pub config_digest: [u8; 32],
    pub epoch_and_round: u128,
    pub extra_hash: [u8; 32],
}

/// The feed record a report persists as.
pub open spec fn feed_of_report(r: Report) -> PriceFeed {
    PriceFeed {
        feed_id: r.feed_id,
        valid_time_stamp: r.valid_time_stamp,
        observe_time_stamp: r.observe_time_stamp,
        native_fee: r.native_fee,
        apro_token_fee: r.apro_token_fee,
        expire_at: r.expire_at,
        benchmark_price: r.benchmark_price,
        ask_price: r.ask_price,
        bid_price: r.bid_price,
        config_digest: r.config_digest,
        epoch_and_round: r.epoch_and_round,
        extra_hash: r.extra_hash,
    }
}

impl PriceFeed {
    /// Replaces every field with the newly verified values. Total and
    /// unconditional: no ordering check against the stored timestamps is
    /// made, so an older report that verifies still overwrites a newer one.
    pub fn update_price(
        &mut self,
        feed_id: [u8; 32],
        valid_time_stamp: u128,
        observe_time_stamp: u128,
        native_fee: u128,
        apro_token_fee: u128,
        expire_at: u128,
        benchmark_price: u128,
        ask_price: u128,
        bid_price: u128,
        config_digest: [u8; 32],
        epoch_and_round: u128,
        extra_hash: [u8; 32],
    )
        ensures
            *final(self) == (PriceFeed {
                feed_id,
                valid_time_stamp,
                observe_time_stamp,
                native_fee,
                apro_token_fee,
                expire_at,
                benchmark_price,
                ask_price,
                bid_price,
                config_digest,
                epoch_and_round,
                extra_hash,
            }),
    {
        self.feed_id = feed_id;
        self.valid_time_stamp = valid_time_stamp;
        self.observe_time_stamp = observe_time_stamp;
        self.native_fee = native_fee;
        self.apro_token_fee = apro_token_fee;
        self.expire_at = expire_at;
        self.benchmark_price = benchmark_price;
        self.ask_price = ask_price;
        self.bid_price = bid_price;
        self.config_digest = config_digest;
        self.epoch_and_round = epoch_and_round;
        self.extra_hash = extra_hash;
    }
}

impl Default for PriceFeed {
    /// The zeroed record a feed account starts from before its first
    /// accepted update.
    fn default() -> (r: PriceFeed)
        ensures
            r.feed_id@ == Seq::new(32, |i: int| 0u8),
            r.valid_time_stamp == 0,
            r.observe_time_stamp == 0,
            r.native_fee == 0,
            r.apro_token_fee == 0,
            r.expire_at == 0,
            r.benchmark_price == 0,
            r.ask_price == 0,
            r.bid_price == 0,
            r.config_digest@ == Seq::new(32, |i: int| 0u8),
            r.epoch_and_round == 0,
            r.extra_hash@ == Seq::new(32, |i: int| 0u8),
    {
        let zero = [0u8; 32];
        proof {
            assert(zero@ =~= Seq::new(32, |i: int| 0u8));
        }
        PriceFeed {
            feed_id: zero,
            valid_time_stamp: 0,
            observe_time_stamp: 0,
            native_fee: 0,
            apro_token_fee: 0,
            expire_at: 0,
            benchmark_price: 0,
            ask_price: 0,
            bid_price: 0,
            config_digest: zero,
            epoch_and_round: 0,
            extra_hash: zero,
        }
    }
}

} // verus!
