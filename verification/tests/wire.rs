//! The account layout and the instruction payload.

use apro_svm::price_feed::PriceFeed;
use apro_svm::report::Report;
use apro_svm::sdk::{
    load_price_feed_from_account_data, serialize_price_feed, update_price_instruction_data,
    PRICE_FEED_DATA_LEN,
};
use sha2::{Digest, Sha256};

fn sample_feed() -> PriceFeed {
    PriceFeed {
        feed_id: [0x44u8; 32],
        valid_time_stamp: 11,
        observe_time_stamp: 22,
        native_fee: 33,
        apro_token_fee: 44,
        expire_at: 0x00f1f2f3f4f5f6f7f8f9fafbfcfdfeff,
        benchmark_price: 55,
        ask_price: 66,
        bid_price: 77,
        config_digest: [0x55u8; 32],
        epoch_and_round: 88,
        extra_hash: [0x66u8; 32],
    }
}

#[test]
fn feed_serialization_round_trips() {
    let feed = sample_feed();
    let payload = serialize_price_feed(&feed);
    assert_eq!(payload.len(), PRICE_FEED_DATA_LEN);
    let mut account = vec![0u8; 8];
    account.extend_from_slice(&payload);
    let loaded = load_price_feed_from_account_data(&account).unwrap();
    assert_eq!(loaded.feed_id, feed.feed_id);
    assert_eq!(loaded.valid_time_stamp, feed.valid_time_stamp);
    assert_eq!(loaded.observe_time_stamp, feed.observe_time_stamp);
    assert_eq!(loaded.native_fee, feed.native_fee);
    assert_eq!(loaded.apro_token_fee, feed.apro_token_fee);
    assert_eq!(loaded.expire_at, feed.expire_at);
    assert_eq!(loaded.benchmark_price, feed.benchmark_price);
    assert_eq!(loaded.ask_price, feed.ask_price);
    assert_eq!(loaded.bid_price, feed.bid_price);
    assert_eq!(loaded.config_digest, feed.config_digest);
    assert_eq!(loaded.epoch_and_round, feed.epoch_and_round);
    assert_eq!(loaded.extra_hash, feed.extra_hash);
}

#[test]
fn numeric_fields_are_little_endian() {
    let feed = sample_feed();
    let payload = serialize_price_feed(&feed);
    // valid_time_stamp == 11 sits at offset 32, least significant byte
    // first.
    assert_eq!(payload[32], 11);
    assert_eq!(&payload[33..48], &[0u8; 15]);
    // expire_at keeps its bytes reversed.
    let expected: Vec<u8> = (0..16)
        .map(|k| (feed.expire_at >> (8 * k)) as u8)
        .collect();
    assert_eq!(&payload[96..112], &expected[..]);
}

#[test]
fn too_short_account_data_is_refused() {
    let feed = sample_feed();
    let payload = serialize_price_feed(&feed);
    let mut account = vec![0u8; 8];
    account.extend_from_slice(&payload);
    account.pop();
    assert!(load_price_feed_from_account_data(&account).is_none());
    assert!(load_price_feed_from_account_data(&[]).is_none());
}

#[test]
fn instruction_payload_layout() {
    let report = Report {
        feed_id: [0x44u8; 32],
        valid_time_stamp: 11,
        observe_time_stamp: 22,
        native_fee: 33,
        apro_token_fee: 44,
        expire_at: 0x00f1f2f3f4f5f6f7f8f9fafbfcfdfeff,
        benchmark_price: 55,
        ask_price: 66,
        bid_price: 77,
        config_digest: [0x55u8; 32],
        epoch_and_round: 88,
        extra_hash: [0x66u8; 32],
    };
    let signatures = vec![[0xABu8; 64], [0xCDu8; 64]];
    let recovery_ids = vec![0u8, 1u8];
    let data = update_price_instruction_data(&report, &signatures, &recovery_ids);

    let discriminator = Sha256::digest(b"global:update_price");
    assert_eq!(&data[0..8], &discriminator[0..8]);

    let fields = serialize_price_feed(&sample_feed());
    assert_eq!(&data[8..8 + PRICE_FEED_DATA_LEN], &fields[..]);

    let off = 8 + PRICE_FEED_DATA_LEN;
    assert_eq!(&data[off..off + 4], &[2, 0, 0, 0]);
    assert_eq!(&data[off + 4..off + 68], &[0xABu8; 64]);
    assert_eq!(&data[off + 68..off + 132], &[0xCDu8; 64]);
    assert_eq!(&data[off + 132..off + 136], &[2, 0, 0, 0]);
    assert_eq!(&data[off + 136..], &[0u8, 1u8]);
    assert_eq!(data.len(), off + 138);
}
