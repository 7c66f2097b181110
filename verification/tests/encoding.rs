//! The canonical report encoding, the two-stage hash and address
//! derivation, checked against independent implementations.

use apro_svm::report::{
    encode_report_context, encode_report_data, report_final_hash, Report,
};
use sha3::{Digest, Keccak256};

fn sample_report() -> Report {
    Report {
        feed_id: [0x11u8; 32],
        valid_time_stamp: 1,
        observe_time_stamp: 2,
        native_fee: 3,
        apro_token_fee: 4,
        expire_at: 5,
        benchmark_price: 0x0102030405060708090a0b0c0d0e0f10,
        ask_price: 7,
        bid_price: 8,
        config_digest: [0x22u8; 32],
        epoch_and_round: 9,
        extra_hash: [0x33u8; 32],
    }
}

#[test]
fn data_group_encodes_to_nine_big_endian_words() {
    let report = sample_report();
    let encoded = encode_report_data(&report);
    assert_eq!(encoded.len(), 9 * 32);
    // Word 0: the feed id verbatim.
    assert_eq!(&encoded[0..32], &[0x11u8; 32]);
    // Word 1: valid_time_stamp == 1 as a 256-bit big-endian word.
    let mut one = [0u8; 32];
    one[31] = 1;
    assert_eq!(&encoded[32..64], &one);
    // Word 6: a wide benchmark price keeps its byte order, right-aligned.
    assert_eq!(&encoded[6 * 32..6 * 32 + 16], &[0u8; 16]);
    assert_eq!(
        &encoded[6 * 32 + 16..7 * 32],
        &[1u8, 2, 3, 4, 5, 6, 7, 8, 9, 10, 11, 12, 13, 14, 15, 16]
    );
}

#[test]
fn encoding_matches_ethabi_directly() {
    let report = sample_report();
    let data_tokens = vec![
        ethabi::Token::FixedBytes(report.feed_id.to_vec()),
        ethabi::Token::Uint(report.valid_time_stamp.into()),
        ethabi::Token::Uint(report.observe_time_stamp.into()),
        ethabi::Token::Uint(report.native_fee.into()),
        ethabi::Token::Uint(report.apro_token_fee.into()),
        ethabi::Token::Uint(report.expire_at.into()),
        ethabi::Token::Uint(report.benchmark_price.into()),
        ethabi::Token::Uint(report.ask_price.into()),
        ethabi::Token::Uint(report.bid_price.into()),
    ];
    assert_eq!(encode_report_data(&report), ethabi::encode(&data_tokens));
    let context_tokens = vec![
        ethabi::Token::FixedBytes(report.config_digest.to_vec()),
        ethabi::Token::Uint(report.epoch_and_round.into()),
        ethabi::Token::FixedBytes(report.extra_hash.to_vec()),
    ];
    assert_eq!(encode_report_context(&report), ethabi::encode(&context_tokens));
}

#[test]
fn final_hash_is_the_two_stage_keccak() {
    let report = sample_report();
    let encoded_data = encode_report_data(&report);
    let encoded_context = encode_report_context(&report);
    let data_hash = Keccak256::digest(&encoded_data);
    let mut value = data_hash.to_vec();
    value.extend_from_slice(&encoded_context);
    let expected = Keccak256::digest(&value);
    assert_eq!(report_final_hash(&report).to_vec(), expected.to_vec());
}

#[test]
fn final_hash_moves_with_every_field() {
    let base = sample_report();
    let base_hash = report_final_hash(&base);
    let mut variants: Vec<Report> = Vec::new();
    let mut r = base;
    r.feed_id[0] ^= 1;
    variants.push(r);
    let mut r = base;
    r.valid_time_stamp ^= 1;
    variants.push(r);
    let mut r = base;
    r.expire_at ^= 1 << 100;
    variants.push(r);
    let mut r = base;
    r.config_digest[31] ^= 0x80;
    variants.push(r);
    let mut r = base;
    r.epoch_and_round ^= 1;
    variants.push(r);
    let mut r = base;
    r.extra_hash[15] ^= 1;
    variants.push(r);
    for v in variants {
        assert_ne!(report_final_hash(&v), base_hash);
    }
}

#[test]
fn address_derivation_follows_the_keccak_convention() {
    let mut sk_bytes = [0u8; 32];
    sk_bytes[31] = 1;
    let sk = libsecp256k1::SecretKey::parse(&sk_bytes).unwrap();
    let pk = libsecp256k1::PublicKey::from_secret_key(&sk);
    let mut pk64 = [0u8; 64];
    pk64.copy_from_slice(&pk.serialize()[1..65]);
    let expected_digest = Keccak256::digest(&pk64);
    let addr = apro_svm::crypto::eth_address(&pk64);
    assert_eq!(&addr[..], &expected_digest[12..32]);
}
