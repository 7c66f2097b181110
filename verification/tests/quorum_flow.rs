//! End-to-end verification flow: quorum reached, duplicates counted, and
//! every rejection path.

use apro_svm::errors::ErrorCode;
use apro_svm::oracle_state::OracleState;
use apro_svm::price_feed::PriceFeed;
use apro_svm::report::{report_final_hash, Report};
use apro_svm::update_price;

fn sample_report() -> Report {
    Report {
        feed_id: [0x11u8; 32],
        valid_time_stamp: 1_700_000_000,
        observe_time_stamp: 1_700_000_005,
        native_fee: 7,
        apro_token_fee: 9,
        expire_at: 1_700_003_600,
        benchmark_price: 42_000_000_000,
        ask_price: 42_000_000_001,
        bid_price: 41_999_999_999,
        config_digest: [0x22u8; 32],
        epoch_and_round: 5,
        extra_hash: [0x33u8; 32],
    }
}

fn secret_key(tag: u8) -> libsecp256k1::SecretKey {
    let mut bytes = [0u8; 32];
    bytes[31] = tag;
    libsecp256k1::SecretKey::parse(&bytes).unwrap()
}

fn address_of(sk: &libsecp256k1::SecretKey) -> [u8; 20] {
    let pk = libsecp256k1::PublicKey::from_secret_key(sk);
    let mut pk64 = [0u8; 64];
    pk64.copy_from_slice(&pk.serialize()[1..65]);
    apro_svm::crypto::eth_address(&pk64)
}

fn sign(hash: &[u8; 32], sk: &libsecp256k1::SecretKey) -> ([u8; 64], u8) {
    let message = libsecp256k1::Message::parse(hash);
    let (sig, rid) = libsecp256k1::sign(&message, sk);
    (sig.serialize(), rid.serialize())
}

fn registry_with_three_signers() -> OracleState {
    let admin = [0xAAu8; 32];
    let mut st = OracleState {
        id: 0,
        required_signatures: 0,
        total_oracles: 0,
        admin: [0u8; 32],
        oracles: Vec::new(),
        expiration_period: 0,
    };
    apro_svm::initialize_oracle(&mut st, 1, 2, admin, 86_400);
    for tag in [1u8, 2, 3] {
        let addr = address_of(&secret_key(tag));
        apro_svm::add_oracle(&mut st, admin, addr).unwrap();
    }
    st
}

#[test]
fn two_distinct_signers_reach_quorum() {
    let st = registry_with_three_signers();
    let report = sample_report();
    let hash = report_final_hash(&report);
    let (sig_a, rid_a) = sign(&hash, &secret_key(1));
    let (sig_b, rid_b) = sign(&hash, &secret_key(2));
    let mut feed = PriceFeed::default();
    let result = update_price::handler(&st, &mut feed, report, vec![sig_a, sig_b], vec![
        rid_a, rid_b,
    ]);
    let event = result.unwrap();
    assert_eq!(event.feed_id, report.feed_id);
    assert_eq!(event.benchmark_price, report.benchmark_price);
    assert_eq!(event.epoch_and_round, report.epoch_and_round);
    assert_eq!(feed.feed_id, report.feed_id);
    assert_eq!(feed.valid_time_stamp, report.valid_time_stamp);
    assert_eq!(feed.observe_time_stamp, report.observe_time_stamp);
    assert_eq!(feed.native_fee, report.native_fee);
    assert_eq!(feed.apro_token_fee, report.apro_token_fee);
    assert_eq!(feed.expire_at, report.expire_at);
    assert_eq!(feed.benchmark_price, report.benchmark_price);
    assert_eq!(feed.ask_price, report.ask_price);
    assert_eq!(feed.bid_price, report.bid_price);
    assert_eq!(feed.config_digest, report.config_digest);
    assert_eq!(feed.epoch_and_round, report.epoch_and_round);
    assert_eq!(feed.extra_hash, report.extra_hash);
}

#[test]
fn same_signer_twice_is_counted_twice() {
    // Documented laxity: repeated entries are each counted, so one signer
    // signing twice reaches a quorum of two.
    let st = registry_with_three_signers();
    let report = sample_report();
    let hash = report_final_hash(&report);
    let (sig_a, rid_a) = sign(&hash, &secret_key(1));
    let mut feed = PriceFeed::default();
    let result = update_price::handler(&st, &mut feed, report, vec![sig_a, sig_a], vec![
        rid_a, rid_a,
    ]);
    assert!(result.is_ok());
    assert_eq!(feed.benchmark_price, report.benchmark_price);
}

#[test]
fn unregistered_cosigner_leaves_quorum_short() {
    let st = registry_with_three_signers();
    let report = sample_report();
    let hash = report_final_hash(&report);
    let (sig_a, rid_a) = sign(&hash, &secret_key(1));
    let (sig_d, rid_d) = sign(&hash, &secret_key(9));
    let mut feed = PriceFeed::default();
    let result = update_price::handler(&st, &mut feed, report, vec![sig_a, sig_d], vec![
        rid_a, rid_d,
    ]);
    assert!(matches!(result, Err(ErrorCode::InsufficientValidSignatures)));
    assert_eq!(feed.benchmark_price, 0);
}

#[test]
fn mismatched_list_lengths_are_rejected() {
    let st = registry_with_three_signers();
    let mut feed = PriceFeed::default();
    let result = update_price::handler(&st, &mut feed, sample_report(), vec![[0u8; 64]], vec![
        0u8, 0u8,
    ]);
    assert!(matches!(result, Err(ErrorCode::ArrayLengthMismatch)));
    assert_eq!(feed.benchmark_price, 0);
}

#[test]
fn short_submission_is_rejected_before_recovery() {
    let st = registry_with_three_signers();
    let mut feed = PriceFeed::default();
    let result = update_price::handler(&st, &mut feed, sample_report(), vec![[0u8; 64]], vec![
        0u8,
    ]);
    assert!(matches!(result, Err(ErrorCode::InsufficientSignatures)));
    assert_eq!(feed.benchmark_price, 0);
}

#[test]
fn one_malformed_entry_voids_the_batch() {
    // Two good signatures would reach quorum, but an invalid recovery id in
    // the third entry aborts the whole call.
    let st = registry_with_three_signers();
    let report = sample_report();
    let hash = report_final_hash(&report);
    let (sig_a, rid_a) = sign(&hash, &secret_key(1));
    let (sig_b, rid_b) = sign(&hash, &secret_key(2));
    let mut feed = PriceFeed::default();
    let result = update_price::handler(
        &st,
        &mut feed,
        report,
        vec![sig_a, sig_b, [0u8; 64]],
        vec![rid_a, rid_b, 7u8],
    );
    assert!(matches!(result, Err(ErrorCode::SignatureVerificationFailed)));
    assert_eq!(feed.benchmark_price, 0);
}

#[test]
fn tampered_report_recovers_non_matching_addresses() {
    // Signatures made for one report do not let a report with a flipped bit
    // through: the final hash moves, so recovery yields other addresses.
    let st = registry_with_three_signers();
    let report = sample_report();
    let hash = report_final_hash(&report);
    let (sig_a, rid_a) = sign(&hash, &secret_key(1));
    let (sig_b, rid_b) = sign(&hash, &secret_key(2));
    let mut tampered = report;
    tampered.benchmark_price ^= 1;
    let mut feed = PriceFeed::default();
    let result = update_price::handler(&st, &mut feed, tampered, vec![sig_a, sig_b], vec![
        rid_a, rid_b,
    ]);
    assert!(result.is_err());
    assert_eq!(feed.benchmark_price, 0);
}
