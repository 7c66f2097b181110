//! Report verification and feed commit: the heart of the oracle.
//!
//! A submitted report is accepted only if, after the cheap length gates, every
//! `(signature, recovery id)` pair recovers a public key, and the addresses
//! those keys answer to match registered signers at least
//! `required_signatures` times. Entries are counted in list order with no
//! deduplication: the same signer counted twice contributes twice. One
//! malformed pair voids the whole batch. Only full success touches the feed.

use vstd::prelude::*;
use crate::crypto::{eth_address, eth_address_of, secp256k1_recover, secp256k1_recover_of};
use crate::errors::ErrorCode;
use crate::oracle_state::{contains_address, is_registered, OracleState};
use crate::price_feed::{feed_of_report, PriceFeed};
use crate::report::{report_final_hash, report_final_hash_of, Report};

verus! {

/// Emitted when a report is verified and committed.
pub struct PriceUpdated {
    pub feed_id: [u8; 32],
    pub valid_time_stamp: u128,
    pub observe_time_stamp: u128,
    pub native_fee: u128,
    pub apro_token_fee: u128,
    pub expire_at: u128,
    pub benchmark_price: u128,
    pub ask_price: u128,
    pub bid_price: u128,
    pub config_digest: [u8; 32],
    pub epoch_and_round: u128,
    pub extra_hash: [u8; 32],
}

/// The event a committed report emits.
pub open spec fn event_of_report(r: Report) -> PriceUpdated {
    PriceUpdated {
        feed_id: r.feed_id,
        valid_time_stamp: r.valid_time_stamp,
        observe_time_stamp: r.observe_time_stamp,
        native_fee: r.native_fee,
        apro_token_fee: r.apro_token_fee,
        expire_at: r.expire_at,
        benchmark_price: r.benchmark_price,
        ask_price: r.ask_price,
        bid_price: r.bid_price,
        config_digest: r.config_digest,
        epoch_and_round: r.epoch_and_round,
        extra_hash: r.extra_hash,
    }
}

/// The address one signature entry recovers to against hash `h`, if any.
pub open spec fn recovered_address(h: Seq<u8>, sig: [u8; 64], rid: u8) -> Option<Seq<u8>> {
    match secp256k1_recover_of(h, rid, sig@) {
        Some(pk) => Some(eth_address_of(pk)),
        None => None,
    }
}

/// Whether one signature entry recovers to a registered signer.
pub open spec fn entry_counts(oracles: Seq<[u8; 20]>, h: Seq<u8>, sig: [u8; 64], rid: u8) -> bool {
    match recovered_address(h, sig, rid) {
        Some(addr) => is_registered(oracles, addr),
        None => false,
    }
}

/// How many of the first `n` entries recover to registered signers.
/// Duplicate entries are each counted: no deduplication is performed.
pub open spec fn count_valid(
    oracles: Seq<[u8; 20]>,
    h: Seq<u8>,
    sigs: Seq<[u8; 64]>,
    rids: Seq<u8>,
    n: int,
) -> int
    decreases n,
{
    if n <= 0 {
        0
    } else {
        count_valid(oracles, h, sigs, rids, n - 1) + if entry_counts(
            oracles,
            h,
            sigs[n - 1],
            rids[n - 1],
        ) {
            1int
        } else {
            0int
        }
    }
}

/// Whether every entry recovers a public key at all.
pub open spec fn all_recoverable(h: Seq<u8>, sigs: Seq<[u8; 64]>, rids: Seq<u8>) -> bool {
    forall|i: int| 0 <= i < sigs.len() ==> recovered_address(h, sigs[i], rids[i]) is Some
}

/// What one `update_price` call returns and whether it commits, as a
/// function of the registry, the report and the signature lists.
pub open spec fn update_price_outcome(
    st: OracleState,
    r: Report,
    sigs: Seq<[u8; 64]>,
    rids: Seq<u8>,
) -> Result<PriceUpdated, ErrorCode> {
    let h = report_final_hash_of(r);
    if sigs.len() != rids.len() {
        Err(ErrorCode::ArrayLengthMismatch)
    } else if sigs.len() < st.required_signatures {
        Err(ErrorCode::InsufficientSignatures)
    } else if !all_recoverable(h, sigs, rids) {
        Err(ErrorCode::SignatureVerificationFailed)
    } else if count_valid(st.oracles@, h, sigs, rids, sigs.len() as int) < st.required_signatures {
        Err(ErrorCode::InsufficientValidSignatures)
    } else {
        Ok(event_of_report(r))
    }
}

/// Verifies `report` against the registry and, on success, commits it to
/// `price_feed` and returns the event to emit. On any failure the feed is
/// left untouched: the call is all-or-nothing.
pub fn handler(
    oracle_state: &OracleState,
    price_feed: &mut PriceFeed,
    report: Report,
    signatures: Vec<[u8; 64]>,
    recovery_ids: Vec<u8>,
) -> (r: Result<PriceUpdated, ErrorCode>)
    ensures
        r == update_price_outcome(*oracle_state, report, signatures@, recovery_ids@),
        r is Ok ==> *final(price_feed) == feed_of_report(report),
        r is Err ==> *final(price_feed) == *old(price_feed),
{
    if signatures.len() != recovery_ids.len() {
        return Err(ErrorCode::ArrayLengthMismatch);
    }
    if (signatures.len() as u64) < oracle_state.required_signatures {
        return Err(ErrorCode::InsufficientSignatures);
    }
    let h = report_final_hash(&report);
    let n = signatures.len();
    let mut verified: u64 = 0;
    let mut i: usize = 0;
    while i < n
        invariant
            i <= n == signatures@.len() == recovery_ids@.len(),
            signatures@.len() >= oracle_state.required_signatures,
            h@ == report_final_hash_of(report),
            verified <= i,
            verified == count_valid(oracle_state.oracles@, h@, signatures@, recovery_ids@, i as int),
            forall|j: int|
                0 <= j < i ==> recovered_address(h@, signatures@[j], recovery_ids@[j]) is Some,
        decreases n - i,
    {
        let sig: [u8; 64] = signatures[i];
        let rid: u8 = recovery_ids[i];
        let pubkey = match secp256k1_recover(&h, rid, &sig) {
            Some(pk) => pk,
            None => {
                proof {
                    assert(recovered_address(h@, signatures@[i as int], recovery_ids@[i as int])
                        is None);
                    assert(!all_recoverable(h@, signatures@, recovery_ids@));
                }
                return Err(ErrorCode::SignatureVerificationFailed);
            },
        };
        let addr = eth_address(&pubkey);
        if contains_address(&oracle_state.oracles, &addr) {
            verified = verified + 1;
        }
        i = i + 1;
    }
    if verified < oracle_state.required_signatures {
        return Err(ErrorCode::InsufficientValidSignatures);
    }
    price_feed.update_price(
        report.feed_id,
        report.valid_time_stamp,
        report.observe_time_stamp,
        report.native_fee,
        report.apro_token_fee,
        report.expire_at,
        report.benchmark_price,
        report.ask_price,
        report.bid_price,
        report.config_digest,
        report.epoch_and_round,
        report.extra_hash,
    );
    Ok(PriceUpdated {
        feed_id: report.feed_id,
        valid_time_stamp: report.valid_time_stamp,
        observe_time_stamp: report.observe_time_stamp,
        native_fee: report.native_fee,
        apro_token_fee: report.apro_token_fee,
        expire_at: report.expire_at,
        benchmark_price: report.benchmark_price,
        ask_price: report.ask_price,
        bid_price: report.bid_price,
        config_digest: report.config_digest,
        epoch_and_round: report.epoch_and_round,
        extra_hash: report.extra_hash,
    })
}

/// Mismatched list lengths are rejected with `ArrayLengthMismatch` whatever
/// the report or the registry holds.
pub proof fn lemma_length_mismatch_rejected(
    st: OracleState,
    r: Report,
    sigs: Seq<[u8; 64]>,
    rids: Seq<u8>,
)
    requires
        sigs.len() != rids.len(),
    ensures
        update_price_outcome(st, r, sigs, rids) == Err::<PriceUpdated, ErrorCode>(
            ErrorCode::ArrayLengthMismatch,
        ),
{
}

/// A submission shorter than the quorum is rejected with
/// `InsufficientSignatures`, whatever the signatures hold: the outcome is
/// decided by the lengths alone, before any recovery.
pub proof fn lemma_insufficient_signatures_rejected(
    st: OracleState,
    r: Report,
    sigs: Seq<[u8; 64]>,
    rids: Seq<u8>,
)
    requires
        sigs.len() == rids.len(),
        sigs.len() < st.required_signatures,
    ensures
        update_price_outcome(st, r, sigs, rids) == Err::<PriceUpdated, ErrorCode>(
            ErrorCode::InsufficientSignatures,
        ),
{
}

/// At least as many entries count as there are distinct indices known to
/// recover to registered signers.
proof fn lemma_count_valid_ge_indices(
    oracles: Seq<[u8; 20]>,
    h: Seq<u8>,
    sigs: Seq<[u8; 64]>,
    rids: Seq<u8>,
    idxs: Set<int>,
    n: int,
)
    requires
        n >= 0,
        idxs.finite(),
        forall|i: int| idxs.contains(i) ==> 0 <= i < n && entry_counts(oracles, h, sigs[i], rids[i]),
    ensures
        count_valid(oracles, h, sigs, rids, n) >= idxs.len(),
    decreases n,
{
    if n == 0 {
        if !idxs.is_empty() {
            let i = idxs.choose();
            assert(idxs.contains(i));
            assert(false);
        }
    } else {
        let rest = idxs.remove(n - 1);
        assert(forall|i: int|
            rest.contains(i) ==> 0 <= i < n - 1 && entry_counts(oracles, h, sigs[i], rids[i]));
        lemma_count_valid_ge_indices(oracles, h, sigs, rids, rest, n - 1);
        if idxs.contains(n - 1) {
            assert(rest.len() == idxs.len() - 1);
            assert(entry_counts(oracles, h, sigs[n - 1], rids[n - 1]));
        } else {
            assert(rest =~= idxs);
        }
    }
}

/// A report endorsed by at least `required_signatures` distinct signature
/// entries that each recover to a registered signer — in particular, one
/// signed by that many distinct registered signers — is accepted, and the
/// committed feed carries exactly the submitted fields.
pub proof fn lemma_quorum_accepts(
    st: OracleState,
    r: Report,
    sigs: Seq<[u8; 64]>,
    rids: Seq<u8>,
    idxs: Set<int>,
)
    requires
        sigs.len() == rids.len(),
        all_recoverable(report_final_hash_of(r), sigs, rids),
        idxs.finite(),
        idxs.len() >= st.required_signatures,
        forall|i: int|
            idxs.contains(i) ==> 0 <= i < sigs.len() && entry_counts(
                st.oracles@,
                report_final_hash_of(r),
                sigs[i],
                rids[i],
            ),
    ensures
        update_price_outcome(st, r, sigs, rids) == Ok::<PriceUpdated, ErrorCode>(
            event_of_report(r),
        ),
{
    lemma_count_valid_ge_indices(
        st.oracles@,
        report_final_hash_of(r),
        sigs,
        rids,
        idxs,
        sigs.len() as int,
    );
    if sigs.len() < st.required_signatures {
        lemma_count_valid_le_n(st.oracles@, report_final_hash_of(r), sigs, rids, sigs.len() as int);
    }
}

/// No more entries count than there are entries.
proof fn lemma_count_valid_le_n(
    oracles: Seq<[u8; 20]>,
    h: Seq<u8>,
    sigs: Seq<[u8; 64]>,
    rids: Seq<u8>,
    n: int,
)
    requires
        n >= 0,
    ensures
        count_valid(oracles, h, sigs, rids, n) <= n,
    decreases n,
{
    if n > 0 {
        lemma_count_valid_le_n(oracles, h, sigs, rids, n - 1);
    }
}

} // verus!
