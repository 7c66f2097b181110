//! Price reports and their canonical encoding.
//!
//! A report is encoded as two groups — the data group (feed id, timestamps,
//! fees, prices) and the context group (config digest, epoch/round, extra
//! hash) — each a concatenation of 32-byte words. The hash a signer commits
//! to is `keccak256(keccak256(encode(data)) || encode(context))`: binding the
//! context after the data hash ties a payload to its signing context.

use vstd::prelude::*;
use crate::abi::{
    abi_encode, abi_encoding, AbiToken, lemma_abi_encoding_words_agree, lemma_abi_word_injective,
};
use crate::crypto::{keccak256, keccak256_of};

verus! {

/// One price observation as submitted for verification. Ephemeral: only a
/// report that gathers a quorum of signatures is persisted, as a `PriceFeed`.
#[derive(Clone, Copy)]
pub struct Report {
    pub feed_id: [u8; 32],
    pub valid_time_stamp: u128,
    pub observe_time_stamp: u128,
    pub native_fee: u128,
    pub apro_token_fee: u128,
    pub expire_at: u128,
    pub benchmark_price: u128,
    pub ask_price: u128,
    pub bid_price: u128,
    pub config_digest: [u8; 32],
    pub epoch_and_round: u128,
    pub extra_hash: [u8; 32],
}

/// The tokens of the data group, in declared order.
pub open spec fn report_data_tokens(r: Report) -> Seq<AbiToken> {
    seq![
        AbiToken::Fixed32(r.feed_id),
        AbiToken::Uint(r.valid_time_stamp),
        AbiToken::Uint(r.observe_time_stamp),
        AbiToken::Uint(r.native_fee),
        AbiToken::Uint(r.apro_token_fee),
        AbiToken::Uint(r.expire_at),
        AbiToken::Uint(r.benchmark_price),
        AbiToken::Uint(r.ask_price),
        AbiToken::Uint(r.bid_price),
    ]
}

/// The tokens of the context group, in declared order.
pub open spec fn report_context_tokens(r: Report) -> Seq<AbiToken> {
    seq![
        AbiToken::Fixed32(r.config_digest),
        AbiToken::Uint(r.epoch_and_round),
        AbiToken::Fixed32(r.extra_hash),
    ]
}

/// The canonical bytes of the data group.
pub open spec fn report_data_encoding(r: Report) -> Seq<u8> {
    abi_encoding(report_data_tokens(r))
}

/// The canonical bytes of the context group.
pub open spec fn report_context_encoding(r: Report) -> Seq<u8> {
    abi_encoding(report_context_tokens(r))
}

/// The hash a signer endorses: the data hash, bound to the context.
pub open spec fn report_final_hash_of(r: Report) -> Seq<u8> {
    keccak256_of(keccak256_of(report_data_encoding(r)) + report_context_encoding(r))
}

/// Encodes the data group.
pub fn encode_report_data(r: &Report) -> (out: Vec<u8>)
    ensures
        out@ == report_data_encoding(*r),
{
    let mut tokens: Vec<AbiToken> = Vec::new();
    tokens.push(AbiToken::Fixed32(r.feed_id));
    tokens.push(AbiToken::Uint(r.valid_time_stamp));
    tokens.push(AbiToken::Uint(r.observe_time_stamp));
    tokens.push(AbiToken::Uint(r.native_fee));
    tokens.push(AbiToken::Uint(r.apro_token_fee));
    tokens.push(AbiToken::Uint(r.expire_at));
    tokens.push(AbiToken::Uint(r.benchmark_price));
    tokens.push(AbiToken::Uint(r.ask_price));
    tokens.push(AbiToken::Uint(r.bid_price));
    proof {
        assert(tokens@ =~= report_data_tokens(*r));
    }
    abi_encode(&tokens)
}

/// Encodes the context group.
pub fn encode_report_context(r: &Report) -> (out: Vec<u8>)
    ensures
        out@ == report_context_encoding(*r),
{
    let mut tokens: Vec<AbiToken> = Vec::new();
    tokens.push(AbiToken::Fixed32(r.config_digest));
    tokens.push(AbiToken::Uint(r.epoch_and_round));
    tokens.push(AbiToken::Fixed32(r.extra_hash));
    proof {
        assert(tokens@ =~= report_context_tokens(*r));
    }
    abi_encode(&tokens)
}

/// Computes the hash that signatures are verified against.
pub fn report_final_hash(r: &Report) -> (h: [u8; 32])
    ensures
        h@ == report_final_hash_of(*r),
{
    let encoded_data = encode_report_data(r);
    let data_hash = keccak256(encoded_data.as_slice());
    let encoded_context = encode_report_context(r);
    let mut value: Vec<u8> = Vec::new();
    value.extend_from_slice(data_hash.as_slice());
    value.extend_from_slice(encoded_context.as_slice());
    proof {
        assert(value@ =~= keccak256_of(report_data_encoding(*r)) + report_context_encoding(*r));
    }
    keccak256(value.as_slice())
}

/// The canonical encoding is injective: two reports that encode to the same
/// data bytes and the same context bytes are the same report. Flipping any
/// bit of any field therefore changes the encoded preimage that the final
/// hash is computed over.
pub proof fn lemma_report_encoding_injective(r1: Report, r2: Report)
    requires
        report_data_encoding(r1) == report_data_encoding(r2),
        report_context_encoding(r1) == report_context_encoding(r2),
    ensures
        r1 == r2,
{
    let d1 = report_data_tokens(r1);
    let d2 = report_data_tokens(r2);
    lemma_abi_encoding_words_agree(d1, d2);
    assert forall|j: int| 0 <= j < 9 implies d1[j] == d2[j] by {
        lemma_abi_word_injective(d1[j], d2[j]);
    }
    let c1 = report_context_tokens(r1);
    let c2 = report_context_tokens(r2);
    lemma_abi_encoding_words_agree(c1, c2);
    assert forall|j: int| 0 <= j < 3 implies c1[j] == c2[j] by {
        lemma_abi_word_injective(c1[j], c2[j]);
    }
}

} // verus!
