//! The canonical wire encoding of report fields.
//!
//! Producers and verifiers agree on one deterministic byte string per report:
//! every field becomes one 32-byte word — a 32-byte field verbatim, a numeric
//! field widened to a 256-bit unsigned big-endian word — and the words are
//! concatenated in declared order. The encoding itself is done by `ethabi`;
//! its effect on these statically-sized tokens is stated exactly, and the
//! injectivity lemmas below show that the encoding pins the fields down.

use vstd::prelude::*;
use crate::bytes::{be_bytes, lemma_be_bytes_injective, lemma_pow256_16, pow256};

verus! {

/// One field of the canonical encoding: 32 bytes verbatim, or a 128-bit
/// number widened to a 256-bit big-endian word.
#[derive(Clone, Copy)]
pub enum AbiToken {
    Fixed32([u8; 32]),
    Uint(u128),
}

/// The 32-byte word a token encodes to.
pub open spec fn abi_word(t: AbiToken) -> Seq<u8> {
    match t {
        AbiToken::Fixed32(b) => b@,
        AbiToken::Uint(x) => be_bytes(x as nat, 32),
    }
}

/// The words of all tokens, concatenated in order.
pub open spec fn abi_encoding(tokens: Seq<AbiToken>) -> Seq<u8>
    decreases tokens.len(),
{
    if tokens.len() == 0 {
        Seq::empty()
    } else {
        abi_word(tokens[0]) + abi_encoding(tokens.drop_first())
    }
}

/// Relies on `ethabi::encode`: a statically-sized token contributes exactly
/// one 32-byte word to the output — a `FixedBytes` of 32 bytes verbatim, a
/// `Uint` as its 256-bit big-endian representation — and the words appear in
/// token order with nothing in between.
#[verifier::external_body]
pub(crate) fn abi_encode(tokens: &Vec<AbiToken>) -> (out: Vec<u8>)
    ensures
        out@ == abi_encoding(tokens@),
{
    let ts: Vec<ethabi::Token> = tokens
        .iter()
        .map(|t| match t {
            AbiToken::Fixed32(b) => ethabi::Token::FixedBytes(b.to_vec()),
            AbiToken::Uint(x) => ethabi::Token::Uint((*x).into()),
        })
        .collect();
    ethabi::encode(&ts)
}

pub proof fn lemma_abi_word_len(t: AbiToken)
    ensures
        abi_word(t).len() == 32,
{
}

pub proof fn lemma_abi_encoding_len(tokens: Seq<AbiToken>)
    ensures
        abi_encoding(tokens).len() == 32 * tokens.len(),
    decreases tokens.len(),
{
    if tokens.len() > 0 {
        lemma_abi_encoding_len(tokens.drop_first());
    }
}

/// Token lists of one length that encode to the same bytes agree word by
/// word.
pub proof fn lemma_abi_encoding_words_agree(ts1: Seq<AbiToken>, ts2: Seq<AbiToken>)
    requires
        ts1.len() == ts2.len(),
        abi_encoding(ts1) == abi_encoding(ts2),
    ensures
        forall|j: int| 0 <= j < ts1.len() ==> abi_word(ts1[j]) == abi_word(ts2[j]),
    decreases ts1.len(),
{
    if ts1.len() > 0 {
        let w1 = abi_word(ts1[0]);
        let w2 = abi_word(ts2[0]);
        let r1 = abi_encoding(ts1.drop_first());
        let r2 = abi_encoding(ts2.drop_first());
        assert(abi_encoding(ts1) == w1 + r1);
        assert(abi_encoding(ts2) == w2 + r2);
        lemma_abi_word_len(ts1[0]);
        lemma_abi_word_len(ts2[0]);
        assert(w1 =~= w2) by {
            assert(forall|i: int| 0 <= i < 32 ==> (w1 + r1)[i] == w1[i] && (w2 + r2)[i] == w2[i]);
        }
        assert(r1 =~= r2) by {
            lemma_abi_encoding_len(ts1.drop_first());
            lemma_abi_encoding_len(ts2.drop_first());
            assert(forall|i: int|
                0 <= i < r1.len() ==> (w1 + r1)[32 + i] == r1[i] && (w2 + r2)[32 + i] == r2[i]);
        }
        lemma_abi_encoding_words_agree(ts1.drop_first(), ts2.drop_first());
        assert(forall|j: int|
            1 <= j < ts1.len() ==> ts1[j] == ts1.drop_first()[j - 1] && ts2[j]
                == ts2.drop_first()[j - 1]);
    }
}

/// Equal words built from the same constructor carry equal fields.
pub proof fn lemma_abi_word_injective(t1: AbiToken, t2: AbiToken)
    requires
        abi_word(t1) == abi_word(t2),
        t1 is Fixed32 <==> t2 is Fixed32,
    ensures
        t1 == t2,
{
    match (t1, t2) {
        (AbiToken::Fixed32(b1), AbiToken::Fixed32(b2)) => {
            assert(b1 =~= b2);
        },
        (AbiToken::Uint(x1), AbiToken::Uint(x2)) => {
            lemma_pow256_16();
            assert((x1 as nat) < pow256(32) && (x2 as nat) < pow256(32)) by {
                crate::bytes::lemma_pow256_mono(16, 32);
            }
            lemma_be_bytes_injective(x1 as nat, x2 as nat, 32);
        },
        _ => {
            assert(false);
        },
    }
}

} // verus!
