//! The client-side wire formats: the persisted feed account layout and the
//! `update_price` instruction payload.
//!
//! A feed account holds an 8-byte discriminator followed by the feed's
//! fields, fixed-byte fields verbatim and numeric fields as 128-bit
//! little-endian words. The instruction payload is an 8-byte method
//! discriminator — the first 8 bytes of `sha256("global:update_price")` —
//! followed by the report fields in the same layout and the two
//! length-prefixed signature lists.

use vstd::prelude::*;
use crate::bytes::{
    le_bytes, le_val, lemma_le_bytes_val, lemma_pow256_16, push_le_bytes, read_bytes32,
    read_u128_le,
};
use crate::crypto::{sha256, sha256_of};
use crate::price_feed::{feed_of_report, PriceFeed};
use crate::report::Report;

verus! {

/// The byte length of a serialized feed, its discriminator excluded.
pub const PRICE_FEED_DATA_LEN: usize = 240;

/// The serialized form of a feed's fields.
pub open spec fn price_feed_bytes(f: PriceFeed) -> Seq<u8> {
    f.feed_id@ + le_bytes(f.valid_time_stamp as nat, 16) + le_bytes(f.observe_time_stamp as nat, 16)
        + le_bytes(f.native_fee as nat, 16) + le_bytes(f.apro_token_fee as nat, 16) + le_bytes(
        f.expire_at as nat,
        16,
    ) + le_bytes(f.benchmark_price as nat, 16) + le_bytes(f.ask_price as nat, 16) + le_bytes(
        f.bid_price as nat,
        16,
    ) + f.config_digest@ + le_bytes(f.epoch_and_round as nat, 16) + f.extra_hash@
}

/// Appends the serialized fields of `feed` to `out`.
pub fn push_price_feed_bytes(out: &mut Vec<u8>, feed: &PriceFeed)
    ensures
        final(out)@ == old(out)@ + price_feed_bytes(*feed),
{
    out.extend_from_slice(feed.feed_id.as_slice());
    push_le_bytes(out, feed.valid_time_stamp, 16);
    push_le_bytes(out, feed.observe_time_stamp, 16);
    push_le_bytes(out, feed.native_fee, 16);
    push_le_bytes(out, feed.apro_token_fee, 16);
    push_le_bytes(out, feed.expire_at, 16);
    push_le_bytes(out, feed.benchmark_price, 16);
    push_le_bytes(out, feed.ask_price, 16);
    push_le_bytes(out, feed.bid_price, 16);
    out.extend_from_slice(feed.config_digest.as_slice());
    push_le_bytes(out, feed.epoch_and_round, 16);
    out.extend_from_slice(feed.extra_hash.as_slice());
    proof {
        assert(out@ =~= old(out)@ + price_feed_bytes(*feed));
    }
}

/// Serializes a feed as it sits in its account, discriminator excluded.
pub fn serialize_price_feed(feed: &PriceFeed) -> (out: Vec<u8>)
    ensures
        out@ == price_feed_bytes(*feed),
{
    let mut out: Vec<u8> = Vec::new();
    push_price_feed_bytes(&mut out, feed);
    out
}

/// Reads a feed back out of raw account data: 8 bytes of discriminator,
/// then the fields. Returns `None` exactly where the data is too short;
/// trailing bytes are ignored, as the deserializer of the wire format
/// ignores them.
pub fn load_price_feed_from_account_data(data: &[u8]) -> (r: Option<PriceFeed>)
    ensures
        r is Some <==> data@.len() >= 248,
        r matches Some(f) ==> {
            &&& f.feed_id@ == data@.subrange(8, 40)
            &&& f.valid_time_stamp as nat == le_val(data@.subrange(40, 56))
            &&& f.observe_time_stamp as nat == le_val(data@.subrange(56, 72))
            &&& f.native_fee as nat == le_val(data@.subrange(72, 88))
            &&& f.apro_token_fee as nat == le_val(data@.subrange(88, 104))
            &&& f.expire_at as nat == le_val(data@.subrange(104, 120))
            &&& f.benchmark_price as nat == le_val(data@.subrange(120, 136))
            &&& f.ask_price as nat == le_val(data@.subrange(136, 152))
            &&& f.bid_price as nat == le_val(data@.subrange(152, 168))
            &&& f.config_digest@ == data@.subrange(168, 200)
            &&& f.epoch_and_round as nat == le_val(data@.subrange(200, 216))
            &&& f.extra_hash@ == data@.subrange(216, 248)
        },
{
    if data.len() < 248 {
        return None;
    }
    Some(
        PriceFeed {
            feed_id: read_bytes32(data, 8),
            valid_time_stamp: read_u128_le(data, 40),
            observe_time_stamp: read_u128_le(data, 56),
            native_fee: read_u128_le(data, 72),
            apro_token_fee: read_u128_le(data, 88),
            expire_at: read_u128_le(data, 104),
            benchmark_price: read_u128_le(data, 120),
            ask_price: read_u128_le(data, 136),
            bid_price: read_u128_le(data, 152),
            config_digest: read_bytes32(data, 168),
            epoch_and_round: read_u128_le(data, 200),
            extra_hash: read_bytes32(data, 216),
        },
    )
}

/// The feed layout inverts: each field sits at its fixed offset of the
/// serialized bytes and decodes back to itself, so what
/// `serialize_price_feed` writes, `load_price_feed_from_account_data` reads
/// back unchanged.
pub proof fn lemma_price_feed_bytes_round_trip(f: PriceFeed)
    ensures
        price_feed_bytes(f).len() == 240,
        price_feed_bytes(f).subrange(0, 32) == f.feed_id@,
        le_val(price_feed_bytes(f).subrange(32, 48)) == f.valid_time_stamp,
        le_val(price_feed_bytes(f).subrange(48, 64)) == f.observe_time_stamp,
        le_val(price_feed_bytes(f).subrange(64, 80)) == f.native_fee,
        le_val(price_feed_bytes(f).subrange(80, 96)) == f.apro_token_fee,
        le_val(price_feed_bytes(f).subrange(96, 112)) == f.expire_at,
        le_val(price_feed_bytes(f).subrange(112, 128)) == f.benchmark_price,
        le_val(price_feed_bytes(f).subrange(128, 144)) == f.ask_price,
        le_val(price_feed_bytes(f).subrange(144, 160)) == f.bid_price,
        price_feed_bytes(f).subrange(160, 192) == f.config_digest@,
        le_val(price_feed_bytes(f).subrange(192, 208)) == f.epoch_and_round,
        price_feed_bytes(f).subrange(208, 240) == f.extra_hash@,
{
    let s = price_feed_bytes(f);
    lemma_pow256_16();
    assert(s.subrange(0, 32) =~= f.feed_id@);
    assert(s.subrange(32, 48) =~= le_bytes(f.valid_time_stamp as nat, 16));
    lemma_le_bytes_val(f.valid_time_stamp as nat, 16);
    assert(s.subrange(48, 64) =~= le_bytes(f.observe_time_stamp as nat, 16));
    lemma_le_bytes_val(f.observe_time_stamp as nat, 16);
    assert(s.subrange(64, 80) =~= le_bytes(f.native_fee as nat, 16));
    lemma_le_bytes_val(f.native_fee as nat, 16);
    assert(s.subrange(80, 96) =~= le_bytes(f.apro_token_fee as nat, 16));
    lemma_le_bytes_val(f.apro_token_fee as nat, 16);
    assert(s.subrange(96, 112) =~= le_bytes(f.expire_at as nat, 16));
    lemma_le_bytes_val(f.expire_at as nat, 16);
    assert(s.subrange(112, 128) =~= le_bytes(f.benchmark_price as nat, 16));
    lemma_le_bytes_val(f.benchmark_price as nat, 16);
    assert(s.subrange(128, 144) =~= le_bytes(f.ask_price as nat, 16));
    lemma_le_bytes_val(f.ask_price as nat, 16);
    assert(s.subrange(144, 160) =~= le_bytes(f.bid_price as nat, 16));
    lemma_le_bytes_val(f.bid_price as nat, 16);
    assert(s.subrange(160, 192) =~= f.config_digest@);
    assert(s.subrange(192, 208) =~= le_bytes(f.epoch_and_round as nat, 16));
    lemma_le_bytes_val(f.epoch_and_round as nat, 16);
    assert(s.subrange(208, 240) =~= f.extra_hash@);
}

/// The bytes `sha256` is run over to derive the instruction discriminator:
/// the method name under the global namespace, `"global:update_price"`.
pub open spec fn discriminator_preimage() -> Seq<u8> {
    seq![
        103u8, 108u8, 111u8, 98u8, 97u8, 108u8, 58u8, 117u8, 112u8, 100u8, 97u8, 116u8, 101u8,
        95u8, 112u8, 114u8, 105u8, 99u8, 101u8,
    ]
}

/// The serialized signature list: each 64-byte entry verbatim, in order.
pub open spec fn signatures_bytes(sigs: Seq<[u8; 64]>) -> Seq<u8>
    decreases sigs.len(),
{
    if sigs.len() == 0 {
        Seq::empty()
    } else {
        sigs[0]@ + signatures_bytes(sigs.drop_first())
    }
}

proof fn lemma_signatures_bytes_push(sigs: Seq<[u8; 64]>, sig: [u8; 64])
    ensures
        signatures_bytes(sigs.push(sig)) == signatures_bytes(sigs) + sig@,
    decreases sigs.len(),
{
    if sigs.len() == 0 {
        let p = sigs.push(sig);
        assert(p[0] == sig);
        assert(p.drop_first() =~= Seq::<[u8; 64]>::empty());
        assert(signatures_bytes(p.drop_first()) == Seq::<u8>::empty());
        assert(signatures_bytes(p) == sig@ + Seq::<u8>::empty());
        assert(signatures_bytes(sigs) == Seq::<u8>::empty());
        assert(sig@ + Seq::<u8>::empty() =~= Seq::<u8>::empty() + sig@);
    } else {
        assert(sigs.push(sig).drop_first() =~= sigs.drop_first().push(sig));
        lemma_signatures_bytes_push(sigs.drop_first(), sig);
        assert(signatures_bytes(sigs.push(sig)) =~= signatures_bytes(sigs) + sig@);
    }
}

/// The full `update_price` instruction payload.
pub open spec fn instruction_data_bytes(
    r: Report,
    sigs: Seq<[u8; 64]>,
    rids: Seq<u8>,
) -> Seq<u8> {
    sha256_of(discriminator_preimage()).take(8) + price_feed_bytes(feed_of_report(r)) + le_bytes(
        sigs.len(),
        4,
    ) + signatures_bytes(sigs) + le_bytes(rids.len(), 4) + rids
}

/// Builds the byte payload a client submits to invoke `update_price`.
pub fn update_price_instruction_data(
    report: &Report,
    signatures: &Vec<[u8; 64]>,
    recovery_ids: &Vec<u8>,
) -> (out: Vec<u8>)
    requires
        signatures@.len() <= u32::MAX,
        recovery_ids@.len() <= u32::MAX,
    ensures
        out@ == instruction_data_bytes(*report, signatures@, recovery_ids@),
{
    let mut preimage: Vec<u8> = Vec::new();
    preimage.push(103);
    preimage.push(108);
    preimage.push(111);
    preimage.push(98);
    preimage.push(97);
    preimage.push(108);
    preimage.push(58);
    preimage.push(117);
    preimage.push(112);
    preimage.push(100);
    preimage.push(97);
    preimage.push(116);
    preimage.push(101);
    preimage.push(95);
    preimage.push(112);
    preimage.push(114);
    preimage.push(105);
    preimage.push(99);
    preimage.push(101);
    proof {
        assert(preimage@ =~= discriminator_preimage());
    }
    let digest = sha256(preimage.as_slice());
    let mut out: Vec<u8> = Vec::new();
    let mut k: usize = 0;
    while k < 8
        invariant
            k <= 8,
            digest@ == sha256_of(discriminator_preimage()),
            out@ == sha256_of(discriminator_preimage()).take(8).take(k as int),
        decreases 8 - k,
    {
        out.push(digest[k]);
        proof {
            let disc = sha256_of(discriminator_preimage()).take(8);
            assert(disc.take(k as int).push(disc[k as int]) =~= disc.take(k + 1));
        }
        k = k + 1;
    }
    proof {
        let disc = sha256_of(discriminator_preimage()).take(8);
        assert(disc.take(8) =~= disc);
    }
    let feed = PriceFeed {
        feed_id: report.feed_id,
        valid_time_stamp: report.valid_time_stamp,
        observe_time_stamp: report.observe_time_stamp,
        native_fee: report.native_fee,
        apro_token_fee: report.apro_token_fee,
        expire_at: report.expire_at,
        benchmark_price: report.benchmark_price,
        ask_price: report.ask_price,
        bid_price: report.bid_price,
        config_digest: report.config_digest,
        epoch_and_round: report.epoch_and_round,
        extra_hash: report.extra_hash,
    };
    proof {
        assert(feed == feed_of_report(*report));
    }
    push_price_feed_bytes(&mut out, &feed);
    push_le_bytes(&mut out, signatures.len() as u128, 4);
    proof {
        assert(le_bytes(signatures.len() as u128 as nat, 4) == le_bytes(signatures@.len(), 4));
    }
    let ghost mid = out@;
    let mut si: usize = 0;
    while si < signatures.len()
        invariant
            si <= signatures@.len(),
            out@ == mid + signatures_bytes(signatures@.take(si as int)),
        decreases signatures@.len() - si,
    {
        out.extend_from_slice(signatures[si].as_slice());
        proof {
            assert(signatures@.take(si as int).push(signatures@[si as int]) =~= signatures@.take(
                si + 1,
            ));
            lemma_signatures_bytes_push(signatures@.take(si as int), signatures@[si as int]);
        }
        si = si + 1;
    }
    proof {
        assert(signatures@.take(signatures@.len() as int) =~= signatures@);
    }
    push_le_bytes(&mut out, recovery_ids.len() as u128, 4);
    out.extend_from_slice(recovery_ids.as_slice());
    proof {
        assert(out@ =~= instruction_data_bytes(*report, signatures@, recovery_ids@));
    }
    out
}

} // verus!
