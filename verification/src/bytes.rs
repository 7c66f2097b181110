//! Byte-level views of unsigned integers.
//!
//! Report fields travel on the wire as fixed-width words: 256-bit big-endian
//! words inside the signed report encoding, and 128-bit little-endian words
//! inside the account / instruction serialization. Both directions are
//! specified here from one primitive, `le_bytes`, together with the lemmas
//! that make the encodings invertible.

use vstd::prelude::*;
use vstd::arithmetic::div_mod::{
    lemma_div_denominator, lemma_fundamental_div_mod, lemma_multiply_divide_lt,
};

verus! {

/// 256 raised to `n`: the number of values a string of `n` bytes can take.
pub open spec fn pow256(n: nat) -> nat
    decreases n,
{
    if n == 0 {
        1
    } else {
        256 * pow256((n - 1) as nat)
    }
}

pub proof fn lemma_pow256_pos(n: nat)
    ensures
        pow256(n) >= 1,
    decreases n,
{
    if n > 0 {
        lemma_pow256_pos((n - 1) as nat);
    }
}

/// The little-endian bytes of `x`, `n` of them: byte `i` holds
/// `x / 256^i % 256`.
pub open spec fn le_bytes(x: nat, n: nat) -> Seq<u8> {
    Seq::new(n, |i: int| ((x / pow256(i as nat)) % 256) as u8)
}

/// The big-endian bytes of `x`, `n` of them: the little-endian bytes
/// read back to front.
pub open spec fn be_bytes(x: nat, n: nat) -> Seq<u8> {
    Seq::new(n, |i: int| ((x / pow256((n - 1 - i) as nat)) % 256) as u8)
}

/// The number a little-endian byte string denotes.
pub open spec fn le_val(s: Seq<u8>) -> nat
    decreases s.len(),
{
    if s.len() == 0 {
        0
    } else {
        (s[0] + 256 * le_val(s.drop_first())) as nat
    }
}

/// Reading the little-endian bytes of `x` back gives `x`.
pub proof fn lemma_le_bytes_val(x: nat, n: nat)
    requires
        x < pow256(n),
    ensures
        le_val(le_bytes(x, n)) == x,
    decreases n,
{
    if n == 0 {
        assert(x == 0);
    } else {
        let s = le_bytes(x, n);
        assert(s[0] == (x / pow256(0)) % 256);
        assert(x / 1 == x as int);
        assert(s.drop_first() =~= le_bytes(x / 256, (n - 1) as nat)) by {
            assert forall|i: int| 0 <= i < n - 1 implies s.drop_first()[i] == le_bytes(
                x / 256,
                (n - 1) as nat,
            )[i] by {
                lemma_pow256_pos(i as nat);
                lemma_div_denominator(x as int, 256, pow256(i as nat) as int);
                assert(pow256((i + 1) as nat) == 256 * pow256(i as nat));
            }
        }
        assert(x / 256 < pow256((n - 1) as nat)) by {
            lemma_pow256_pos((n - 1) as nat);
            lemma_multiply_divide_lt(x as int, 256, pow256((n - 1) as nat) as int);
        }
        lemma_le_bytes_val(x / 256, (n - 1) as nat);
        lemma_fundamental_div_mod(x as int, 256);
    }
}

/// Two numbers below `256^n` with the same little-endian bytes are equal.
pub proof fn lemma_le_bytes_injective(x: nat, y: nat, n: nat)
    requires
        x < pow256(n),
        y < pow256(n),
        le_bytes(x, n) == le_bytes(y, n),
    ensures
        x == y,
{
    lemma_le_bytes_val(x, n);
    lemma_le_bytes_val(y, n);
}

/// Two numbers below `256^n` with the same big-endian bytes are equal.
pub proof fn lemma_be_bytes_injective(x: nat, y: nat, n: nat)
    requires
        x < pow256(n),
        y < pow256(n),
        be_bytes(x, n) == be_bytes(y, n),
    ensures
        x == y,
{
    assert(le_bytes(x, n) =~= le_bytes(y, n)) by {
        assert forall|i: int| 0 <= i < n implies le_bytes(x, n)[i] == le_bytes(y, n)[i] by {
            assert(be_bytes(x, n)[n - 1 - i] == le_bytes(x, n)[i]);
            assert(be_bytes(y, n)[n - 1 - i] == le_bytes(y, n)[i]);
        }
    }
    lemma_le_bytes_injective(x, y, n);
}

/// `2^128`, the byte strings of length 16, as `pow256` sees it.
pub proof fn lemma_pow256_16()
    ensures
        pow256(16) == 0x100000000000000000000000000000000,
{
    reveal_with_fuel(pow256, 17);
}

/// Appends the first `width` little-endian bytes of `x` to `out`.
pub fn push_le_bytes(out: &mut Vec<u8>, x: u128, width: usize)
    ensures
        final(out)@ == old(out)@ + le_bytes(x as nat, width as nat),
{
    proof {
        assert(pow256(0) == 1);
        assert(x as nat / 1 == x as nat);
        assert(le_bytes(x as nat, width as nat).take(0) =~= Seq::<u8>::empty());
    }
    let ghost base = out@;
    let mut v: u128 = x;
    let mut k: usize = 0;
    while k < width
        invariant
            k <= width,
            v as nat == x as nat / pow256(k as nat),
            out@ == base + le_bytes(x as nat, width as nat).take(k as int),
        decreases width - k,
    {
        out.push((v % 256) as u8);
        proof {
            assert((v % 256) as u8 == le_bytes(x as nat, width as nat)[k as int]);
            assert(le_bytes(x as nat, width as nat).take(k as int).push(
                le_bytes(x as nat, width as nat)[k as int],
            ) =~= le_bytes(x as nat, width as nat).take(k + 1));
            lemma_pow256_pos(k as nat);
            lemma_div_denominator(x as int, pow256(k as nat) as int, 256);
            assert(pow256((k + 1) as nat) == 256 * pow256(k as nat));
            assert(pow256(k as nat) * 256 == 256 * pow256(k as nat));
        }
        v = v / 256;
        k = k + 1;
    }
    proof {
        assert(le_bytes(x as nat, width as nat).take(width as int) =~= le_bytes(
            x as nat,
            width as nat,
        ));
    }
}

/// Reads 32 raw bytes from `data` at offset `off`.
pub fn read_bytes32(data: &[u8], off: usize) -> (r: [u8; 32])
    requires
        off + 32 <= data@.len(),
    ensures
        r@ == data@.subrange(off as int, off as int + 32),
{
    let len = data.len();
    let mut r = [0u8; 32];
    let mut i: usize = 0;
    while i < 32
        invariant
            i <= 32,
            off + 32 <= len == data@.len(),
            forall|j: int| 0 <= j < i ==> r@[j] == data@[off + j],
        decreases 32 - i,
    {
        r[i] = data[off + i];
        i = i + 1;
    }
    proof {
        assert(r@ =~= data@.subrange(off as int, off as int + 32));
    }
    r
}

/// Reads a 128-bit little-endian word from `data` at offset `off`.
pub fn read_u128_le(data: &[u8], off: usize) -> (x: u128)
    requires
        off + 16 <= data@.len(),
    ensures
        x as nat == le_val(data@.subrange(off as int, off as int + 16)),
{
    proof {
        lemma_pow256_16();
    }
    let len = data.len();
    let mut v: u128 = 0;
    let mut k: usize = 16;
    while k > 0
        invariant
            k <= 16,
            off + 16 <= len == data@.len(),
            v as nat == le_val(data@.subrange(off + k, off as int + 16)),
            (v as nat) < pow256((16 - k) as nat),
        decreases k,
    {
        k = k - 1;
        let b = data[off + k];
        proof {
            let s = data@.subrange(off + k, off as int + 16);
            assert(s[0] == data@[off + k]);
            assert(s.drop_first() =~= data@.subrange(off + k + 1, off as int + 16));
            assert(pow256((16 - k) as nat) == 256 * pow256((16 - k - 1) as nat));
            lemma_pow256_16();
            assert(pow256((16 - k) as nat) <= pow256(16)) by {
                lemma_pow256_mono((16 - k) as nat, 16);
            }
        }
        v = v * 256 + b as u128;
    }
    proof {
        assert(data@.subrange(off as int, off as int + 16) =~= data@.subrange(
            off + 0,
            off as int + 16,
        ));
    }
    v
}

pub proof fn lemma_pow256_mono(m: nat, n: nat)
    requires
        m <= n,
    ensures
        pow256(m) <= pow256(n),
    decreases n,
{
    if m < n {
        lemma_pow256_mono(m, (n - 1) as nat);
        lemma_pow256_pos((n - 1) as nat);
    }
}

/// Byte-for-byte equality of two fixed-size arrays.
pub fn eq_bytes<const N: usize>(a: &[u8; N], b: &[u8; N]) -> (r: bool)
    ensures
        r == (a@ == b@),
{
    let mut i: usize = 0;
    while i < N
        invariant
            i <= N,
            forall|j: int| 0 <= j < i ==> a@[j] == b@[j],
        decreases N - i,
    {
        if a[i] != b[i] {
            return false;
        }
        i = i + 1;
    }
    proof {
        assert(a@ =~= b@);
    }
    true
}

} // verus!
