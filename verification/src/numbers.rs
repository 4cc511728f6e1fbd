//! Byte-level encodings of integers used by the wire format: 32-bit
//! big-endian fields and ASCII decimal digits for JSON payloads.

use vstd::prelude::*;

verus! {

/// The four big-endian bytes of a 32-bit value, most significant first.
pub open spec fn u32_to_be(x: u32) -> Seq<u8> {
    seq![
        ((x >> 24) & 0xff) as u8,
        ((x >> 16) & 0xff) as u8,
        ((x >> 8) & 0xff) as u8,
        (x & 0xff) as u8,
    ]
}

/// The 32-bit value read from four big-endian bytes.
pub open spec fn be_to_u32(s: Seq<u8>) -> u32
    recommends
        s.len() == 4,
{
    (((s[0] as u32) << 24) | ((s[1] as u32) << 16) | ((s[2] as u32) << 8) | (s[3] as u32))
}

/// Reading back the four big-endian bytes of a value yields the value.
pub proof fn lemma_u32_be_round_trip(x: u32)
    ensures
        u32_to_be(x).len() == 4,
        be_to_u32(u32_to_be(x)) == x,
{
    assert(((((x >> 24) & 0xff) as u8 as u32) << 24) | ((((x >> 16) & 0xff) as u8 as u32) << 16)
        | ((((x >> 8) & 0xff) as u8 as u32) << 8) | ((x & 0xff) as u8 as u32) == x)
        by (bit_vector);
}

/// Appends the four big-endian bytes of `x` to `out`.
pub fn push_u32_be(out: &mut Vec<u8>, x: u32)
    ensures
        final(out)@ == old(out)@ + u32_to_be(x),
{
    proof {
        assert((x >> 24) & 0xff < 256 && (x >> 16) & 0xff < 256 && (x >> 8) & 0xff < 256 && x
            & 0xff < 256) by (bit_vector);
    }
    out.push(((x >> 24) & 0xff) as u8);
    out.push(((x >> 16) & 0xff) as u8);
    out.push(((x >> 8) & 0xff) as u8);
    out.push((x & 0xff) as u8);
    proof {
        assert(out@ =~= old(out)@ + u32_to_be(x));
    }
}

/// Reads the 32-bit big-endian field stored at offset `i` of `data`.
pub fn read_u32_be(data: &[u8], i: usize) -> (x: u32)
    requires
        i + 4 <= data@.len(),
    ensures
        x == be_to_u32(data@.subrange(i as int, i as int + 4)),
{
    let b0 = data[i];
    let b1 = data[i + 1];
    let b2 = data[i + 2];
    let b3 = data[i + 3];
    ((b0 as u32) << 24) | ((b1 as u32) << 16) | ((b2 as u32) << 8) | (b3 as u32)
}

/// The ASCII decimal digits of `n`, without a sign and without leading
/// zeros (a single `'0'` for zero).
pub open spec fn dec_digits(n: nat) -> Seq<u8>
    decreases n,
{
    if n < 10 {
        seq![(0x30 + n) as u8]
    } else {
        dec_digits(n / 10).push((0x30 + n % 10) as u8)
    }
}

/// The ASCII decimal form of a (possibly negative) integer: an optional
/// leading `'-'` followed by the digits of its magnitude.
pub open spec fn dec_int(v: int) -> Seq<u8> {
    if v < 0 {
        seq![0x2du8] + dec_digits((-v) as nat)
    } else {
        dec_digits(v as nat)
    }
}

/// Powers of ten, for bounding digit counts.
pub open spec fn pow10(k: nat) -> nat
    decreases k,
{
    if k == 0 {
        1
    } else {
        10 * pow10((k - 1) as nat)
    }
}

/// A value below the `k`-th power of ten has at most `k` digits.
pub proof fn lemma_dec_digits_len(n: nat, k: nat)
    requires
        1 <= k,
        n < pow10(k),
    ensures
        dec_digits(n).len() <= k,
    decreases k,
{
    if n < 10 {
    } else {
        if k == 1 {
            assert(pow10(0) == 1);
            assert(pow10(1) == 10);
        }
        assert(n / 10 < pow10((k - 1) as nat)) by (nonlinear_arith)
            requires
                n < 10 * pow10((k - 1) as nat),
        ;
        lemma_dec_digits_len(n / 10, (k - 1) as nat);
    }
}

/// The tenth power of ten, written out, so that 32-bit values are seen
/// to have at most ten digits.
pub proof fn lemma_pow10_ten()
    ensures
        pow10(10) == 10_000_000_000,
{
    assert(pow10(0) == 1);
    assert(pow10(1) == 10);
    assert(pow10(2) == 100);
    assert(pow10(3) == 1000);
    assert(pow10(4) == 10000);
    assert(pow10(5) == 100000);
    assert(pow10(6) == 1000000);
    assert(pow10(7) == 10000000);
    assert(pow10(8) == 100000000);
    assert(pow10(9) == 1000000000);
    assert(pow10(10) == 10_000_000_000);
}

/// The decimal form of any 32-bit-sized integer takes at most 11 bytes.
pub proof fn lemma_dec_int_len(v: int)
    requires
        -(u32::MAX as int) <= v <= u32::MAX,
    ensures
        dec_int(v).len() <= 11,
{
    lemma_pow10_ten();
    if v < 0 {
        lemma_dec_digits_len((-v) as nat, 10);
    } else {
        lemma_dec_digits_len(v as nat, 10);
    }
}

/// Appends the decimal digits of `n` to `out`.
pub fn push_decimal_u32(out: &mut Vec<u8>, n: u32)
    ensures
        final(out)@ == old(out)@ + dec_digits(n as nat),
    decreases n,
{
    if n < 10 {
        out.push(0x30 + (n as u8));
        proof {
            assert(out@ =~= old(out)@ + dec_digits(n as nat));
        }
    } else {
        push_decimal_u32(out, n / 10);
        out.push(0x30 + ((n % 10) as u8));
        proof {
            assert(out@ =~= old(out)@ + dec_digits(n as nat));
        }
    }
}

/// Appends the decimal form of `v` (sign included) to `out`.
pub fn push_decimal_i32(out: &mut Vec<u8>, v: i32)
    requires
        v > i32::MIN,
    ensures
        final(out)@ == old(out)@ + dec_int(v as int),
{
    if v < 0 {
        out.push(0x2d);
        push_decimal_u32(out, (-v) as u32);
        proof {
            assert(out@ =~= old(out)@ + dec_int(v as int));
        }
    } else {
        push_decimal_u32(out, v as u32);
    }
}

} // verus!
