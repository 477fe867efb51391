//! Byte strings: little-endian numbers and comparison of ranges.

use vstd::prelude::*;

verus! {

/// The first `width` bytes of `value` written little-endian: the lowest byte
/// comes first.
pub open spec fn le_bytes(value: nat, width: nat) -> Seq<u8>
    decreases width,
{
    if width == 0 {
        Seq::<u8>::empty()
    } else {
        seq![(value % 256) as u8] + le_bytes(value / 256, (width - 1) as nat)
    }
}

/// The number that the bytes spell when read little-endian.
pub open spec fn le_value(bytes: Seq<u8>) -> nat
    decreases bytes.len(),
{
    if bytes.len() == 0 {
        0
    } else {
        bytes[0] as nat + 256 * le_value(bytes.drop_first())
    }
}

/// The 64-bit pattern of a signed number: itself when it is not negative,
/// and 2^64 more than itself when it is.
pub open spec fn twos_complement(x: int) -> nat {
    if x >= 0 {
        x as nat
    } else {
        (x + 0x1_0000_0000_0000_0000) as nat
    }
}

/// `le_bytes` yields exactly `width` bytes.
pub proof fn le_bytes_len(value: nat, width: nat)
    ensures
        le_bytes(value, width).len() == width,
    decreases width,
{
    if width > 0 {
        le_bytes_len(value / 256, (width - 1) as nat);
    }
}

/// Two bytes read little-endian are the first plus 256 times the second.
pub proof fn le_value_of_pair(bytes: Seq<u8>)
    requires
        bytes.len() == 2,
    ensures
        le_value(bytes) == bytes[0] as nat + 256 * (bytes[1] as nat),
{
    let tail = bytes.drop_first();
    assert(tail.len() == 1);
    assert(tail[0] == bytes[1]);
    assert(tail.drop_first().len() == 0);
    assert(le_value(tail.drop_first()) == 0);
    assert(le_value(tail) == tail[0] as nat + 256 * le_value(tail.drop_first()));
}

/// Reading back what was written gives the number again, as far as the
/// width holds it.
pub proof fn le_round_trip(value: nat, width: nat)
    ensures
        le_value(le_bytes(value, width)) == value % vstd::arithmetic::power::pow(256, width) as nat,
    decreases width,
{
    let p = vstd::arithmetic::power::pow(256, width);
    if width == 0 {
        assert(p == 1) by {
            vstd::arithmetic::power::lemma_pow0(256);
        }
    } else {
        let w = (width - 1) as nat;
        let q = vstd::arithmetic::power::pow(256, w);
        let bytes = le_bytes(value, width);
        le_bytes_len(value, width);
        le_round_trip(value / 256, w);
        assert(bytes.drop_first() =~= le_bytes(value / 256, w));
        assert(bytes[0] == (value % 256) as u8);
        assert(p == 256 * q) by {
            vstd::arithmetic::power::lemma_pow_positive(256, w);
            reveal(vstd::arithmetic::power::pow);
        }
        assert(q > 0) by {
            vstd::arithmetic::power::lemma_pow_positive(256, w);
        }
        assert(value % 256 + 256 * ((value / 256) % (q as nat)) == value % ((256 * q) as nat)) by {
            vstd::arithmetic::div_mod::lemma_breakdown(value as int, 256, q);
            assert(value as int % (256 * q) == 256 * ((value as int / 256) % q) + value as int
                % 256);
        }
    }
}

/// Numbers that fit the width are told apart by their bytes.
pub proof fn le_bytes_tell_apart(a: nat, b: nat, width: nat)
    requires
        a < vstd::arithmetic::power::pow(256, width),
        b < vstd::arithmetic::power::pow(256, width),
        le_bytes(a, width) == le_bytes(b, width),
    ensures
        a == b,
{
    le_round_trip(a, width);
    le_round_trip(b, width);
    let p = vstd::arithmetic::power::pow(256, width) as nat;
    assert(a % p == a) by {
        vstd::arithmetic::div_mod::lemma_small_mod(a, p);
    }
    assert(b % p == b) by {
        vstd::arithmetic::div_mod::lemma_small_mod(b, p);
    }
}

/// Appends `bytes` to `out`.
pub fn append(out: &mut Vec<u8>, bytes: &[u8])
    ensures
        final(out)@ == old(out)@ + bytes@,
{
    let ghost start = out@;
    let mut i: usize = 0;
    while i < bytes.len()
        invariant
            i <= bytes@.len(),
            out@ == start + bytes@.subrange(0, i as int),
        decreases bytes@.len() - i,
    {
        out.push(bytes[i]);
        i = i + 1;
        assert(out@ =~= start + bytes@.subrange(0, i as int));
    }
    assert(bytes@.subrange(0, i as int) =~= bytes@);
}

/// Appends the lowest `width` bytes of `value`, lowest first.
pub fn append_le(out: &mut Vec<u8>, value: u64, width: usize)
    requires
        width <= 8,
    ensures
        final(out)@ == old(out)@ + le_bytes(value as nat, width as nat),
{
    let ghost start = out@;
    let mut rest: u64 = value;
    let mut i: usize = 0;
    while i < width
        invariant
            i <= width,
            out@ + le_bytes(rest as nat, (width - i) as nat) == start + le_bytes(
                value as nat,
                width as nat,
            ),
        decreases width - i,
    {
        let ghost before = out@;
        let low: u8 = (rest % 256) as u8;
        out.push(low);
        proof {
            let tail = le_bytes((rest / 256) as nat, (width - i - 1) as nat);
            assert(le_bytes(rest as nat, (width - i) as nat) == seq![low] + tail);
            assert(before.push(low) + tail =~= before + (seq![low] + tail));
        }
        rest = rest / 256;
        i = i + 1;
    }
    assert(out@ + Seq::<u8>::empty() =~= out@);
}

/// The 64-bit pattern of a signed number.
pub fn unsigned_image(x: i64) -> (u: u64)
    ensures
        u == twos_complement(x as int),
{
    if x >= 0 {
        x as u64
    } else {
        let lifted: i64 = (x + i64::MAX) + 1;
        lifted as u64 + 0x8000_0000_0000_0000u64
    }
}

/// The two bytes of `data` from `at` on, read little-endian.
pub fn read_u16_le(data: &[u8], at: usize) -> (v: u16)
    requires
        at + 2 <= data@.len(),
    ensures
        v == le_value(data@.subrange(at as int, at + 2)),
{
    proof {
        let pair = data@.subrange(at as int, at + 2);
        le_value_of_pair(pair);
    }
    let low: u16 = data[at] as u16;
    let high: u16 = data[at + 1] as u16;
    low + 256 * high
}

/// Whether `data` holds exactly `expected` from `at` on.
pub fn holds_at(data: &[u8], at: usize, expected: &[u8]) -> (r: bool)
    requires
        at + expected@.len() <= data@.len(),
    ensures
        r == (data@.subrange(at as int, at + expected@.len()) == expected@),
{
    let ghost window = data@.subrange(at as int, at + expected@.len());
    let total: usize = data.len();
    let mut i: usize = 0;
    while i < expected.len()
        invariant
            i <= expected@.len(),
            total == data@.len(),
            at + expected@.len() <= data@.len(),
            window == data@.subrange(at as int, at + expected@.len()),
            forall|j: int| 0 <= j < i ==> window[j] == expected@[j],
        decreases expected@.len() - i,
    {
        if data[at + i] != expected[i] {
            assert(window[i as int] != expected@[i as int]);
            return false;
        }
        i = i + 1;
    }
    assert(window =~= expected@);
    true
}

} // verus!
