//! Fixed-width integers as little-endian bytes.
//!
//! Option values and address records cross the engine boundary as bytes.
//! The functions here state that byte order once, with its round trips.

use vstd::prelude::*;

verus! {

/// The number whose little-endian digits, base 256, are `bytes`.
pub open spec fn le_value(bytes: Seq<u8>) -> nat
    decreases bytes.len(),
{
    if bytes.len() == 0 {
        0
    } else {
        bytes[0] as nat + 256 * le_value(bytes.subrange(1, bytes.len() as int))
    }
}

/// The `width` little-endian digits, base 256, of `value`.
pub open spec fn le_digits(value: nat, width: nat) -> Seq<u8>
    decreases width,
{
    if width == 0 {
        Seq::<u8>::empty()
    } else {
        seq![(value % 256) as u8] + le_digits(value / 256, (width - 1) as nat)
    }
}

/// 256 to the power `width`.
pub open spec fn radix_pow(width: nat) -> nat
    decreases width,
{
    if width == 0 {
        1
    } else {
        256 * radix_pow((width - 1) as nat)
    }
}

/// `le_digits` always yields `width` bytes.
pub proof fn le_digits_len(value: nat, width: nat)
    ensures
        le_digits(value, width).len() == width,
    decreases width,
{
    if width > 0 {
        le_digits_len(value / 256, (width - 1) as nat);
    }
}

/// A sequence of bytes stands for a number below 256 to the power of its
/// length.
pub proof fn le_value_bound(bytes: Seq<u8>)
    ensures
        le_value(bytes) < radix_pow(bytes.len()),
    decreases bytes.len(),
{
    if bytes.len() > 0 {
        le_value_bound(bytes.subrange(1, bytes.len() as int));
    }
}

/// Reading the digits of a number that fits gives the number back.
pub proof fn le_value_of_digits(value: nat, width: nat)
    requires
        value < radix_pow(width),
    ensures
        le_value(le_digits(value, width)) == value,
    decreases width,
{
    if width > 0 {
        let rest = le_digits(value / 256, (width - 1) as nat);
        let all = le_digits(value, width);
        le_digits_len(value / 256, (width - 1) as nat);
        assert(all.subrange(1, all.len() as int) =~= rest);
        le_value_of_digits(value / 256, (width - 1) as nat);
    }
}

/// Writing the digits of the number that bytes stand for gives the bytes
/// back.
pub proof fn le_digits_of_value(bytes: Seq<u8>)
    ensures
        le_digits(le_value(bytes), bytes.len()) == bytes,
    decreases bytes.len(),
{
    if bytes.len() > 0 {
        let rest = bytes.subrange(1, bytes.len() as int);
        le_digits_of_value(rest);
        let v = le_value(bytes);
        assert(v % 256 == bytes[0] as nat);
        assert(v / 256 == le_value(rest));
        assert(le_digits(v, bytes.len()) =~= bytes);
    } else {
        assert(le_digits(le_value(bytes), 0) =~= bytes);
    }
}

/// Reads `width` bytes of `bytes` from `start` as a little-endian number.
pub fn read_le(bytes: &[u8], start: usize, width: usize) -> (value: u64)
    requires
        width <= 8,
        start + width <= bytes@.len(),
    ensures
        value as nat == le_value(bytes@.subrange(start as int, start + width)),
{
    let total: usize = bytes.len();
    let mut value: u64 = 0;
    let mut i: usize = width;
    while i > 0
        invariant
            i <= width,
            width <= 8,
            start + width <= bytes@.len(),
            bytes@.len() == total,
            value as nat == le_value(bytes@.subrange(start + i, start + width)),
            value as nat <= radix_pow((width - i) as nat) - 1,
        decreases i,
    {
        proof {
            let tail = bytes@.subrange(start + i, start + width);
            let next = bytes@.subrange(start + i - 1, start + width);
            assert(next.subrange(1, next.len() as int) =~= tail);
            assert(next[0] == bytes@[start + i - 1]);
            radix_pow_small((width - i) as nat);
        }
        i = i - 1;
        value = value * 256 + bytes[start + i] as u64;
    }
    value
}

/// The powers of 256 that fit in 64 bits.
pub proof fn radix_pow_small(width: nat)
    requires
        width <= 8,
    ensures
        width == 0 ==> radix_pow(width) == 1,
        width == 1 ==> radix_pow(width) == 0x100,
        width == 2 ==> radix_pow(width) == 0x1_0000,
        width == 3 ==> radix_pow(width) == 0x100_0000,
        width == 4 ==> radix_pow(width) == 0x1_0000_0000,
        width == 5 ==> radix_pow(width) == 0x100_0000_0000,
        width == 6 ==> radix_pow(width) == 0x1_0000_0000_0000,
        width == 7 ==> radix_pow(width) == 0x100_0000_0000_0000,
        width == 8 ==> radix_pow(width) == 0x1_0000_0000_0000_0000,
    decreases width,
{
    if width > 0 {
        radix_pow_small((width - 1) as nat);
    }
}

/// Appends the `width` little-endian bytes of `value` to `out`.
pub fn write_le(out: &mut Vec<u8>, value: u64, width: usize)
    requires
        width <= 8,
    ensures
        final(out)@ == old(out)@ + le_digits(value as nat, width as nat),
{
    let mut rest: u64 = value;
    let mut i: usize = 0;
    let ghost start = out@;
    proof {
        assert(le_digits(value as nat, 0) =~= Seq::<u8>::empty());
        assert(out@ =~= start + le_digits(value as nat, 0));
    }
    while i < width
        invariant
            i <= width,
            width <= 8,
            forall|k: nat| #![trigger le_digits(rest as nat, k)]
                start + le_digits(value as nat, i as nat + k) == out@ + le_digits(rest as nat, k),
        decreases width - i,
    {
        let ghost before = out@;
        let ghost prev = rest;
        let digit: u8 = (rest % 256) as u8;
        out.push(digit);
        rest = rest / 256;
        i = i + 1;
        proof {
            assert forall|k: nat| #![trigger le_digits(rest as nat, k)]
                start + le_digits(value as nat, i as nat + k) == out@ + le_digits(rest as nat, k)
            by {
                assert(le_digits(prev as nat, k + 1) =~= seq![digit] + le_digits(rest as nat, k));
                assert(start + le_digits(value as nat, (i - 1) as nat + (k + 1)) == before
                    + le_digits(prev as nat, k + 1));
                assert((i - 1) as nat + (k + 1) == i as nat + k);
                assert(out@ =~= before + seq![digit]);
                assert(before + (seq![digit] + le_digits(rest as nat, k)) =~= out@ + le_digits(
                    rest as nat,
                    k,
                ));
            }
        }
    }
    proof {
        assert(le_digits(rest as nat, 0) =~= Seq::<u8>::empty());
        assert(out@ + le_digits(rest as nat, 0) =~= out@);
        assert(i as nat + 0 == width as nat);
    }
}

} // verus!

verus! {

/// The index of the first NUL byte of `bytes`, or their length where there
/// is none.
pub open spec fn nul_index(bytes: Seq<u8>) -> int
    decreases bytes.len(),
{
    if bytes.len() == 0 || bytes[0] == 0 {
        0
    } else {
        1 + nul_index(bytes.drop_first())
    }
}

/// `nul_index` is within the bytes, nothing before it is NUL, and the byte
/// at it is NUL where there is one.
pub proof fn nul_index_is_first(bytes: Seq<u8>)
    ensures
        0 <= nul_index(bytes) <= bytes.len(),
        forall|i: int| 0 <= i < nul_index(bytes) ==> bytes[i] != 0,
        nul_index(bytes) < bytes.len() ==> bytes[nul_index(bytes)] == 0,
    decreases bytes.len(),
{
    if !(bytes.len() == 0 || bytes[0] == 0) {
        let rest = bytes.drop_first();
        nul_index_is_first(rest);
        assert forall|i: int| 0 <= i < nul_index(bytes) implies bytes[i] != 0 by {
            if i > 0 {
                assert(bytes[i] == rest[i - 1]);
            }
        }
        assert(nul_index(bytes) < bytes.len() ==> bytes[nul_index(bytes)] == rest[nul_index(rest)]);
    }
}

/// An index with a NUL byte and none before it is `nul_index`; so is the
/// length of bytes that hold none.
pub proof fn nul_index_unique(bytes: Seq<u8>, at: int)
    requires
        0 <= at <= bytes.len(),
        forall|i: int| 0 <= i < at ==> bytes[i] != 0,
        at < bytes.len() ==> bytes[at] == 0,
    ensures
        nul_index(bytes) == at,
{
    nul_index_is_first(bytes);
    let found = nul_index(bytes);
    if found < at {
        assert(bytes[found] == 0);
    } else if at < found {
        assert(bytes[at] != 0);
    }
}

/// Finds the first NUL byte of `bytes`.
pub fn find_nul(bytes: &[u8]) -> (at: Option<usize>)
    ensures
        match at {
            Some(i) => i == nul_index(bytes@) && i < bytes@.len(),
            None => nul_index(bytes@) == bytes@.len(),
        },
{
    let total: usize = bytes.len();
    let mut i: usize = 0;
    while i < total
        invariant
            i <= total,
            total == bytes@.len(),
            forall|k: int| 0 <= k < i ==> bytes@[k] != 0,
        decreases total - i,
    {
        if bytes[i] == 0 {
            proof {
                nul_index_unique(bytes@, i as int);
            }
            return Some(i);
        }
        i = i + 1;
    }
    proof {
        nul_index_unique(bytes@, total as int);
    }
    None
}

} // verus!
