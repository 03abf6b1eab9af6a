//! Bit and bit-range extraction from a 32-bit word.
//!
//! The contracts speak of a word as a natural number: bit `i` is the
//! coefficient of `2^i`, and the range `[start, end)` is the quotient by
//! `2^start` reduced modulo `2^(end - start)`.

use vstd::arithmetic::power2::{lemma2_to64, lemma_pow2_pos, pow2};
use vstd::bits::{
    lemma_u32_low_bits_mask_is_mod, lemma_u32_shl_is_mul, lemma_u32_shr_is_div, low_bits_mask,
};
use vstd::prelude::*;

verus! {

/// `2^i`. The powers that a 32-bit word can be divided by are written out,
/// so that bit positions given as numbers lead to plain division.
#[verifier::inline]
pub open spec fn weight(i: nat) -> nat {
    if i == 0 {
        0x1
    } else if i == 1 {
        0x2
    } else if i == 2 {
        0x4
    } else if i == 3 {
        0x8
    } else if i == 4 {
        0x10
    } else if i == 5 {
        0x20
    } else if i == 6 {
        0x40
    } else if i == 7 {
        0x80
    } else if i == 8 {
        0x100
    } else if i == 9 {
        0x200
    } else if i == 10 {
        0x400
    } else if i == 11 {
        0x800
    } else if i == 12 {
        0x1000
    } else if i == 13 {
        0x2000
    } else if i == 14 {
        0x4000
    } else if i == 15 {
        0x8000
    } else if i == 16 {
        0x1_0000
    } else if i == 17 {
        0x2_0000
    } else if i == 18 {
        0x4_0000
    } else if i == 19 {
        0x8_0000
    } else if i == 20 {
        0x10_0000
    } else if i == 21 {
        0x20_0000
    } else if i == 22 {
        0x40_0000
    } else if i == 23 {
        0x80_0000
    } else if i == 24 {
        0x100_0000
    } else if i == 25 {
        0x200_0000
    } else if i == 26 {
        0x400_0000
    } else if i == 27 {
        0x800_0000
    } else if i == 28 {
        0x1000_0000
    } else if i == 29 {
        0x2000_0000
    } else if i == 30 {
        0x4000_0000
    } else if i == 31 {
        0x8000_0000
    } else if i == 32 {
        0x1_0000_0000
    } else {
        pow2(i)
    }
}

/// Whether bit `i` of `val` is set: the coefficient of `2^i` in `val`.
#[verifier::inline]
pub open spec fn bit_at(val: u32, i: nat) -> bool {
    (val as nat / weight(i)) % 2 == 1
}

/// The bits of `val` in the half-open range `[start, end)`, moved down to
/// the low-order positions. An empty range holds no bits and is worth 0.
#[verifier::inline]
pub open spec fn bit_range(val: u32, start: nat, end: nat) -> nat {
    if start < end {
        (val as nat / weight(start)) % weight((end - start) as nat)
    } else {
        0
    }
}

/// The written-out powers are the powers of two.
pub proof fn lemma_weight_is_power_of_two(i: nat)
    ensures
        weight(i) == pow2(i),
{
    lemma2_to64();
}

/// The `n` lowest bits set, for `n` up to the width of the word.
spec fn low_mask(n: u32) -> u32 {
    if n >= 32 {
        0xffff_ffffu32
    } else {
        ((1u32 << n) - 1) as u32
    }
}

/// The mask with exactly the bits of `[start, end)` set.
spec fn range_mask(start: u32, end: u32) -> u32 {
    low_mask((end - start) as u32) << start
}

/// A 32-bit word seen as a set of bit positions.
#[derive(Clone, Copy, Debug)]
pub struct BitSet32 {
    val: u32,
}

impl View for BitSet32 {
    type V = u32;

    closed spec fn view(&self) -> u32 {
        self.val
    }
}

/// Setting bit `i` extends the mask of `[start, i)` to that of
/// `[start, i + 1)`.
proof fn lemma_range_mask_extend(mask: u32, start: u32, i: u32)
    requires
        start <= i < 32,
        mask == range_mask(start, i),
    ensures
        mask | (1u32 << i) == range_mask(start, (i + 1) as u32),
{
    assert(start <= i < 32 ==> (low_mask((i - start) as u32) << start) | (1u32 << i) == low_mask(
        ((i + 1) as u32 - start) as u32,
    ) << start) by (bit_vector);
}

/// Masking `[start, end)` and shifting down by `start` yields the quotient
/// by `2^start` modulo `2^(end - start)`.
proof fn lemma_masked_shift_is_range(val: u32, start: u32, end: u32)
    requires
        start < end <= 32,
    ensures
        (val & range_mask(start, end)) >> start == bit_range(val, start as nat, end as nat),
{
    let n = (end - start) as u32;
    let q = val >> start;
    assert(start < end <= 32 ==> (val & (low_mask((end - start) as u32) << start)) >> start == (val
        >> start) & low_mask((end - start) as u32)) by (bit_vector);
    lemma_u32_shr_is_div(val, start);
    lemma2_to64();
    if n < 32 {
        lemma_u32_shl_is_mul(1u32, n);
        lemma_pow2_pos(n as nat);
        assert(low_mask(n) == low_bits_mask(n as nat) as u32);
        lemma_u32_low_bits_mask_is_mod(q, n as nat);
        assert(q & low_mask(n) == q % (pow2(n as nat) as u32));
    } else {
        assert(q & 0xffff_ffffu32 == q) by (bit_vector);
        assert(val >> 0u32 == val) by (bit_vector);
        assert(pow2(0) == 1 && pow2(32) == 0x1_0000_0000);
        assert(val as nat / 1 == val);
        assert(val as nat % 0x1_0000_0000 == val);
    }
}

impl BitSet32 {
    /// Wraps `v`.
    pub fn new(v: u32) -> (r: BitSet32)
        ensures
            r@ == v,
    {
        BitSet32 { val: v }
    }

    /// Tells whether bit `i` is set.
    pub fn get(&self, i: usize) -> (r: bool)
        requires
            i < 32,
        ensures
            r == bit_at(self@, i as nat),
    {
        let r = (self.val & (1u32 << (i as u32))) != 0;
        proof {
            let v = self.val;
            let s = i as u32;
            assert(s < 32 ==> (((v & (1u32 << s)) != 0) <==> ((v >> s) & 1 == 1))) by (bit_vector);
            lemma_u32_shr_is_div(v, s);
            lemma_weight_is_power_of_two(i as nat);
            let q = v >> s;
            assert(q & 1 == q % 2) by (bit_vector);
        }
        r
    }

    /// Extracts the bits in `[start, end)` as an unsigned number.
    pub fn get_many(&self, start: usize, end: usize) -> (r: u32)
        requires
            end <= 32,
        ensures
            r == bit_range(self@, start as nat, end as nat),
    {
        if start >= end {
            return 0;
        }
        let mut mask: u32 = 0;
        proof {
            let s = start as u32;
            assert(low_mask(0u32) << s == 0) by (bit_vector);
        }
        for i in start..end
            invariant
                start < end <= 32,
                mask == range_mask(start as u32, i as u32),
        {
            proof {
                lemma_range_mask_extend(mask, start as u32, i as u32);
            }
            mask |= 1u32 << (i as u32);
        }
        let r = (self.val & mask) >> (start as u32);
        proof {
            lemma_masked_shift_is_range(self.val, start as u32, end as u32);
        }
        r
    }

    /// The positions set in both words.
    pub fn and(&self, other: BitSet32) -> (r: BitSet32)
        ensures
            r@ == self@ & other@,
    {
        BitSet32 { val: self.val & other.val }
    }

    /// The positions set in either word.
    pub fn or(&self, other: BitSet32) -> (r: BitSet32)
        ensures
            r@ == self@ | other@,
    {
        BitSet32 { val: self.val | other.val }
    }

    /// The positions set in exactly one of the two words.
    pub fn xor(&self, other: BitSet32) -> (r: BitSet32)
        ensures
            r@ == self@ ^ other@,
    {
        BitSet32 { val: self.val ^ other.val }
    }
}

} // verus!
