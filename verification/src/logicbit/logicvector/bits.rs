//! Single bits of a 128-bit word, and the facts about them that the packed
//! vector rests on.

use vstd::prelude::*;

verus! {

/// Whether bit `i` of `m` is set, for a position the word has.
pub open spec fn get(m: u128, i: u32) -> bool {
    (m >> i) & 1 == 1
}

/// Whether bit `i` of `m` is set. No position outside the word is set.
pub open spec fn bit(m: u128, i: int) -> bool {
    0 <= i < 128 && get(m, i as u32)
}

/// The word whose bits below `width` are set and no others.
pub open spec fn low_mask(width: int) -> u128 {
    if width >= 128 {
        u128::MAX
    } else if width <= 0 {
        0
    } else {
        (((1u128 << (width as u32)) - 1) as u128)
    }
}

/// The position of the lowest set bit of a word that is not zero.
pub open spec fn lowest_set(x: u128) -> u32 {
    let na = if x & 0xffff_ffff_ffff_ffff == 0 { 64u32 } else { 0u32 };
    let a = x >> na;
    let nb = if a & 0xffff_ffff == 0 { 32u32 } else { 0u32 };
    let b = a >> nb;
    let nc = if b & 0xffff == 0 { 16u32 } else { 0u32 };
    let c = b >> nc;
    let nd = if c & 0xff == 0 { 8u32 } else { 0u32 };
    let d = c >> nd;
    let ne = if d & 0xf == 0 { 4u32 } else { 0u32 };
    let e = d >> ne;
    let nf = if e & 0x3 == 0 { 2u32 } else { 0u32 };
    let f = e >> nf;
    let ng = if f & 0x1 == 0 { 1u32 } else { 0u32 };
    (na + nb + nc + nd + ne + nf + ng) as u32
}

/// How the bitwise operators act on single bits.
pub proof fn lemma_bit_ops()
    by (bit_vector)
    ensures
        forall|a: u128, b: u128, i: u32| i < 128 ==> #[trigger] get(a | b, i) == (get(a, i) || get(b, i)),
        forall|a: u128, b: u128, i: u32| i < 128 ==> #[trigger] get(a & b, i) == (get(a, i) && get(b, i)),
        forall|a: u128, b: u128, i: u32| i < 128 ==> #[trigger] get(a ^ b, i) == (get(a, i) != get(b, i)),
        forall|a: u128, i: u32| i < 128 ==> #[trigger] get(!a, i) == !get(a, i),
        forall|i: u32| i < 128 ==> !#[trigger] get(0u128, i),
        forall|i: u32| i < 128 ==> #[trigger] get(0xffff_ffff_ffff_ffff_ffff_ffff_ffff_ffffu128, i),
{
}

/// The bits of a word with a single bit set.
pub proof fn lemma_bit_single(i: u32, j: u32)
    by (bit_vector)
    requires
        i < 128,
        j < 128,
    ensures
        get(1u128 << i, j) == (i == j),
{
}

/// The bits of a word whose low bits are set.
pub proof fn lemma_bit_low(w: u32, j: u32)
    by (bit_vector)
    requires
        0 < w < 128,
        j < 128,
    ensures
        get(((1u128 << w) - 1) as u128, j) == (j < w),
        (1u128 << w) >= 1,
{
}

/// The bits of a word shifted down.
pub proof fn lemma_bit_shr(a: u128, n: u32, j: u32)
    by (bit_vector)
    requires
        n < 128,
        j < 128,
    ensures
        get(a >> n, j) == (j < 128 - n && get(a, (j + n) as u32)),
{
}

/// The bits of a word that was moved up by one position and got a new lowest
/// bit.
pub proof fn lemma_bit_appended(x: u128, lowest: bool, j: u32)
    by (bit_vector)
    requires
        j < 128,
    ensures
        get((x << 1u32) | (if lowest { 1u128 } else { 0u128 }), j) == if j == 0 {
            lowest
        } else {
            get(x, (j - 1) as u32)
        },
{
}

/// A word that is not zero has a set bit, at the position `lowest_set` names.
pub proof fn lemma_lowest_set(x: u128)
    by (bit_vector)
    requires
        x != 0,
    ensures
        lowest_set(x) < 128,
        get(x, lowest_set(x)),
{
}

/// A word that is at most the low mask of a width has no bit at or above it.
pub proof fn lemma_bit_above(v: u128, w: u32, j: u32)
    by (bit_vector)
    requires
        0 < w < 128,
        v <= ((1u128 << w) - 1) as u128,
        w <= j < 128,
    ensures
        !get(v, j),
{
}

/// Keeping the low bits of the sum of two numbers that fit them takes the
/// power of two above them off the sum once, where the sum reaches it.
pub proof fn lemma_mask_wraps_once(t: u128, w: u32)
    by (bit_vector)
    requires
        0 < w < 128,
        t <= 2 * (((1u128 << w) - 1) as u128),
    ensures
        t & (((1u128 << w) - 1) as u128) == if t > (((1u128 << w) - 1) as u128) {
            (t - (((1u128 << w) - 1) as u128) - 1) as u128
        } else {
            t
        },
        (((1u128 << w) - 1) as u128) < 0x8000_0000_0000_0000_0000_0000_0000_0000u128,
{
}

/// A word masked by another is at most that other word.
pub proof fn lemma_masked_at_most(t: u128, m: u128)
    by (bit_vector)
    ensures
        t & m <= m,
        t & 0xffff_ffff_ffff_ffff_ffff_ffff_ffff_ffffu128 == t,
{
}

/// The bits of `low_mask`.
pub proof fn lemma_low_mask(width: int, j: int)
    requires
        0 <= width <= 128,
    ensures
        bit(low_mask(width), j) == (0 <= j < width),
{
    if 0 <= j < 128 {
        lemma_bit_ops();
        if 0 < width < 128 {
            lemma_bit_low(width as u32, j as u32);
        }
    }
}

/// The word whose bits below `width` are set and no others.
pub fn mask_from_width(width: u8) -> (r: u128)
    requires
        width <= 128,
    ensures
        r == low_mask(width as int),
{
    if width != 128 {
        proof {
            if width > 0 {
                lemma_bit_low(width as u32, 0);
            }
            assert(1u128 << 0u8 == 1) by (bit_vector);
        }
        (1u128 << width) - 1
    } else {
        u128::MAX
    }
}

/// Whether a vector can have this width: at least one bit, at most 128.
pub fn assert_width(width: u8) -> (r: bool)
    ensures
        r == (1 <= width <= 128),
{
    width != 0 && width <= 128
}

/// Two words with the same bits are the same word.
pub proof fn lemma_bits_equal(a: u128, b: u128)
    requires
        forall|i: int| 0 <= i < 128 ==> bit(a, i) == bit(b, i),
    ensures
        a == b,
{
    let x = a ^ b;
    if x != 0 {
        lemma_lowest_set(x);
        lemma_bit_ops();
        let i = lowest_set(x);
        assert(get(a ^ b, i));
        assert(bit(a, i as int) == bit(b, i as int));
    }
    assert(a ^ b == 0 ==> a == b) by (bit_vector);
}

} // verus!
