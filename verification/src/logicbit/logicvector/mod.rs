//! The packed vector of nine-valued bits.

use vstd::prelude::*;
use crate::logicbit::ieee1164::Ieee1164;
use crate::logicbit::tvlogic::Ieee1164Value;
use crate::logicbit::logicvector::bits::{
    assert_width, bit, get, lemma_bit_above, lemma_bit_appended, lemma_bit_ops, lemma_bits_equal, lemma_low_mask,
    lemma_lowest_set, lemma_mask_wraps_once, lemma_masked_at_most, low_mask, lowest_set,
    mask_from_width,
};
use crate::logicbit::Resolve;
use vstd::string::StringExecFns;
use vstd::string::StrSliceExecFns;
use crate::logicbit::logicvector::masks::{Masks, SanityChecked};

pub mod bits;
pub mod masks;
pub mod order;

verus! {

/// A vector of 1 to 128 nine-valued bits.
///
/// The bits are packed into nine masks, one for each value. As a sequence
/// the vector starts with its most significant bit; positions count from the
/// least significant bit, which is position 0.
///
/// Two vectors are equal when their masks are, which for vectors is the same
/// as holding the same bits.
#[derive(Debug, Clone, Copy, PartialEq, Eq, Structural)]
pub struct LogicVector {
    masks: Masks,
    width: u8,
}

/// Why a text or a sequence is no vector.
#[derive(Debug, Clone, Copy, Hash, PartialEq, Eq, Structural)]
pub enum LogicVectorConversionError {
    /// A character that stands for no value.
    InvalidChar(char),
    /// Fewer than one or more than 128 bits.
    InvalidWidth,
}

impl View for LogicVector {
    type V = Seq<Ieee1164>;

    /// The bits, most significant first.
    open spec fn view(&self) -> Seq<Ieee1164> {
        Seq::new(self.spec_width() as nat, |k: int| self.bit(self.spec_width() - 1 - k))
    }
}

// What a vector is.
impl LogicVector {
    /// The nine masks.
    pub closed spec fn masks_spec(self) -> Masks {
        self.masks
    }

    /// The number of bits.
    pub closed spec fn spec_width(&self) -> u8 {
        self.width
    }

    /// The number of bits.
    #[verifier::when_used_as_spec(spec_width)]
    pub fn width(&self) -> (w: u8)
        ensures
            w == self.spec_width(),
            1 <= w <= 128,
    {
        proof {
            use_type_invariant(self);
        }
        self.width
    }

    /// The invariant of every vector: the width is between 1 and 128, each
    /// position below it is marked with exactly one value, and no position
    /// at or above it is marked at all.
    pub open spec fn wf(self) -> bool {
        &&& 1 <= self.spec_width() <= 128
        &&& self.masks_spec().sane(self.spec_width() as int)
    }

    #[verifier::type_invariant]
    spec fn inv(self) -> bool {
        self.wf()
    }

    /// The bit at position `i`, counted from the least significant bit.
    pub open spec fn bit(self, i: int) -> Ieee1164 {
        self.masks_spec().at(i)
    }

    /// Whether every bit is zero or one, at either strength.
    pub open spec fn resolvable(self) -> bool {
        forall|i: int| 0 <= i < self.spec_width() ==> (#[trigger] self.bit(i)).low() || self.bit(i).high()
    }

    /// Whether `value` can be written in `width` bits.
    pub open spec fn fits(value: u128, width: int) -> bool {
        value <= low_mask(width)
    }

    /// The number that the bits spell, ones being `1` or `H` and zeros `0`
    /// or `L`. A vector with any other bit spells no number.
    pub closed spec fn int_value(self) -> Option<u128> {
        if self.unresolved_mask() != 0 {
            None
        } else {
            Some(self.masks.mask_of(Ieee1164::_1()) | self.masks.mask_of(Ieee1164::_H()))
        }
    }

    /// The positions that hold neither zero nor one.
    closed spec fn unresolved_mask(self) -> u128 {
        self.masks.mask_of(Ieee1164::_U()) | self.masks.mask_of(Ieee1164::_X())
            | self.masks.mask_of(Ieee1164::_W()) | self.masks.mask_of(Ieee1164::_Z())
            | self.masks.mask_of(Ieee1164::_D())
    }

    /// The vector of `width` bits that spells `value`, if there is one.
    pub closed spec fn from_int_spec(value: u128, width: u8) -> Option<LogicVector> {
        if 1 <= width <= 128 && Self::fits(value, width as int) {
            Some(
                LogicVector {
                    masks: Self::int_masks(value, width),
                    width,
                },
            )
        } else {
            None
        }
    }

    /// The masks of the vector of `width` bits that spells `value`.
    closed spec fn int_masks(value: u128, width: u8) -> Masks {
        Masks::binary(value, !value & low_mask(width as int))
    }

    /// The vector of `width` bits that spells the low `width` bits of
    /// `value`.
    pub closed spec fn truncated_spec(value: u128, width: u8) -> LogicVector {
        LogicVector {
            masks: Self::int_masks(value & low_mask(width as int), width),
            width,
        }
    }

    /// The vector of `width` bits that all hold `value`.
    pub open spec fn uniform_spec(value: Ieee1164, width: u8) -> LogicVector {
        Self::of_bits(Seq::new(width as nat, |k: int| value))
    }

    /// The vector that holds the given bits, most significant first.
    pub closed spec fn of_bits(bits: Seq<Ieee1164>) -> LogicVector {
        choose|v: LogicVector| v.wf() && v@ == bits
    }

    /// The place of the first character of a text that stands for no value.
    pub open spec fn first_unreadable(chars: Seq<char>) -> int {
        choose|k: int|
            0 <= k < chars.len() && Ieee1164::parse_spec(#[trigger] chars[k]) is None && forall|j: int|
                0 <= j < k ==> Ieee1164::parse_spec(#[trigger] chars[j]) is Some
    }

    /// What reading a text gives, one character for each bit, most
    /// significant first: the vector of the values that the characters
    /// stand for. A text of no or more than 128 characters has an invalid
    /// width; in a text of valid width the first character that stands for
    /// no value is the error.
    pub open spec fn parsed(chars: Seq<char>) -> Result<LogicVector, LogicVectorConversionError> {
        if !(1 <= chars.len() <= 128) {
            Err(LogicVectorConversionError::InvalidWidth)
        } else if exists|k: int|
            0 <= k < chars.len() && Ieee1164::parse_spec(#[trigger] chars[k]) is None {
            Err(LogicVectorConversionError::InvalidChar(chars[Self::first_unreadable(chars)]))
        } else {
            Ok(
                Self::of_bits(
                    Seq::new(chars.len(), |k: int| Ieee1164::parse_spec(chars[k]).unwrap()),
                ),
            )
        }
    }

    /// The characters of the bits, most significant first.
    pub open spec fn text(self) -> Seq<char> {
        Seq::new(self@.len(), |k: int| self@[k].char_spec())
    }
}

// What the operations make of the bits.
impl LogicVector {
    /// The sequence that holds at each place what `f` makes of the two
    /// values at that place.
    pub open spec fn pointwise(
        a: Seq<Ieee1164>,
        b: Seq<Ieee1164>,
        f: spec_fn(Ieee1164, Ieee1164) -> Ieee1164,
    ) -> Seq<Ieee1164> {
        Seq::new(a.len(), |k: int| f(a[k], b[k]))
    }

    /// Whether every bit of the sequence is high impedance.
    pub open spec fn all_z(bits: Seq<Ieee1164>) -> bool {
        forall|k: int| 0 <= k < bits.len() ==> bits[k] == Ieee1164::_Z()
    }

    /// The bits that two drivers of the same wires resolve to: the drivers
    /// resolve bit by bit.
    pub open spec fn resolved(a: Seq<Ieee1164>, b: Seq<Ieee1164>) -> Seq<Ieee1164> {
        Self::pointwise(a, b, |x: Ieee1164, y: Ieee1164| x.resolve_spec(y))
    }

    /// A driver of nothing but high impedance leaves the bits of the other
    /// driver as they are.
    pub proof fn lemma_resolved_high_impedance(a: Seq<Ieee1164>, b: Seq<Ieee1164>)
        requires
            a.len() == b.len(),
        ensures
            Self::all_z(a) ==> Self::resolved(a, b) == b,
            Self::all_z(b) ==> Self::resolved(a, b) == a,
    {
        if Self::all_z(a) {
            assert(Self::resolved(a, b) =~= b);
        }
        if Self::all_z(b) {
            assert(Self::resolved(a, b) =~= a);
        }
    }

    /// The bits of a vector after it was grown to `new_width`: the fill
    /// value on the most significant side, then the bits as they were.
    pub open spec fn grown(bits: Seq<Ieee1164>, new_width: int, fill: Ieee1164) -> Seq<Ieee1164> {
        Seq::new((new_width - bits.len()) as nat, |k: int| fill) + bits
    }

    /// The bits that stay when a vector shrinks to `new_width`: the least
    /// significant ones.
    pub open spec fn low_part(bits: Seq<Ieee1164>, new_width: int) -> Seq<Ieee1164> {
        bits.skip(bits.len() - new_width)
    }

    /// The bits that are split off when a vector shrinks to `new_width`:
    /// the most significant ones.
    pub open spec fn high_part(bits: Seq<Ieee1164>, new_width: int) -> Seq<Ieee1164> {
        bits.take(bits.len() - new_width)
    }

    /// The sum of two numbers modulo two to the power of `width`.
    pub open spec fn wrapped_sum(a: u128, b: u128, width: int) -> u128 {
        ((a + b) % (low_mask(width) + 1)) as u128
    }

    /// The sum of two vectors of one width: the vector that spells the sum
    /// of their numbers modulo two to the power of the width, or the
    /// uninitialized vector where one of them spells no number.
    pub open spec fn sum_spec(self, rhs: LogicVector) -> LogicVector {
        match (self.int_value(), rhs.int_value()) {
            (Some(a), Some(b)) => Self::from_int_spec(
                Self::wrapped_sum(a, b, self.spec_width() as int),
                self.spec_width(),
            ).unwrap(),
            _ => Self::uniform_spec(Ieee1164::_U(), self.spec_width()),
        }
    }
}

// Laws.
impl LogicVector {
    /// Vectors that hold the same bits are equal.
    pub proof fn lemma_equal_by_bits(a: LogicVector, b: LogicVector)
        requires
            a.wf(),
            b.wf(),
            a@ == b@,
        ensures
            a == b,
    {
        assert(a@.len() == a.spec_width());
        assert(b@.len() == b.spec_width());
        let w = a.spec_width() as int;
        assert forall|s: Ieee1164, i: int| 0 <= i < 128 implies #[trigger] a.masks.has(s, i)
            == b.masks.has(s, i) by {
            a.lemma_marks(i);
            b.lemma_marks(i);
            if i < w {
                assert(a@[w - 1 - i] == a.bit(i));
                assert(b@[w - 1 - i] == b.bit(i));
            }
            assert(a.masks_spec().has(s, i) == (i < w && s == a.bit(i)));
            assert(b.masks_spec().has(s, i) == (i < w && s == b.bit(i)));
        }
        Masks::lemma_marks_equal(a.masks, b.masks);
    }

    /// The word that marks the positions at which a sequence of bits, most
    /// significant first, holds the value `s`.
    pub open spec fn word_of(bits: Seq<Ieee1164>, s: Ieee1164) -> u128
        decreases bits.len(),
    {
        if bits.len() == 0 {
            0
        } else {
            (Self::word_of(bits.drop_last(), s) << 1u32) | (if bits.last() == s {
                1u128
            } else {
                0u128
            })
        }
    }

    /// The bits of `word_of`.
    proof fn lemma_word_of(bits: Seq<Ieee1164>, s: Ieee1164, i: int)
        requires
            bits.len() <= 128,
            0 <= i < 128,
        ensures
            bit(Self::word_of(bits, s), i) == (i < bits.len() && bits[bits.len() - 1 - i] == s),
        decreases bits.len(),
    {
        lemma_bit_ops();
        if bits.len() > 0 {
            let front = bits.drop_last();
            lemma_bit_appended(Self::word_of(front, s), bits.last() == s, i as u32);
            if i > 0 {
                Self::lemma_word_of(front, s, i - 1);
            }
        }
    }

    /// Every sequence of 1 to 128 bits is held by a vector.
    pub proof fn lemma_of_bits_exists(bits: Seq<Ieee1164>)
        requires
            1 <= bits.len() <= 128,
        ensures
            Self::of_bits(bits).wf(),
            Self::of_bits(bits)@ == bits,
            Self::of_bits(bits).spec_width() == bits.len(),
    {
        let masks = Masks::of_words(|s: Ieee1164| Self::word_of(bits, s));
        Masks::lemma_of_words(|s: Ieee1164| Self::word_of(bits, s));
        let width = bits.len() as int;
        let f = |i: int| bits[width - 1 - i];
        assert forall|s: Ieee1164, i: int| 0 <= i < 128 implies #[trigger] masks.has(s, i) == (i
            < width && s == f(i)) by {
            Self::lemma_word_of(bits, s, i);
        }
        Self::lemma_from_marks(masks, width, f);
        let v = LogicVector { masks, width: width as u8 };
        assert(v@ =~= bits);
        assert(v.wf() && v@ == bits);
    }

    /// What reading a text gives when it gives a vector: a vector with one
    /// bit for each character, each the value that its character stands
    /// for.
    pub proof fn lemma_parsed(chars: Seq<char>)
        ensures
            Self::parsed(chars) matches Ok(v) ==> {
                &&& v.wf()
                &&& v@.len() == chars.len()
                &&& forall|k: int|
                    0 <= k < chars.len() ==> Ieee1164::parse_spec(chars[k]) == Some(#[trigger] v@[k])
            },
    {
        if Self::parsed(chars) is Ok {
            Self::lemma_of_bits_exists(
                Seq::new(chars.len(), |k: int| Ieee1164::parse_spec(chars[k]).unwrap()),
            );
        }
    }

    /// The vector of one value holds that value in every bit.
    pub proof fn lemma_uniform(value: Ieee1164, width: u8)
        requires
            1 <= width <= 128,
        ensures
            Self::uniform_spec(value, width).wf(),
            Self::uniform_spec(value, width).spec_width() == width,
            Self::uniform_spec(value, width)@ == Seq::new(width as nat, |k: int| value),
    {
        Self::lemma_of_bits_exists(Seq::new(width as nat, |k: int| value));
    }

    /// What two vectors of one width resolve to, bit by bit.
    pub proof fn lemma_resolution(a: LogicVector, b: LogicVector)
        requires
            a.wf(),
            b.wf(),
            a.spec_width() == b.spec_width(),
        ensures
            a.resolution(&b).wf(),
            a.resolution(&b).spec_width() == a.spec_width(),
            a.resolution(&b)@ == Self::resolved(a@, b@),
    {
        assert(Self::resolved(a@, b@).len() == a@.len());
        Self::lemma_of_bits_exists(Self::resolved(a@, b@));
    }

    /// A vector is the vector of its bits.
    pub proof fn lemma_of_bits(v: LogicVector)
        requires
            v.wf(),
        ensures
            Self::of_bits(v@) == v,
    {
        let c = Self::of_bits(v@);
        assert(c.wf() && c@ == v@);
        Self::lemma_equal_by_bits(c, v);
    }

    /// What `int_value` is in terms of the bits.
    pub proof fn lemma_int_value(self)
        requires
            self.wf(),
        ensures
            self.int_value() is Some <==> self.resolvable(),
            self.int_value() matches Some(v) ==> forall|i: int|
                0 <= i < 128 ==> #[trigger] bit(v, i) == (i < self.spec_width() && self.bit(i).high()),
    {
        lemma_bit_ops();
        let m = self.masks;
        let un = self.unresolved_mask();
        assert forall|i: int| 0 <= i < 128 implies #[trigger] bit(un, i) == (i < self.spec_width()
            && !(self.bit(i).low() || self.bit(i).high())) by {
            self.lemma_marks(i);
            assert(m.has(Ieee1164::_U(), i) == bit(m.mask_of(Ieee1164::_U()), i));
            assert(m.has(Ieee1164::_X(), i) == bit(m.mask_of(Ieee1164::_X()), i));
            assert(m.has(Ieee1164::_W(), i) == bit(m.mask_of(Ieee1164::_W()), i));
            assert(m.has(Ieee1164::_Z(), i) == bit(m.mask_of(Ieee1164::_Z()), i));
            assert(m.has(Ieee1164::_D(), i) == bit(m.mask_of(Ieee1164::_D()), i));
        }
        if un != 0 {
            lemma_lowest_set(un);
            let i = lowest_set(un) as int;
            assert(bit(un, i));
            assert(!(self.bit(i).low() || self.bit(i).high()));
        } else {
            assert forall|i: int| 0 <= i < self.spec_width() implies (#[trigger] self.bit(i)).low()
                || self.bit(i).high() by {
                assert(!bit(un, i));
            }
            let v = m.mask_of(Ieee1164::_1()) | m.mask_of(Ieee1164::_H());
            assert forall|i: int| 0 <= i < 128 implies #[trigger] bit(v, i) == (i
                < self.spec_width() && self.bit(i).high()) by {
                self.lemma_marks(i);
                assert(m.has(Ieee1164::_1(), i) == bit(m.mask_of(Ieee1164::_1()), i));
                assert(m.has(Ieee1164::_H(), i) == bit(m.mask_of(Ieee1164::_H()), i));
            }
        }
    }

    /// The number that a vector spells fits its width.
    pub proof fn lemma_int_value_fits(self)
        requires
            self.wf(),
        ensures
            self.int_value() matches Some(v) ==> Self::fits(v, self.spec_width() as int),
    {
        self.lemma_int_value();
        if let Some(v) = self.int_value() {
            let low = low_mask(self.spec_width() as int);
            lemma_bit_ops();
            assert forall|i: int| 0 <= i < 128 implies bit(v & low, i) == bit(v, i) by {
                lemma_low_mask(self.spec_width() as int, i);
                assert(get(v & low, i as u32) == (get(v, i as u32) && get(low, i as u32)));
            }
            lemma_bits_equal(v & low, v);
            lemma_masked_at_most(v, low);
        }
    }

    /// A vector that was spelled from a number spells that number.
    pub proof fn lemma_int_round_trip(value: u128, width: u8)
        requires
            1 <= width <= 128,
            Self::fits(value, width as int),
        ensures
            Self::from_int_spec(value, width) matches Some(v) && v.wf() && v.spec_width() == width
                && v.int_value() == Some(value) && forall|i: int|
                0 <= i < width ==> #[trigger] v.bit(i) == if bit(value, i) {
                    Ieee1164::_1()
                } else {
                    Ieee1164::_0()
                },
    {
        let zeros = !value & low_mask(width as int);
        let m = Masks::binary(value, zeros);
        Masks::lemma_binary(value, zeros);
        Self::lemma_int_masks(value, width, m);
        assert(m.mask_of(Ieee1164::_U()) == 0);
        assert(m.mask_of(Ieee1164::_X()) == 0);
        assert(m.mask_of(Ieee1164::_W()) == 0);
        assert(m.mask_of(Ieee1164::_Z()) == 0);
        assert(m.mask_of(Ieee1164::_D()) == 0);
        assert(m.mask_of(Ieee1164::_H()) == 0);
        assert(m.mask_of(Ieee1164::_1()) == value);
        assert(0u128 | 0u128 | 0u128 | 0u128 | 0u128 == 0) by (bit_vector);
        assert(value | 0u128 == value) by (bit_vector);
    }

    /// What `truncated_spec` is: the vector that spells the low bits of the
    /// value.
    pub proof fn lemma_truncated(value: u128, width: u8)
        requires
            1 <= width <= 128,
        ensures
            Self::fits(value & low_mask(width as int), width as int),
            Some(Self::truncated_spec(value, width)) == Self::from_int_spec(
                value & low_mask(width as int),
                width,
            ),
    {
        lemma_masked_at_most(value, low_mask(width as int));
    }

    /// Growing a vector and shrinking it back by the same amount gives the
    /// bits it had, and splits off the fill.
    pub proof fn lemma_grow_then_shrink(bits: Seq<Ieee1164>, by: nat, fill: Ieee1164)
        ensures
            Self::low_part(Self::grown(bits, (bits.len() + by) as int, fill), bits.len() as int) == bits,
            Self::high_part(Self::grown(bits, (bits.len() + by) as int, fill), bits.len() as int)
                == Seq::new(by, |k: int| fill),
    {
        let g = Self::grown(bits, (bits.len() + by) as int, fill);
        assert(g.len() == bits.len() + by);
        assert(Self::low_part(g, bits.len() as int) =~= bits);
        assert(Self::high_part(g, bits.len() as int) =~= Seq::new(by, |k: int| fill));
    }

    /// The sum of two numbers that fit a width, modulo two to the power of
    /// the width, is the sum itself or the sum less that power.
    pub proof fn lemma_wrapped_sum(a: u128, b: u128, width: int)
        requires
            1 <= width <= 128,
            Self::fits(a, width),
            Self::fits(b, width),
        ensures
            Self::wrapped_sum(a, b, width) == if a + b > low_mask(width) {
                a + b - low_mask(width) - 1
            } else {
                a + b
            },
    {
        let m = low_mask(width) + 1;
        let total = a + b;
        if total > low_mask(width) {
            vstd::arithmetic::div_mod::lemma_small_mod((total - m) as nat, m as nat);
            vstd::arithmetic::div_mod::lemma_mod_sub_multiples_vanish(total, m);
        } else {
            vstd::arithmetic::div_mod::lemma_small_mod(total as nat, m as nat);
        }
    }

    /// In a vector, a position below the width is marked with its bit and
    /// nothing else, and a position at or above the width with nothing.
    proof fn lemma_marks(self, i: int)
        requires
            self.wf(),
            0 <= i < 128,
        ensures
            forall|s: Ieee1164| #[trigger]
                self.masks_spec().has(s, i) == (i < self.spec_width() && s == self.bit(i)),
    {
        assert(self.masks_spec().count(i) == Masks::expected(i, self.spec_width() as int));
    }

    /// Masks whose marks are those of a sequence of bits are the masks of a
    /// vector, and its bits are that sequence.
    proof fn lemma_from_marks(m: Masks, width: int, f: spec_fn(int) -> Ieee1164)
        requires
            1 <= width <= 128,
            forall|s: Ieee1164, i: int|
                0 <= i < 128 ==> #[trigger] m.has(s, i) == (i < width && s == f(i)),
        ensures
            m.sane(width),
            forall|i: int| 0 <= i < width ==> #[trigger] m.at(i) == f(i),
    {
        assert forall|i: int| 0 <= i < 128 implies #[trigger] m.count(i) == Masks::expected(
            i,
            width,
        ) by {
            Self::lemma_one_mark(m, i, i < width, f(i));
        }
        assert forall|i: int| 0 <= i < width implies #[trigger] m.at(i) == f(i) by {
            Self::lemma_one_mark(m, i, true, f(i));
        }
    }

    /// A position marked with one value at most counts as many marks, and
    /// holds that value.
    proof fn lemma_one_mark(m: Masks, i: int, marked: bool, v: Ieee1164)
        requires
            0 <= i < 128,
            forall|s: Ieee1164| #[trigger] m.has(s, i) == (marked && s == v),
        ensures
            m.count(i) == if marked {
                1int
            } else {
                0int
            },
            marked ==> m.at(i) == v,
    {
        assert(m.has(Ieee1164::_U(), i) == (marked && Ieee1164::_U() == v));
        assert(m.has(Ieee1164::_X(), i) == (marked && Ieee1164::_X() == v));
        assert(m.has(Ieee1164::_1(), i) == (marked && Ieee1164::_1() == v));
        assert(m.has(Ieee1164::_0(), i) == (marked && Ieee1164::_0() == v));
        assert(m.has(Ieee1164::_W(), i) == (marked && Ieee1164::_W() == v));
        assert(m.has(Ieee1164::_H(), i) == (marked && Ieee1164::_H() == v));
        assert(m.has(Ieee1164::_L(), i) == (marked && Ieee1164::_L() == v));
        assert(m.has(Ieee1164::_Z(), i) == (marked && Ieee1164::_Z() == v));
        assert(m.has(Ieee1164::_D(), i) == (marked && Ieee1164::_D() == v));
    }

    /// The masks that spell a value are the masks of a vector, with a strong
    /// one where the value has a bit and a strong zero where it has none.
    proof fn lemma_int_masks(value: u128, width: u8, m: Masks)
        requires
            1 <= width <= 128,
            Self::fits(value, width as int),
            forall|s: Ieee1164| #[trigger]
                m.mask_of(s) == if s == Ieee1164::_1() {
                    value
                } else if s == Ieee1164::_0() {
                    !value & low_mask(width as int)
                } else {
                    0
                },
        ensures
            m.sane(width as int),
            forall|i: int|
                0 <= i < width ==> #[trigger] m.at(i) == if bit(value, i) {
                    Ieee1164::_1()
                } else {
                    Ieee1164::_0()
                },
    {
        lemma_bit_ops();
        let low = low_mask(width as int);
        let f = |i: int|
            if bit(value, i) {
                Ieee1164::_1()
            } else {
                Ieee1164::_0()
            };
        assert forall|s: Ieee1164, i: int| 0 <= i < 128 implies #[trigger] m.has(s, i) == (i
            < width && s == f(i)) by {
            lemma_low_mask(width as int, i);
            if width < 128 && i >= width {
                lemma_bit_above(value, width as u32, i as u32);
            }
            assert(get(!value & low, i as u32) == (get(!value, i as u32) && get(low, i as u32)));
            assert(get(!value, i as u32) == !get(value, i as u32));
        }
        Self::lemma_from_marks(m, width as int, f);
    }

    /// How the words of masks mark a position, value by value.
    proof fn lemma_words(m: Masks, i: int)
        ensures
            m.has(Ieee1164::_U(), i) == bit(m.mask_of(Ieee1164::_U()), i),
            m.has(Ieee1164::_X(), i) == bit(m.mask_of(Ieee1164::_X()), i),
            m.has(Ieee1164::_1(), i) == bit(m.mask_of(Ieee1164::_1()), i),
            m.has(Ieee1164::_0(), i) == bit(m.mask_of(Ieee1164::_0()), i),
            m.has(Ieee1164::_W(), i) == bit(m.mask_of(Ieee1164::_W()), i),
            m.has(Ieee1164::_H(), i) == bit(m.mask_of(Ieee1164::_H()), i),
            m.has(Ieee1164::_L(), i) == bit(m.mask_of(Ieee1164::_L()), i),
            m.has(Ieee1164::_Z(), i) == bit(m.mask_of(Ieee1164::_Z()), i),
            m.has(Ieee1164::_D(), i) == bit(m.mask_of(Ieee1164::_D()), i),
    {
    }
}

// Making vectors.
impl LogicVector {
    /// The vector of `width` bits that all hold `value`.
    pub fn from_ieee_value(value: Ieee1164, width: u8) -> (r: Self)
        requires
            1 <= width <= 128,
        ensures
            r == Self::uniform_spec(value, width),
            r.wf(),
            r.width() == width,
            r@ == Seq::new(width as nat, |k: int| value),
    {
        let mut masks = Masks::default();
        masks.fill(0, width, value);
        proof {
            lemma_bit_ops();
            Self::lemma_from_marks(masks, width as int, |i: int| value);
        }
        let r = LogicVector { masks, width };
        proof {
            assert(r@ =~= Seq::new(width as nat, |k: int| value));
            Self::lemma_of_bits(r);
        }
        r
    }

    /// The vector of `width` uninitialized bits.
    pub fn with_width(width: u8) -> (r: Self)
        requires
            1 <= width <= 128,
        ensures
            r == Self::uniform_spec(Ieee1164::_U(), width),
            r.wf(),
            r.width() == width,
            r@ == Seq::new(width as nat, |k: int| Ieee1164::_U()),
    {
        Self::from_ieee_value(Ieee1164::_U(), width)
    }

    /// The vector of `width` bits that spells `value`: strong ones and
    /// zeros, the least significant bit at position 0. There is none when
    /// the width is not between 1 and 128 or the value needs more bits.
    pub fn from_int_value(value: u128, width: u8) -> (r: Option<Self>)
        ensures
            r == Self::from_int_spec(value, width),
            r is Some <==> 1 <= width <= 128 && Self::fits(value, width as int),
            r matches Some(v) ==> {
                &&& v.wf()
                &&& v.width() == width
                &&& forall|i: int|
                    0 <= i < width ==> #[trigger] v.bit(i) == if bit(value, i) {
                        Ieee1164::_1()
                    } else {
                        Ieee1164::_0()
                    }
            },
    {
        if assert_width(width) && value <= mask_from_width(width) {
            let low = mask_from_width(width);
            let mut masks = Masks::default();
            masks.set_mask(Ieee1164::_1(), value);
            masks.set_mask(Ieee1164::_0(), !value & low);
            proof {
                Masks::lemma_binary(value, !value & low);
                Self::lemma_int_masks(value, width, masks);
                Masks::lemma_masks_equal(masks, Self::int_masks(value, width));
            }
            Some(LogicVector { masks, width })
        } else {
            None
        }
    }

    /// The vector of `width` bits that spells the low `width` bits of
    /// `value`: a strong one where the value has a bit, a strong zero where
    /// it has none.
    pub fn truncated(value: u128, width: u8) -> (r: LogicVector)
        requires
            1 <= width <= 128,
        ensures
            r == Self::truncated_spec(value, width),
            r.wf(),
            r.width() == width,
            forall|i: int|
                0 <= i < width ==> #[trigger] r.bit(i) == if bit(value, i) {
                    Ieee1164::_1()
                } else {
                    Ieee1164::_0()
                },
    {
        let low = mask_from_width(width);
        proof {
            lemma_masked_at_most(value, low);
            lemma_bit_ops();
            assert forall|i: int| 0 <= i < width implies bit(value & low, i) == bit(value, i) by {
                lemma_low_mask(width as int, i);
                assert(get(value & low, i as u32) == (get(value, i as u32) && get(low, i as u32)));
            }
        }
        let r = Self::from_int_value(value & low, width);
        r.unwrap()
    }

    /// The vector that holds the values of `v`, the first as its most
    /// significant bit. Fails when there are none or more than 128.
    pub fn from_vec(v: Vec<Ieee1164>) -> (r: Result<LogicVector, LogicVectorConversionError>)
        ensures
            r is Ok <==> 1 <= v@.len() <= 128,
            r matches Ok(lv) ==> lv.wf() && lv@ == v@,
            r matches Err(e) ==> e == LogicVectorConversionError::InvalidWidth,
    {
        let len = v.len();
        if len == 0 || len > 128 {
            return Err(LogicVectorConversionError::InvalidWidth);
        }
        let width: u8 = len as u8;
        let mut masks = Masks::default();
        let mut i: usize = 0;
        proof {
            lemma_bit_ops();
        }
        while i < len
            invariant
                i <= len,
                len == v@.len(),
                1 <= len <= 128,
                forall|s: Ieee1164, j: int|
                    0 <= j < 128 ==> #[trigger] masks.has(s, j) == (len - i <= j < len && s
                        == v@[len - 1 - j]),
            decreases len - i,
        {
            let position: u8 = (len - (i + 1)) as u8;
            masks.set(position, v[i]);
            i = i + 1;
        }
        proof {
            let f = |j: int| v@[len - 1 - j];
            Self::lemma_from_marks(masks, len as int, f);
        }
        let lv = LogicVector { masks, width };
        assert(lv@ =~= v@);
        Ok(lv)
    }

    /// Reads a vector from text, one character for each bit, most
    /// significant first.
    ///
    /// A text of no or more than 128 characters has an invalid width. In a
    /// text of valid width the first character that stands for no value is
    /// reported.
    pub fn from_str(s: &str) -> (r: Result<LogicVector, LogicVectorConversionError>)
        ensures
            r == Self::parsed(s@),
            r == Err::<LogicVector, _>(LogicVectorConversionError::InvalidWidth) <==> !(1
                <= s@.len() <= 128),
            r is Ok <==> 1 <= s@.len() <= 128 && forall|k: int|
                0 <= k < s@.len() ==> Ieee1164::parse_spec(#[trigger] s@[k]) is Some,
            r matches Ok(v) ==> {
                &&& v.wf()
                &&& v@.len() == s@.len()
                &&& forall|k: int|
                    0 <= k < s@.len() ==> Ieee1164::parse_spec(s@[k]) == Some(#[trigger] v@[k])
            },
            r matches Err(LogicVectorConversionError::InvalidChar(c)) ==> exists|k: int|
                0 <= k < s@.len() && #[trigger] s@[k] == c && Ieee1164::parse_spec(c) is None
                    && forall|j: int|
                    0 <= j < k ==> Ieee1164::parse_spec(#[trigger] s@[j]) is Some,
    {
        let len = s.unicode_len();
        if len == 0 || len > 128 {
            return Err(LogicVectorConversionError::InvalidWidth);
        }
        let mut bits: Vec<Ieee1164> = Vec::new();
        let mut k: usize = 0;
        while k < len
            invariant
                k <= len,
                len == s@.len(),
                1 <= len <= 128,
                bits@.len() == k,
                forall|j: int|
                    #![trigger bits@[j]]
                    #![trigger s@[j]]
                    0 <= j < k ==> Ieee1164::parse_spec(s@[j]) == Some(bits@[j]),
            decreases len - k,
        {
            let c = s.get_char(k);
            match Ieee1164::try_from_char(c) {
                Ok(v) => {
                    bits.push(v);
                },
                Err(_) => {
                    proof {
                        assert(s@[k as int] == c);
                        let first = Self::first_unreadable(s@);
                        assert(Ieee1164::parse_spec(s@[first]) is None);
                        assert(first == k) by {
                            if first < k {
                                assert(Ieee1164::parse_spec(s@[first]) is Some);
                            }
                            if k < first {
                                assert(Ieee1164::parse_spec(s@[k as int]) is Some);
                            }
                        }
                    }
                    return Err(LogicVectorConversionError::InvalidChar(c));
                },
            }
            k = k + 1;
        }
        let r = Self::from_vec(bits);
        proof {
            let values = Seq::new(s@.len(), |k: int| Ieee1164::parse_spec(s@[k]).unwrap());
            assert(bits@ =~= values);
            Self::lemma_of_bits(r->Ok_0);
        }
        r
    }
}

// Reading vectors.
impl LogicVector {
    /// The masks of the vector.
    pub fn masks(&self) -> (m: Masks)
        ensures
            m == self.masks_spec(),
            self.wf(),
    {
        proof {
            use_type_invariant(self);
        }
        self.masks
    }

    /// Checks the invariant of the vector. It always holds.
    pub fn sanity_check(&self) -> (r: Result<(), SanityChecked>)
        ensures
            r is Ok,
            self.wf(),
    {
        proof {
            use_type_invariant(self);
        }
        self.masks.sanity_check(self.width)
    }

    /// The bit at position `idx`, counted from the least significant bit;
    /// nothing at or above the width.
    pub fn get(&self, idx: u8) -> (r: Option<Ieee1164>)
        requires
            idx < 128,
        ensures
            r == if idx < self.width() {
                Some(self.bit(idx as int))
            } else {
                None
            },
    {
        proof {
            use_type_invariant(self);
        }
        if idx < self.width {
            assert(self.masks.count(idx as int) == Masks::expected(idx as int, self.width as int));
            Some(self.masks.get(idx))
        } else {
            None
        }
    }

    /// The number that the bits spell, ones being `1` or `H` and zeros `0`
    /// or `L`. There is none when any bit is something else.
    pub fn as_u128(&self) -> (r: Option<u128>)
        ensures
            r == self.int_value(),
            r is Some <==> self.resolvable(),
            r matches Some(v) ==> forall|i: int|
                0 <= i < 128 ==> #[trigger] bit(v, i) == (i < self.width() && self.bit(i).high()),
    {
        proof {
            use_type_invariant(self);
            self.lemma_int_value();
        }
        let unresolved = self.masks.mask(Ieee1164::_U()) | self.masks.mask(Ieee1164::_X())
            | self.masks.mask(Ieee1164::_W()) | self.masks.mask(Ieee1164::_Z()) | self.masks.mask(
            Ieee1164::_D(),
        );
        if unresolved != 0 {
            None
        } else {
            Some(self.masks.mask(Ieee1164::_1()) | self.masks.mask(Ieee1164::_H()))
        }
    }

    /// The bits, most significant first.
    pub fn to_vec(&self) -> (v: Vec<Ieee1164>)
        ensures
            v@ == self@,
    {
        proof {
            use_type_invariant(self);
        }
        let mut v: Vec<Ieee1164> = Vec::new();
        let mut k: u8 = 0;
        while k < self.width
            invariant
                self.wf(),
                k <= self.width,
                v@.len() == k,
                forall|j: int| 0 <= j < k ==> v@[j] == self@[j],
            decreases self.width - k,
        {
            let position: u8 = self.width - 1 - k;
            assert(self.masks.count(position as int) == Masks::expected(
                position as int,
                self.width as int,
            ));
            v.push(self.masks.get(position));
            k = k + 1;
        }
        assert(v@ =~= self@);
        v
    }

    /// The vector as text: one character for each bit, most significant
    /// first.
    pub fn to_string(&self) -> (s: String)
        ensures
            s@ == self.text(),
    {
        proof {
            use_type_invariant(self);
        }
        let bits = self.to_vec();
        let mut s = String::new();
        let mut k: usize = 0;
        while k < bits.len()
            invariant
                k <= bits.len(),
                bits@ == self@,
                s@.len() == k,
                forall|j: int| 0 <= j < k ==> s@[j] == self@[j].char_spec(),
            decreases bits.len() - k,
        {
            s.append(symbol(bits[k]));
            k = k + 1;
        }
        assert(s@ =~= self.text());
        s
    }

    /// Whether some bit is `value`.
    pub fn has_ieee1164(&self, value: Ieee1164) -> (r: bool)
        ensures
            r == self@.contains(value),
    {
        proof {
            use_type_invariant(self);
            lemma_bit_ops();
            let m = self.masks.mask_of(value);
            let w = self.width as int;
            if m != 0 {
                lemma_lowest_set(m);
                let i = lowest_set(m) as int;
                self.lemma_marks(i);
                assert(self.masks.has(value, i));
                assert(self@[w - 1 - i] == value);
            } else {
                if self@.contains(value) {
                    let k = choose|k: int| 0 <= k < self@.len() && self@[k] == value;
                    self.lemma_marks(w - 1 - k);
                    assert(self.masks.has(value, w - 1 - k));
                }
            }
        }
        self.masks.mask(value) != 0
    }

    /// Whether some bit is `value`.
    pub fn contains(&self, value: Ieee1164) -> (r: bool)
        ensures
            r == self@.contains(value),
    {
        self.has_ieee1164(value)
    }

    /// Whether every bit is `value`.
    pub fn is_ieee1164(&self, value: Ieee1164) -> (r: bool)
        ensures
            r == (forall|k: int| 0 <= k < self@.len() ==> self@[k] == value),
    {
        proof {
            use_type_invariant(self);
            let m = self.masks.mask_of(value);
            let w = self.width as int;
            let low = low_mask(w);
            if m == low {
                assert forall|k: int| 0 <= k < self@.len() implies self@[k] == value by {
                    lemma_low_mask(w, w - 1 - k);
                    self.lemma_marks(w - 1 - k);
                    assert(self.masks.has(value, w - 1 - k));
                }
            } else {
                if forall|k: int| 0 <= k < self@.len() ==> self@[k] == value {
                    assert forall|i: int| 0 <= i < 128 implies bit(m, i) == bit(low, i) by {
                        lemma_low_mask(w, i);
                        self.lemma_marks(i);
                        assert(self.masks.has(value, i) == bit(m, i));
                        if i < w {
                            assert(self@[w - 1 - i] == value);
                        }
                    }
                    lemma_bits_equal(m, low);
                }
            }
        }
        self.masks.mask(value) == mask_from_width(self.width)
    }
}

// Changing vectors.
impl LogicVector {
    /// Sets the bit at position `idx`, counted from the least significant
    /// bit. A position at or above the width is left alone.
    pub fn set(&mut self, idx: u8, value: Ieee1164)
        requires
            idx < 128,
        ensures
            final(self).wf(),
            final(self).width() == old(self).width(),
            forall|i: int|
                0 <= i < old(self).width() ==> #[trigger] final(self).bit(i) == if i == idx {
                    value
                } else {
                    old(self).bit(i)
                },
    {
        proof {
            use_type_invariant(&*self);
        }
        if idx < self.width {
            let ghost before = *self;
            let mut masks = self.masks;
            masks.set(idx, value);
            proof {
                let f = |i: int|
                    if i == idx {
                        value
                    } else {
                        before.bit(i)
                    };
                assert forall|s: Ieee1164, i: int| 0 <= i < 128 implies #[trigger] masks.has(s, i)
                    == (i < before.width && s == f(i)) by {
                    before.lemma_marks(i);
                }
                Self::lemma_from_marks(masks, before.width as int, f);
            }
            *self = LogicVector { masks, width: self.width };
        }
    }

    /// Sets every bit to `value`.
    pub fn set_all_to(&mut self, value: Ieee1164)
        ensures
            final(self).wf(),
            final(self).width() == old(self).width(),
            final(self)@ == Seq::new(old(self).width() as nat, |k: int| value),
    {
        proof {
            use_type_invariant(&*self);
        }
        *self = Self::from_ieee_value(value, self.width);
    }

    /// Replaces the vector by the one of the same width that spells `value`.
    /// Fails, and leaves the vector as it is, when the value needs more bits.
    pub fn set_int_value(&mut self, value: u128) -> (r: Result<(), ()>)
        ensures
            final(self).wf(),
            r is Ok <==> Self::fits(value, old(self).width() as int),
            r is Ok ==> Some(*final(self)) == Self::from_int_spec(value, old(self).width()),
            r is Err ==> *final(self) == *old(self),
    {
        proof {
            use_type_invariant(&*self);
        }
        match Self::from_int_value(value, self.width) {
            Some(v) => {
                *self = v;
                Ok(())
            },
            None => Err(()),
        }
    }

    /// Changes the width to `new_width`.
    ///
    /// A wider vector gets `value` in its new bits, on the most significant
    /// side. A narrower vector keeps its least significant bits; the bits
    /// that leave come back as a vector of their own. The same width changes
    /// nothing.
    pub fn resize(&mut self, new_width: u8, value: Ieee1164) -> (r: Option<LogicVector>)
        requires
            1 <= new_width <= 128,
        ensures
            final(self).wf(),
            final(self).width() == new_width,
            r is Some <==> new_width < old(self).width(),
            new_width == old(self).width() ==> *final(self) == *old(self),
            new_width > old(self).width() ==> final(self)@ == Self::grown(
                old(self)@,
                new_width as int,
                value,
            ),
            new_width < old(self).width() ==> final(self)@ == Self::low_part(
                old(self)@,
                new_width as int,
            ),
            r matches Some(high) ==> {
                &&& high.wf()
                &&& high.width() == old(self).width() - new_width
                &&& high@ == Self::high_part(old(self)@, new_width as int)
            },
    {
        proof {
            use_type_invariant(&*self);
        }
        let ghost before = *self;
        let old_width = self.width;
        if old_width == new_width {
            None
        } else if old_width < new_width {
            let mut masks = self.masks;
            masks.fill(old_width, new_width, value);
            proof {
                let f = |i: int|
                    if i < old_width {
                        before.bit(i)
                    } else {
                        value
                    };
                assert forall|s: Ieee1164, i: int| 0 <= i < 128 implies #[trigger] masks.has(s, i)
                    == (i < new_width && s == f(i)) by {
                    before.lemma_marks(i);
                }
                Self::lemma_from_marks(masks, new_width as int, f);
            }
            *self = LogicVector { masks, width: new_width };
            assert(self@ =~= Self::grown(before@, new_width as int, value));
            None
        } else {
            let high_masks = self.masks.shifted_down(new_width);
            let low_masks = self.masks.kept_below(new_width);
            proof {
                let fh = |i: int| before.bit(i + new_width);
                assert forall|s: Ieee1164, i: int| 0 <= i < 128 implies #[trigger] high_masks.has(
                    s,
                    i,
                ) == (i < old_width - new_width && s == fh(i)) by {
                    if i + new_width < 128 {
                        before.lemma_marks(i + new_width);
                    }
                }
                Self::lemma_from_marks(high_masks, old_width - new_width, fh);
                let fl = |i: int| before.bit(i);
                assert forall|s: Ieee1164, i: int| 0 <= i < 128 implies #[trigger] low_masks.has(
                    s,
                    i,
                ) == (i < new_width && s == fl(i)) by {
                    before.lemma_marks(i);
                }
                Self::lemma_from_marks(low_masks, new_width as int, fl);
            }
            let high = LogicVector { masks: high_masks, width: old_width - new_width };
            *self = LogicVector { masks: low_masks, width: new_width };
            assert(self@ =~= Self::low_part(before@, new_width as int));
            assert(high@ =~= Self::high_part(before@, new_width as int));
            Some(high)
        }
    }

    /// Changes the width to `new_width` as `resize` does, with
    /// uninitialized bits where the vector grows. What is split off is
    /// dropped.
    pub fn set_width(&mut self, new_width: u8)
        requires
            1 <= new_width <= 128,
        ensures
            final(self).wf(),
            final(self).width() == new_width,
            new_width == old(self).width() ==> *final(self) == *old(self),
            new_width > old(self).width() ==> final(self)@ == Self::grown(
                old(self)@,
                new_width as int,
                Ieee1164::_U(),
            ),
            new_width < old(self).width() ==> final(self)@ == Self::low_part(
                old(self)@,
                new_width as int,
            ),
    {
        let _ = self.resize(new_width, Ieee1164::_U());
    }
}

// Sums.
impl LogicVector {
    /// The sum of two vectors of one width, modulo two to the power of the
    /// width. Where an operand spells no number every bit of the sum is
    /// uninitialized.
    pub fn wrapping_add(&self, rhs: &LogicVector) -> (r: LogicVector)
        requires
            self.width() == rhs.width(),
        ensures
            r == self.sum_spec(*rhs),
            r.wf(),
            r.width() == self.width(),
    {
        let width = self.width();
        proof {
            use_type_invariant(self);
            use_type_invariant(rhs);
            self.lemma_int_value_fits();
            rhs.lemma_int_value_fits();
        }
        match (self.as_u128(), rhs.as_u128()) {
            (Some(a), Some(b)) => {
                let low = mask_from_width(width);
                let total = a.wrapping_add(b);
                let sum = total & low;
                proof {
                    lemma_masked_at_most(total, low);
                    Self::lemma_wrapped_sum(a, b, width as int);
                    if width < 128 {
                        lemma_mask_wraps_once(0, width as u32);
                        lemma_mask_wraps_once(total, width as u32);
                    }
                    assert(sum == Self::wrapped_sum(a, b, width as int));
                }
                let r = Self::from_int_value(sum, width);
                r.unwrap()
            },
            _ => Self::with_width(width),
        }
    }

    /// The sum of two vectors as `wrapping_add` gives it; nothing when the
    /// widths differ.
    pub fn safe_add(&self, rhs: &LogicVector) -> (r: Option<LogicVector>)
        ensures
            r is Some <==> self.width() == rhs.width(),
            r matches Some(v) ==> v == self.sum_spec(*rhs) && v.wf() && v.width() == self.width(),
    {
        if self.width() != rhs.width() {
            return None;
        }
        Some(self.wrapping_add(rhs))
    }
}

// Shorthands for single values.
#[allow(non_snake_case)]
impl LogicVector {
    /// Whether some bit is neither zero nor one at any strength.
    #[allow(non_snake_case)]
    pub fn has_UXZ(&self) -> (r: bool)
        ensures
            r == !self.resolvable(),
    {
        self.as_u128().is_none()
    }

    /// Whether some bit is uninitialized.
    pub fn has_U(&self) -> (r: bool)
        ensures
            r == self@.contains(Ieee1164::_U()),
    {
        self.has_ieee1164(Ieee1164::_U())
    }

    /// Whether some bit is strong unknown.
    pub fn has_X(&self) -> (r: bool)
        ensures
            r == self@.contains(Ieee1164::_X()),
    {
        self.has_ieee1164(Ieee1164::_X())
    }

    /// Whether some bit is strong zero.
    pub fn has_0(&self) -> (r: bool)
        ensures
            r == self@.contains(Ieee1164::_0()),
    {
        self.has_ieee1164(Ieee1164::_0())
    }

    /// Whether some bit is strong one.
    pub fn has_1(&self) -> (r: bool)
        ensures
            r == self@.contains(Ieee1164::_1()),
    {
        self.has_ieee1164(Ieee1164::_1())
    }

    /// Whether some bit is high impedance.
    pub fn has_Z(&self) -> (r: bool)
        ensures
            r == self@.contains(Ieee1164::_Z()),
    {
        self.has_ieee1164(Ieee1164::_Z())
    }

    /// Whether some bit is weak unknown.
    pub fn has_W(&self) -> (r: bool)
        ensures
            r == self@.contains(Ieee1164::_W()),
    {
        self.has_ieee1164(Ieee1164::_W())
    }

    /// Whether some bit is weak zero.
    pub fn has_L(&self) -> (r: bool)
        ensures
            r == self@.contains(Ieee1164::_L()),
    {
        self.has_ieee1164(Ieee1164::_L())
    }

    /// Whether some bit is weak one.
    pub fn has_H(&self) -> (r: bool)
        ensures
            r == self@.contains(Ieee1164::_H()),
    {
        self.has_ieee1164(Ieee1164::_H())
    }

    /// Whether some bit is don't care.
    pub fn has_D(&self) -> (r: bool)
        ensures
            r == self@.contains(Ieee1164::_D()),
    {
        self.has_ieee1164(Ieee1164::_D())
    }

    /// Whether every bit is uninitialized.
    pub fn is_UUU(&self) -> (r: bool)
        ensures
            r == (forall|k: int| 0 <= k < self@.len() ==> self@[k] == Ieee1164::_U()),
    {
        self.is_ieee1164(Ieee1164::_U())
    }

    /// Whether every bit is strong unknown.
    pub fn is_XXX(&self) -> (r: bool)
        ensures
            r == (forall|k: int| 0 <= k < self@.len() ==> self@[k] == Ieee1164::_X()),
    {
        self.is_ieee1164(Ieee1164::_X())
    }

    /// Whether every bit is strong zero.
    pub fn is_000(&self) -> (r: bool)
        ensures
            r == (forall|k: int| 0 <= k < self@.len() ==> self@[k] == Ieee1164::_0()),
    {
        self.is_ieee1164(Ieee1164::_0())
    }

    /// Whether every bit is strong one.
    pub fn is_111(&self) -> (r: bool)
        ensures
            r == (forall|k: int| 0 <= k < self@.len() ==> self@[k] == Ieee1164::_1()),
    {
        self.is_ieee1164(Ieee1164::_1())
    }

    /// Whether every bit is high impedance.
    pub fn is_ZZZ(&self) -> (r: bool)
        ensures
            r == (forall|k: int| 0 <= k < self@.len() ==> self@[k] == Ieee1164::_Z()),
    {
        self.is_ieee1164(Ieee1164::_Z())
    }

    /// Whether every bit is weak unknown.
    pub fn is_WWW(&self) -> (r: bool)
        ensures
            r == (forall|k: int| 0 <= k < self@.len() ==> self@[k] == Ieee1164::_W()),
    {
        self.is_ieee1164(Ieee1164::_W())
    }

    /// Whether every bit is weak zero.
    pub fn is_LLL(&self) -> (r: bool)
        ensures
            r == (forall|k: int| 0 <= k < self@.len() ==> self@[k] == Ieee1164::_L()),
    {
        self.is_ieee1164(Ieee1164::_L())
    }

    /// Whether every bit is weak one.
    pub fn is_HHH(&self) -> (r: bool)
        ensures
            r == (forall|k: int| 0 <= k < self@.len() ==> self@[k] == Ieee1164::_H()),
    {
        self.is_ieee1164(Ieee1164::_H())
    }

    /// Whether every bit is don't care.
    pub fn is_DDD(&self) -> (r: bool)
        ensures
            r == (forall|k: int| 0 <= k < self@.len() ==> self@[k] == Ieee1164::_D()),
    {
        self.is_ieee1164(Ieee1164::_D())
    }
}

// The operators, as functions.
/// The canonical character of a value, as a text of one character.
pub fn symbol(v: Ieee1164) -> (s: &'static str)
    ensures
        s@ == seq![v.char_spec()],
{
    proof {
        reveal_strlit("U");
        reveal_strlit("X");
        reveal_strlit("0");
        reveal_strlit("1");
        reveal_strlit("Z");
        reveal_strlit("W");
        reveal_strlit("L");
        reveal_strlit("H");
        reveal_strlit("-");
    }
    let s = match v {
        Ieee1164::Uninitialized => "U",
        Ieee1164::Strong(Ieee1164Value::Unknown) => "X",
        Ieee1164::Strong(Ieee1164Value::Zero) => "0",
        Ieee1164::Strong(Ieee1164Value::One) => "1",
        Ieee1164::HighImpedance => "Z",
        Ieee1164::Weak(Ieee1164Value::Unknown) => "W",
        Ieee1164::Weak(Ieee1164Value::Zero) => "L",
        Ieee1164::Weak(Ieee1164Value::One) => "H",
        Ieee1164::DontCare => "-",
    };
    assert(s@ =~= seq![v.char_spec()]);
    s
}

/// Conjunction, bit by bit. There is no result when the widths differ.
pub fn and(lhs: &LogicVector, rhs: &LogicVector) -> (r: Option<LogicVector>)
    ensures
        r is Some <==> lhs.width() == rhs.width(),
        r matches Some(v) ==> {
            &&& v.wf()
            &&& v.width() == lhs.width()
            &&& v@ == LogicVector::pointwise(lhs@, rhs@, |x: Ieee1164, y: Ieee1164| x.and_spec(y))
        },
{
    if lhs.width() != rhs.width() {
        return None;
    }
    let w = lhs.width();
    let low = mask_from_width(w);
    let (a, b) = (lhs.masks(), rhs.masks());
    let (au, bu) = (a.mask(Ieee1164::_U()), b.mask(Ieee1164::_U()));
    let az = a.mask(Ieee1164::_0()) | a.mask(Ieee1164::_L());
    let bz = b.mask(Ieee1164::_0()) | b.mask(Ieee1164::_L());
    let ah = a.mask(Ieee1164::_1()) | a.mask(Ieee1164::_H());
    let bh = b.mask(Ieee1164::_1()) | b.mask(Ieee1164::_H());
    let zero = az | bz;
    let u = (au | bu) & !zero;
    let one = ah & bh;
    let x = low & !(zero | u | one);
    let masks = Masks::from_words(u, x, one, zero, 0, 0, 0, 0, 0);
    proof {
        lemma_bit_ops();
        let f = |i: int| lhs.bit(i).and_spec(rhs.bit(i));
        assert forall|s: Ieee1164, i: int| 0 <= i < 128 implies #[trigger] masks.has(s, i) == (i
            < w && s == f(i)) by {
            lemma_low_mask(w as int, i);
            lhs.lemma_marks(i);
            rhs.lemma_marks(i);
            LogicVector::lemma_words(a, i);
            LogicVector::lemma_words(b, i);
            LogicVector::lemma_words(masks, i);
        }
        LogicVector::lemma_from_marks(masks, w as int, f);
    }
    let v = LogicVector { masks, width: w };
    proof {
        assert(v@ =~= LogicVector::pointwise(
            lhs@,
            rhs@,
            |x: Ieee1164, y: Ieee1164| x.and_spec(y),
        ));
    }
    Some(v)
}

/// Disjunction, bit by bit. There is no result when the widths differ.
pub fn or(lhs: &LogicVector, rhs: &LogicVector) -> (r: Option<LogicVector>)
    ensures
        r is Some <==> lhs.width() == rhs.width(),
        r matches Some(v) ==> {
            &&& v.wf()
            &&& v.width() == lhs.width()
            &&& v@ == LogicVector::pointwise(lhs@, rhs@, |x: Ieee1164, y: Ieee1164| x.or_spec(y))
        },
{
    if lhs.width() != rhs.width() {
        return None;
    }
    let w = lhs.width();
    let low = mask_from_width(w);
    let (a, b) = (lhs.masks(), rhs.masks());
    let (au, bu) = (a.mask(Ieee1164::_U()), b.mask(Ieee1164::_U()));
    let az = a.mask(Ieee1164::_0()) | a.mask(Ieee1164::_L());
    let bz = b.mask(Ieee1164::_0()) | b.mask(Ieee1164::_L());
    let ah = a.mask(Ieee1164::_1()) | a.mask(Ieee1164::_H());
    let bh = b.mask(Ieee1164::_1()) | b.mask(Ieee1164::_H());
    let one = ah | bh;
    let u = (au | bu) & !one;
    let zero = az & bz;
    let x = low & !(zero | u | one);
    let masks = Masks::from_words(u, x, one, zero, 0, 0, 0, 0, 0);
    proof {
        lemma_bit_ops();
        let f = |i: int| lhs.bit(i).or_spec(rhs.bit(i));
        assert forall|s: Ieee1164, i: int| 0 <= i < 128 implies #[trigger] masks.has(s, i) == (i
            < w && s == f(i)) by {
            lemma_low_mask(w as int, i);
            lhs.lemma_marks(i);
            rhs.lemma_marks(i);
            LogicVector::lemma_words(a, i);
            LogicVector::lemma_words(b, i);
            LogicVector::lemma_words(masks, i);
        }
        LogicVector::lemma_from_marks(masks, w as int, f);
    }
    let v = LogicVector { masks, width: w };
    proof {
        assert(v@ =~= LogicVector::pointwise(
            lhs@,
            rhs@,
            |x: Ieee1164, y: Ieee1164| x.or_spec(y),
        ));
    }
    Some(v)
}

/// Exclusive or, bit by bit. There is no result when the widths differ.
pub fn xor(lhs: &LogicVector, rhs: &LogicVector) -> (r: Option<LogicVector>)
    ensures
        r is Some <==> lhs.width() == rhs.width(),
        r matches Some(v) ==> {
            &&& v.wf()
            &&& v.width() == lhs.width()
            &&& v@ == LogicVector::pointwise(lhs@, rhs@, |x: Ieee1164, y: Ieee1164| x.xor_spec(y))
        },
{
    if lhs.width() != rhs.width() {
        return None;
    }
    let w = lhs.width();
    let low = mask_from_width(w);
    let (a, b) = (lhs.masks(), rhs.masks());
    let (au, bu) = (a.mask(Ieee1164::_U()), b.mask(Ieee1164::_U()));
    let az = a.mask(Ieee1164::_0()) | a.mask(Ieee1164::_L());
    let bz = b.mask(Ieee1164::_0()) | b.mask(Ieee1164::_L());
    let ah = a.mask(Ieee1164::_1()) | a.mask(Ieee1164::_H());
    let bh = b.mask(Ieee1164::_1()) | b.mask(Ieee1164::_H());
    let u = au | bu;
    let both = (az | ah) & (bz | bh);
    let one = both & (ah ^ bh);
    let zero = both & !(ah ^ bh);
    let x = low & !(zero | u | one);
    let masks = Masks::from_words(u, x, one, zero, 0, 0, 0, 0, 0);
    proof {
        lemma_bit_ops();
        let f = |i: int| lhs.bit(i).xor_spec(rhs.bit(i));
        assert forall|s: Ieee1164, i: int| 0 <= i < 128 implies #[trigger] masks.has(s, i) == (i
            < w && s == f(i)) by {
            lemma_low_mask(w as int, i);
            lhs.lemma_marks(i);
            rhs.lemma_marks(i);
            LogicVector::lemma_words(a, i);
            LogicVector::lemma_words(b, i);
            LogicVector::lemma_words(masks, i);
        }
        LogicVector::lemma_from_marks(masks, w as int, f);
    }
    let v = LogicVector { masks, width: w };
    proof {
        assert(v@ =~= LogicVector::pointwise(
            lhs@,
            rhs@,
            |x: Ieee1164, y: Ieee1164| x.xor_spec(y),
        ));
    }
    Some(v)
}

/// Resolution of two vectors that drive the same wires: the drivers resolve
/// bit by bit. So a vector of nothing but high impedance yields to the other.
pub fn resolve(lhs: &LogicVector, rhs: &LogicVector) -> (r: LogicVector)
    requires
        lhs.width() == rhs.width(),
    ensures
        r.wf(),
        r.width() == lhs.width(),
        r@ == LogicVector::resolved(lhs@, rhs@),
{
    if lhs.is_ZZZ() {
        proof {
            use_type_invariant(rhs);
            LogicVector::lemma_resolved_high_impedance(lhs@, rhs@);
        }
        return *rhs;
    }
    if rhs.is_ZZZ() {
        proof {
            use_type_invariant(lhs);
            LogicVector::lemma_resolved_high_impedance(lhs@, rhs@);
        }
        return *lhs;
    }
    let w = lhs.width();
    let low = mask_from_width(w);
    let (a, b) = (lhs.masks(), rhs.masks());
    let (au, bu) = (a.mask(Ieee1164::_U()), b.mask(Ieee1164::_U()));
    let (ax, bx) = (a.mask(Ieee1164::_X()), b.mask(Ieee1164::_X()));
    let (ad, bd) = (a.mask(Ieee1164::_D()), b.mask(Ieee1164::_D()));
    let (a0, b0) = (a.mask(Ieee1164::_0()), b.mask(Ieee1164::_0()));
    let (a1, b1) = (a.mask(Ieee1164::_1()), b.mask(Ieee1164::_1()));
    let (aw, bw) = (a.mask(Ieee1164::_W()), b.mask(Ieee1164::_W()));
    let (al, bl) = (a.mask(Ieee1164::_L()), b.mask(Ieee1164::_L()));
    let (ah, bh) = (a.mask(Ieee1164::_H()), b.mask(Ieee1164::_H()));
    let (az, bz) = (a.mask(Ieee1164::_Z()), b.mask(Ieee1164::_Z()));
    let d = (ad & bz) | (az & bd);
    let u = au | bu;
    let x = (ax | bx | ad | bd | (a0 & b1) | (a1 & b0)) & !(u | d);
    let decided = u | x | d;
    let zero = (a0 | b0) & !decided;
    let one = (a1 | b1) & !decided;
    let strong = decided | zero | one;
    let weak = (aw | bw | (al & bh) | (ah & bl)) & !strong;
    let l = (al | bl) & !(strong | weak);
    let h = (ah | bh) & !(strong | weak);
    let z = az & bz;
    let masks = Masks::from_words(u, x, one, zero, weak, h, l, z, d);
    proof {
        lemma_bit_ops();
        let f = |i: int| lhs.bit(i).resolve_spec(rhs.bit(i));
        assert forall|s: Ieee1164, i: int| 0 <= i < 128 implies #[trigger] masks.has(s, i) == (i
            < w && s == f(i)) by {
            lemma_low_mask(w as int, i);
            lhs.lemma_marks(i);
            rhs.lemma_marks(i);
            LogicVector::lemma_words(a, i);
            LogicVector::lemma_words(b, i);
            LogicVector::lemma_words(masks, i);
        }
        LogicVector::lemma_from_marks(masks, w as int, f);
    }
    let v = LogicVector { masks, width: w };
    proof {
        assert(v@ =~= LogicVector::pointwise(
            lhs@,
            rhs@,
            |x: Ieee1164, y: Ieee1164| x.resolve_spec(y),
        ));
    }
    v
}

/// The sum of two vectors of one width, modulo two to the power of the
/// width. Where an operand spells no number every bit of the sum is
/// uninitialized.
pub fn add(lhs: &LogicVector, rhs: &LogicVector) -> (r: LogicVector)
    requires
        lhs.width() == rhs.width(),
    ensures
        r == lhs.sum_spec(*rhs),
        r.wf(),
        r.width() == lhs.width(),
{
    lhs.wrapping_add(rhs)
}

impl PartialEq<u128> for LogicVector {
    /// Whether the vector spells the number.
    fn eq(&self, other: &u128) -> (r: bool) {
        match self.as_u128() {
            Some(v) => v == *other,
            None => false,
        }
    }
}

impl vstd::std_specs::cmp::PartialEqSpecImpl<u128> for LogicVector {
    open spec fn obeys_eq_spec() -> bool {
        true
    }

    open spec fn eq_spec(&self, other: &u128) -> bool {
        self.int_value() == Some(*other)
    }
}

impl Resolve for LogicVector {
    open spec fn wire_width(&self) -> nat {
        self.spec_width() as nat
    }

    open spec fn resolution(&self, rhs: &Self) -> Self {
        LogicVector::of_bits(LogicVector::resolved(self@, rhs@))
    }

    fn resolve(&self, rhs: &Self) -> (r: Self) {
        let r = self::resolve(self, rhs);
        proof {
            LogicVector::lemma_of_bits(r);
        }
        r
    }

    fn width(&self) -> (w: usize) {
        LogicVector::width(self) as usize
    }

    fn same_as(&self, rhs: &Self) -> (r: bool) {
        *self == *rhs
    }

    proof fn lemma_resolve_commutative(a: &Self, b: &Self) {
        assert(a@.len() == b@.len());
        assert(LogicVector::resolved(a@, b@) =~= LogicVector::resolved(b@, a@));
    }
}

impl core::ops::BitAnd for LogicVector {
    type Output = LogicVector;

    fn bitand(self, rhs: LogicVector) -> (r: LogicVector) {
        let r = and(&self, &rhs).unwrap();
        proof {
            LogicVector::lemma_of_bits(r);
        }
        r
    }
}

impl vstd::std_specs::ops::BitAndSpecImpl for LogicVector {
    open spec fn obeys_bitand_spec() -> bool {
        true
    }

    open spec fn bitand_req(self, rhs: LogicVector) -> bool {
        self.spec_width() == rhs.spec_width()
    }

    open spec fn bitand_spec(self, rhs: LogicVector) -> LogicVector {
        LogicVector::of_bits(
            LogicVector::pointwise(self@, rhs@, |x: Ieee1164, y: Ieee1164| x.and_spec(y)),
        )
    }
}

impl core::ops::BitOr for LogicVector {
    type Output = LogicVector;

    fn bitor(self, rhs: LogicVector) -> (r: LogicVector) {
        let r = or(&self, &rhs).unwrap();
        proof {
            LogicVector::lemma_of_bits(r);
        }
        r
    }
}

impl vstd::std_specs::ops::BitOrSpecImpl for LogicVector {
    open spec fn obeys_bitor_spec() -> bool {
        true
    }

    open spec fn bitor_req(self, rhs: LogicVector) -> bool {
        self.spec_width() == rhs.spec_width()
    }

    open spec fn bitor_spec(self, rhs: LogicVector) -> LogicVector {
        LogicVector::of_bits(
            LogicVector::pointwise(self@, rhs@, |x: Ieee1164, y: Ieee1164| x.or_spec(y)),
        )
    }
}

impl core::ops::BitXor for LogicVector {
    type Output = LogicVector;

    fn bitxor(self, rhs: LogicVector) -> (r: LogicVector) {
        let r = xor(&self, &rhs).unwrap();
        proof {
            LogicVector::lemma_of_bits(r);
        }
        r
    }
}

impl vstd::std_specs::ops::BitXorSpecImpl for LogicVector {
    open spec fn obeys_bitxor_spec() -> bool {
        true
    }

    open spec fn bitxor_req(self, rhs: LogicVector) -> bool {
        self.spec_width() == rhs.spec_width()
    }

    open spec fn bitxor_spec(self, rhs: LogicVector) -> LogicVector {
        LogicVector::of_bits(
            LogicVector::pointwise(self@, rhs@, |x: Ieee1164, y: Ieee1164| x.xor_spec(y)),
        )
    }
}

impl core::ops::Add for LogicVector {
    type Output = LogicVector;

    fn add(self, rhs: LogicVector) -> (r: LogicVector) {
        self.wrapping_add(&rhs)
    }
}

impl vstd::std_specs::ops::AddSpecImpl for LogicVector {
    open spec fn obeys_add_spec() -> bool {
        true
    }

    open spec fn add_req(self, rhs: LogicVector) -> bool {
        self.spec_width() == rhs.spec_width()
    }

    open spec fn add_spec(self, rhs: LogicVector) -> LogicVector {
        self.sum_spec(rhs)
    }
}

impl core::str::FromStr for LogicVector {
    type Err = LogicVectorConversionError;

    /// Reads a vector from text as the function of the same name of the
    /// vector does.
    fn from_str(s: &str) -> (r: Result<Self, LogicVectorConversionError>)
        ensures
            r == LogicVector::parsed(s@),
    {
        LogicVector::from_str(s)
    }
}

} // verus!
