//! Nine bit masks, one for each value of the logic.

use vstd::prelude::*;
use crate::logicbit::ieee1164::Ieee1164;
use crate::logicbit::logicvector::bits::{
    bit, get, lemma_bit_ops, lemma_bit_shr, lemma_bit_single, lemma_bits_equal, lemma_low_mask,
    low_mask, mask_from_width,
};
use crate::logicbit::tvlogic::Ieee1164Value;

verus! {

/// What a check of the masks found wrong, and at which bit.
#[derive(Debug, Clone, Copy, PartialEq, Eq, Structural)]
pub enum SanityChecked {
    /// More than one mask has the bit set.
    MoreThanOne(u8),
    /// The bit is inside the width and no mask has it set.
    NoOne(u8),
    /// The bit is at or above the width and a mask has it set.
    OneAboveWidth(u8),
}

/// Nine 128-bit words, one for each value of the logic. Bit `i` of the word
/// of a value says that position `i` holds that value.
///
/// The words are walked in the order `U X 1 0 W H L Z -`.
#[allow(non_snake_case)]
#[derive(Debug, Clone, Copy, PartialEq, Eq, Structural)]
pub struct Masks {
    _U: u128,
    _X: u128,
    _1: u128,
    _0: u128,
    _W: u128,
    _H: u128,
    _L: u128,
    _Z: u128,
    _D: u128,
}

/// One for a true statement, zero for a false one.
pub open spec fn one_if(b: bool) -> int {
    if b {
        1
    } else {
        0
    }
}

/// The value whose word comes at place `k` of the walk.
pub open spec fn walk_order(k: int) -> Ieee1164 {
    if k == 0 {
        Ieee1164::_U()
    } else if k == 1 {
        Ieee1164::_X()
    } else if k == 2 {
        Ieee1164::_1()
    } else if k == 3 {
        Ieee1164::_0()
    } else if k == 4 {
        Ieee1164::_W()
    } else if k == 5 {
        Ieee1164::_H()
    } else if k == 6 {
        Ieee1164::_L()
    } else if k == 7 {
        Ieee1164::_Z()
    } else {
        Ieee1164::_D()
    }
}

/// Whether bit `index` of `word` is set.
pub fn bit_at(word: u128, index: u8) -> (r: bool)
    requires
        index < 128,
    ensures
        r == bit(word, index as int),
{
    (word >> index) & 1 == 1
}

impl Default for Masks {
    fn default() -> (r: Self)
        ensures
            forall|s: Ieee1164| #[trigger] r.mask_of(s) == 0,
    {
        Masks { _U: 0, _X: 0, _1: 0, _0: 0, _W: 0, _H: 0, _L: 0, _Z: 0, _D: 0 }
    }
}

impl Masks {
    /// The word of a value.
    pub closed spec fn mask_of(self, s: Ieee1164) -> u128 {
        match s {
            Ieee1164::Uninitialized => self._U,
            Ieee1164::Strong(Ieee1164Value::Unknown) => self._X,
            Ieee1164::Strong(Ieee1164Value::One) => self._1,
            Ieee1164::Strong(Ieee1164Value::Zero) => self._0,
            Ieee1164::Weak(Ieee1164Value::Unknown) => self._W,
            Ieee1164::Weak(Ieee1164Value::One) => self._H,
            Ieee1164::Weak(Ieee1164Value::Zero) => self._L,
            Ieee1164::HighImpedance => self._Z,
            Ieee1164::DontCare => self._D,
        }
    }

    /// The masks of strong ones and strong zeros with the given words, the
    /// words of all other values empty.
    pub closed spec fn binary(ones: u128, zeros: u128) -> Masks {
        Masks { _U: 0, _X: 0, _1: ones, _0: zeros, _W: 0, _H: 0, _L: 0, _Z: 0, _D: 0 }
    }

    /// The words of `binary`.
    pub proof fn lemma_binary(ones: u128, zeros: u128)
        ensures
            forall|s: Ieee1164| #[trigger]
                Self::binary(ones, zeros).mask_of(s) == if s == Ieee1164::_1() {
                    ones
                } else if s == Ieee1164::_0() {
                    zeros
                } else {
                    0
                },
    {
    }

    /// The masks in which each value has the word that `word` gives it.
    pub closed spec fn of_words(word: spec_fn(Ieee1164) -> u128) -> Masks {
        Masks {
            _U: word(Ieee1164::_U()),
            _X: word(Ieee1164::_X()),
            _1: word(Ieee1164::_1()),
            _0: word(Ieee1164::_0()),
            _W: word(Ieee1164::_W()),
            _H: word(Ieee1164::_H()),
            _L: word(Ieee1164::_L()),
            _Z: word(Ieee1164::_Z()),
            _D: word(Ieee1164::_D()),
        }
    }

    /// The words of `of_words`.
    pub proof fn lemma_of_words(word: spec_fn(Ieee1164) -> u128)
        ensures
            forall|s: Ieee1164| #[trigger] Self::of_words(word).mask_of(s) == word(s),
    {
    }

    /// The masks with the given words, in the order `U X 1 0 W H L Z -`.
    pub fn from_words(mu: u128, mx: u128, m1: u128, m0: u128, mw: u128, mh: u128, ml: u128, mz: u128, md: u128) -> (r: Masks)
        ensures
            r.mask_of(Ieee1164::_U()) == mu,
            r.mask_of(Ieee1164::_X()) == mx,
            r.mask_of(Ieee1164::_1()) == m1,
            r.mask_of(Ieee1164::_0()) == m0,
            r.mask_of(Ieee1164::_W()) == mw,
            r.mask_of(Ieee1164::_H()) == mh,
            r.mask_of(Ieee1164::_L()) == ml,
            r.mask_of(Ieee1164::_Z()) == mz,
            r.mask_of(Ieee1164::_D()) == md,
    {
        Masks { _U: mu, _X: mx, _1: m1, _0: m0, _W: mw, _H: mh, _L: ml, _Z: mz, _D: md }
    }

    /// Whether position `i` is marked as holding `s`.
    pub open spec fn has(self, s: Ieee1164, i: int) -> bool {
        bit(self.mask_of(s), i)
    }

    /// How many values position `i` is marked with.
    pub open spec fn count(self, i: int) -> int {
        one_if(self.has(Ieee1164::_U(), i)) + one_if(self.has(Ieee1164::_X(), i)) + one_if(self.has(Ieee1164::_1(), i)) + one_if(self.has(Ieee1164::_0(), i)) + one_if(self.has(Ieee1164::_W(), i)) + one_if(self.has(Ieee1164::_H(), i)) + one_if(self.has(Ieee1164::_L(), i)) + one_if(self.has(Ieee1164::_Z(), i)) + one_if(self.has(Ieee1164::_D(), i))
    }

    /// How many values a position must be marked with: one inside the width,
    /// none outside.
    pub open spec fn expected(i: int, width: int) -> int {
        if i < width {
            1
        } else {
            0
        }
    }

    /// The invariant of a packed vector of the given width: each position
    /// below the width is marked with exactly one value, and no position at
    /// or above it is marked at all.
    pub open spec fn sane(self, width: int) -> bool {
        forall|i: int| 0 <= i < 128 ==> #[trigger] self.count(i) == Self::expected(i, width)
    }

    /// What is wrong at position `i`, if anything.
    pub open spec fn fault(self, i: int, width: int) -> Option<SanityChecked> {
        if self.count(i) == Self::expected(i, width) {
            None
        } else if i >= width {
            Some(SanityChecked::OneAboveWidth(i as u8))
        } else if self.count(i) == 0 {
            Some(SanityChecked::NoOne(i as u8))
        } else {
            Some(SanityChecked::MoreThanOne(i as u8))
        }
    }

    /// The first value of the walk that position `i` is marked with; don't
    /// care when it is marked with none of the eight before it.
    pub open spec fn at(self, i: int) -> Ieee1164 {
        if self.has(Ieee1164::_U(), i) {
            Ieee1164::_U()
        } else if self.has(Ieee1164::_X(), i) {
            Ieee1164::_X()
        } else if self.has(Ieee1164::_1(), i) {
            Ieee1164::_1()
        } else if self.has(Ieee1164::_0(), i) {
            Ieee1164::_0()
        } else if self.has(Ieee1164::_W(), i) {
            Ieee1164::_W()
        } else if self.has(Ieee1164::_H(), i) {
            Ieee1164::_H()
        } else if self.has(Ieee1164::_L(), i) {
            Ieee1164::_L()
        } else if self.has(Ieee1164::_Z(), i) {
            Ieee1164::_Z()
        } else {
            Ieee1164::_D()
        }
    }

    /// Masks are equal when the words of all values are.
    pub proof fn lemma_masks_equal(a: Masks, b: Masks)
        requires
            forall|s: Ieee1164| #[trigger] a.mask_of(s) == b.mask_of(s),
        ensures
            a == b,
    {
        assert(a.mask_of(Ieee1164::_U()) == b.mask_of(Ieee1164::_U()));
        assert(a.mask_of(Ieee1164::_X()) == b.mask_of(Ieee1164::_X()));
        assert(a.mask_of(Ieee1164::_1()) == b.mask_of(Ieee1164::_1()));
        assert(a.mask_of(Ieee1164::_0()) == b.mask_of(Ieee1164::_0()));
        assert(a.mask_of(Ieee1164::_W()) == b.mask_of(Ieee1164::_W()));
        assert(a.mask_of(Ieee1164::_H()) == b.mask_of(Ieee1164::_H()));
        assert(a.mask_of(Ieee1164::_L()) == b.mask_of(Ieee1164::_L()));
        assert(a.mask_of(Ieee1164::_Z()) == b.mask_of(Ieee1164::_Z()));
        assert(a.mask_of(Ieee1164::_D()) == b.mask_of(Ieee1164::_D()));
    }

    /// Sane masks that mark every position alike are equal.
    pub proof fn lemma_marks_equal(a: Masks, b: Masks)
        requires
            forall|s: Ieee1164, i: int| 0 <= i < 128 ==> #[trigger] a.has(s, i) == b.has(s, i),
        ensures
            a == b,
    {
        assert forall|s: Ieee1164| #[trigger] a.mask_of(s) == b.mask_of(s) by {
            assert forall|i: int| 0 <= i < 128 implies bit(a.mask_of(s), i) == bit(
                b.mask_of(s),
                i,
            ) by {
                assert(a.has(s, i) == b.has(s, i));
            }
            lemma_bits_equal(a.mask_of(s), b.mask_of(s));
        }
        Self::lemma_masks_equal(a, b);
    }

    /// The word of a value.
    pub fn mask(&self, s: Ieee1164) -> (r: u128)
        ensures
            r == self.mask_of(s),
    {
        match s {
            Ieee1164::Uninitialized => self._U,
            Ieee1164::Strong(Ieee1164Value::Unknown) => self._X,
            Ieee1164::Strong(Ieee1164Value::One) => self._1,
            Ieee1164::Strong(Ieee1164Value::Zero) => self._0,
            Ieee1164::Weak(Ieee1164Value::Unknown) => self._W,
            Ieee1164::Weak(Ieee1164Value::One) => self._H,
            Ieee1164::Weak(Ieee1164Value::Zero) => self._L,
            Ieee1164::HighImpedance => self._Z,
            Ieee1164::DontCare => self._D,
        }
    }

    /// Replaces the word of one value and leaves the others.
    pub fn set_mask(&mut self, s: Ieee1164, word: u128)
        ensures
            forall|t: Ieee1164| #[trigger]
                final(self).mask_of(t) == if t == s {
                    word
                } else {
                    old(self).mask_of(t)
                },
    {
        match s {
            Ieee1164::Uninitialized => {
                self._U = word;
            },
            Ieee1164::Strong(Ieee1164Value::Unknown) => {
                self._X = word;
            },
            Ieee1164::Strong(Ieee1164Value::One) => {
                self._1 = word;
            },
            Ieee1164::Strong(Ieee1164Value::Zero) => {
                self._0 = word;
            },
            Ieee1164::Weak(Ieee1164Value::Unknown) => {
                self._W = word;
            },
            Ieee1164::Weak(Ieee1164Value::One) => {
                self._H = word;
            },
            Ieee1164::Weak(Ieee1164Value::Zero) => {
                self._L = word;
            },
            Ieee1164::HighImpedance => {
                self._Z = word;
            },
            Ieee1164::DontCare => {
                self._D = word;
            },
        }
    }

    /// The value at position `index`: the first of the walk that the
    /// position is marked with.
    pub fn get(&self, index: u8) -> (r: Ieee1164)
        requires
            index < 128,
            self.count(index as int) >= 1,
        ensures
            r == self.at(index as int),
            self.has(r, index as int),
    {
        if bit_at(self._U, index) {
            Ieee1164::_U()
        } else if bit_at(self._X, index) {
            Ieee1164::_X()
        } else if bit_at(self._1, index) {
            Ieee1164::_1()
        } else if bit_at(self._0, index) {
            Ieee1164::_0()
        } else if bit_at(self._W, index) {
            Ieee1164::_W()
        } else if bit_at(self._H, index) {
            Ieee1164::_H()
        } else if bit_at(self._L, index) {
            Ieee1164::_L()
        } else if bit_at(self._Z, index) {
            Ieee1164::_Z()
        } else {
            Ieee1164::_D()
        }
    }

    /// Marks position `index` with `value` and with nothing else.
    pub fn set(&mut self, index: u8, value: Ieee1164)
        requires
            index < 128,
        ensures
            forall|s: Ieee1164, i: int|
                0 <= i < 128 ==> #[trigger] final(self).has(s, i) == if i == index {
                    s == value
                } else {
                    old(self).has(s, i)
                },
            final(self).count(index as int) == 1,
            final(self).at(index as int) == value,
    {
        let one: u128 = 1u128 << index;
        let mu: u128 = if value.is_U() {
            self._U | one
        } else {
            self._U & !one
        };
        let mx: u128 = if value.is_X() {
            self._X | one
        } else {
            self._X & !one
        };
        let m1: u128 = if value.is_1() {
            self._1 | one
        } else {
            self._1 & !one
        };
        let m0: u128 = if value.is_0() {
            self._0 | one
        } else {
            self._0 & !one
        };
        let mw: u128 = if value.is_W() {
            self._W | one
        } else {
            self._W & !one
        };
        let mh: u128 = if value.is_H() {
            self._H | one
        } else {
            self._H & !one
        };
        let ml: u128 = if value.is_L() {
            self._L | one
        } else {
            self._L & !one
        };
        let mz: u128 = if value.is_Z() {
            self._Z | one
        } else {
            self._Z & !one
        };
        let md: u128 = if value.is_D() {
            self._D | one
        } else {
            self._D & !one
        };
        let ghost before = *self;
        *self = Masks { _U: mu, _X: mx, _1: m1, _0: m0, _W: mw, _H: mh, _L: ml, _Z: mz, _D: md };
        proof {
            lemma_bit_ops();
            assert(one == 1u128 << (index as u32));
            assert forall|s: Ieee1164, i: int| 0 <= i < 128 implies #[trigger] self.has(s, i) == if i
                == index {
                s == value
            } else {
                before.has(s, i)
            } by {
                lemma_bit_single(index as u32, i as u32);
                let o = before.mask_of(s);
                assert(self.mask_of(s) == if s == value {
                    o | one
                } else {
                    o & !one
                });
                assert(get(o | one, i as u32) == (get(o, i as u32) || get(one, i as u32)));
                assert(get(o & !one, i as u32) == (get(o, i as u32) && get(!one, i as u32)));
                assert(get(!one, i as u32) == !get(one, i as u32));
            }
            assert(self.has(Ieee1164::_U(), index as int) == (Ieee1164::_U() == value));
            assert(self.has(Ieee1164::_X(), index as int) == (Ieee1164::_X() == value));
            assert(self.has(Ieee1164::_1(), index as int) == (Ieee1164::_1() == value));
            assert(self.has(Ieee1164::_0(), index as int) == (Ieee1164::_0() == value));
            assert(self.has(Ieee1164::_W(), index as int) == (Ieee1164::_W() == value));
            assert(self.has(Ieee1164::_H(), index as int) == (Ieee1164::_H() == value));
            assert(self.has(Ieee1164::_L(), index as int) == (Ieee1164::_L() == value));
            assert(self.has(Ieee1164::_Z(), index as int) == (Ieee1164::_Z() == value));
            assert(self.has(Ieee1164::_D(), index as int) == (Ieee1164::_D() == value));
        }
    }

    /// Marks every position from `from` up to, not including, `to` with
    /// `value` and with nothing else. Other positions stay as they are.
    pub fn fill(&mut self, from: u8, to: u8, value: Ieee1164)
        requires
            from <= to <= 128,
        ensures
            forall|s: Ieee1164, i: int|
                0 <= i < 128 ==> #[trigger] final(self).has(s, i) == if from <= i < to {
                    s == value
                } else {
                    old(self).has(s, i)
                },
    {
        let range: u128 = mask_from_width(to) & !mask_from_width(from);
        let mu: u128 = if value.is_U() {
            self._U | range
        } else {
            self._U & !range
        };
        let mx: u128 = if value.is_X() {
            self._X | range
        } else {
            self._X & !range
        };
        let m1: u128 = if value.is_1() {
            self._1 | range
        } else {
            self._1 & !range
        };
        let m0: u128 = if value.is_0() {
            self._0 | range
        } else {
            self._0 & !range
        };
        let mw: u128 = if value.is_W() {
            self._W | range
        } else {
            self._W & !range
        };
        let mh: u128 = if value.is_H() {
            self._H | range
        } else {
            self._H & !range
        };
        let ml: u128 = if value.is_L() {
            self._L | range
        } else {
            self._L & !range
        };
        let mz: u128 = if value.is_Z() {
            self._Z | range
        } else {
            self._Z & !range
        };
        let md: u128 = if value.is_D() {
            self._D | range
        } else {
            self._D & !range
        };
        let ghost before = *self;
        *self = Masks { _U: mu, _X: mx, _1: m1, _0: m0, _W: mw, _H: mh, _L: ml, _Z: mz, _D: md };
        proof {
            lemma_bit_ops();
            assert forall|s: Ieee1164, i: int| 0 <= i < 128 implies #[trigger] self.has(s, i) == if from
                <= i < to {
                s == value
            } else {
                before.has(s, i)
            } by {
                lemma_low_mask(to as int, i);
                lemma_low_mask(from as int, i);
                let hi = low_mask(to as int);
                let lo = low_mask(from as int);
                assert(get(hi & !lo, i as u32) == (get(hi, i as u32) && get(!lo, i as u32)));
                assert(get(!lo, i as u32) == !get(lo, i as u32));
                let o = before.mask_of(s);
                assert(self.mask_of(s) == if s == value {
                    o | range
                } else {
                    o & !range
                });
                assert(get(o | range, i as u32) == (get(o, i as u32) || get(range, i as u32)));
                assert(get(o & !range, i as u32) == (get(o, i as u32) && get(!range, i as u32)));
                assert(get(!range, i as u32) == !get(range, i as u32));
            }
        }
    }

    /// The masks moved down by `by` positions: position `i` of the result is
    /// marked as position `i + by` was. What was below `by` is lost.
    pub fn shifted_down(&self, by: u8) -> (r: Masks)
        requires
            by < 128,
        ensures
            forall|s: Ieee1164, i: int| 0 <= i < 128 ==> #[trigger] r.has(s, i) == self.has(s, i + by),
    {
        let r = Masks { _U: self._U >> by, _X: self._X >> by, _1: self._1 >> by, _0: self._0 >> by, _W: self._W >> by, _H: self._H >> by, _L: self._L >> by, _Z: self._Z >> by, _D: self._D >> by };
        proof {
            assert forall|s: Ieee1164, i: int| 0 <= i < 128 implies #[trigger] r.has(s, i)
                == self.has(s, i + by) by {
                let o = self.mask_of(s);
                assert(r.mask_of(s) == o >> by);
                assert(o >> by == o >> (by as u32));
                lemma_bit_shr(o, by as u32, i as u32);
            }
        }
        r
    }

    /// The masks with every position at or above `width` cleared.
    pub fn kept_below(&self, width: u8) -> (r: Masks)
        requires
            width <= 128,
        ensures
            forall|s: Ieee1164, i: int|
                0 <= i < 128 ==> #[trigger] r.has(s, i) == (i < width && self.has(s, i)),
    {
        let low: u128 = mask_from_width(width);
        let r = Masks { _U: self._U & low, _X: self._X & low, _1: self._1 & low, _0: self._0 & low, _W: self._W & low, _H: self._H & low, _L: self._L & low, _Z: self._Z & low, _D: self._D & low };
        proof {
            lemma_bit_ops();
            assert forall|s: Ieee1164, i: int| 0 <= i < 128 implies #[trigger] r.has(s, i) == (i
                < width && self.has(s, i)) by {
                lemma_low_mask(width as int, i);
                let o = self.mask_of(s);
                assert(r.mask_of(s) == o & low);
                assert(get(o & low, i as u32) == (get(o, i as u32) && get(low, i as u32)));
            }
        }
        r
    }

    /// How many values position `index` is marked with.
    pub fn count_at(&self, index: u8) -> (c: u8)
        requires
            index < 128,
        ensures
            c == self.count(index as int),
            c <= 9,
    {
        let mut c: u8 = 0;
        if bit_at(self._U, index) {
            c = c + 1;
        }
        if bit_at(self._X, index) {
            c = c + 1;
        }
        if bit_at(self._1, index) {
            c = c + 1;
        }
        if bit_at(self._0, index) {
            c = c + 1;
        }
        if bit_at(self._W, index) {
            c = c + 1;
        }
        if bit_at(self._H, index) {
            c = c + 1;
        }
        if bit_at(self._L, index) {
            c = c + 1;
        }
        if bit_at(self._Z, index) {
            c = c + 1;
        }
        if bit_at(self._D, index) {
            c = c + 1;
        }
        c
    }

    /// Checks the invariant of a packed vector of the given width, position
    /// by position from the lowest, and reports the first fault.
    pub fn sanity_check(&self, width: u8) -> (r: Result<(), SanityChecked>)
        ensures
            r is Ok <==> self.sane(width as int),
            r matches Err(e) ==> exists|d: int|
                0 <= d < 128 && #[trigger] self.fault(d, width as int) == Some(e) && forall|j: int|
                    0 <= j < d ==> #[trigger] self.fault(j, width as int) is None,
    {
        let mut d: u8 = 0;
        while d < 128
            invariant
                d <= 128,
                forall|j: int| 0 <= j < d ==> #[trigger] self.fault(j, width as int) is None,
            decreases 128 - d,
        {
            let c = self.count_at(d);
            if d >= width {
                if c != 0 {
                    assert(self.fault(d as int, width as int) == Some(
                        SanityChecked::OneAboveWidth(d),
                    ));
                    return Err(SanityChecked::OneAboveWidth(d));
                }
            } else if c == 0 {
                assert(self.fault(d as int, width as int) == Some(SanityChecked::NoOne(d)));
                return Err(SanityChecked::NoOne(d));
            } else if c > 1 {
                assert(self.fault(d as int, width as int) == Some(SanityChecked::MoreThanOne(d)));
                return Err(SanityChecked::MoreThanOne(d));
            }
            d = d + 1;
        }
        proof {
            assert forall|i: int| 0 <= i < 128 implies #[trigger] self.count(i) == Self::expected(
                i,
                width as int,
            ) by {
                assert(self.fault(i, width as int) is None);
            }
        }
        Ok(())
    }

    /// A walk over the nine words, each with its value.
    pub fn iter(&self) -> (it: Iter<'_>)
        ensures
            it.masks() == *self,
            it.position() == 0,
    {
        Iter { mask: self, pos: 0 }
    }
}

/// A walk over the nine words of some masks.
pub struct Iter<'a> {
    mask: &'a Masks,
    pos: u8,
}

impl<'a> Iter<'a> {
    /// The masks that are walked.
    pub closed spec fn masks(&self) -> Masks {
        *self.mask
    }

    /// How many words the walk has handed out.
    pub closed spec fn position(&self) -> int {
        self.pos as int
    }

    /// The next word with its value, or nothing after the ninth.
    pub fn next(&mut self) -> (r: Option<(Ieee1164, &'a u128)>)
        requires
            old(self).position() <= 9,
        ensures
            final(self).masks() == old(self).masks(),
            old(self).position() < 9 ==> final(self).position() == old(self).position() + 1 && r
                == Some(
                (
                    walk_order(old(self).position()),
                    &old(self).masks().mask_of(walk_order(old(self).position())),
                ),
            ),
            old(self).position() >= 9 ==> final(self).position() == old(self).position() && r
                is None,
    {
        if self.pos < 9 {
            let res = match self.pos {
                0 => (Ieee1164::_U(), &self.mask._U),
                1 => (Ieee1164::_X(), &self.mask._X),
                2 => (Ieee1164::_1(), &self.mask._1),
                3 => (Ieee1164::_0(), &self.mask._0),
                4 => (Ieee1164::_W(), &self.mask._W),
                5 => (Ieee1164::_H(), &self.mask._H),
                6 => (Ieee1164::_L(), &self.mask._L),
                7 => (Ieee1164::_Z(), &self.mask._Z),
                _ => (Ieee1164::_D(), &self.mask._D),
            };
            self.pos = self.pos + 1;
            Some(res)
        } else {
            None
        }
    }
}

/// A walk over the nine words of some masks that can change the words.
pub struct IterMut<'a> {
    /// The masks that are walked.
    pub mask: &'a mut Masks,
    /// How many words the walk has handed out.
    pub pos: u8,
}

impl Masks {
    /// A walk over the nine words, each with its value, that can change
    /// the words.
    pub fn iter_mut(&mut self) -> (it: IterMut<'_>)
        ensures
            it.masks() == *old(self),
            it.position() == 0,
            *final(self) == *final(it.mask),
    {
        IterMut { mask: self, pos: 0 }
    }
}

impl<'a> IterMut<'a> {
    /// The masks as they are now.
    pub open spec fn masks(&self) -> Masks {
        *self.mask
    }

    /// How many words the walk has handed out.
    pub open spec fn position(&self) -> int {
        self.pos as int
    }

    /// The next word with its value, or nothing after the ninth. What is
    /// written to the word is written to the masks.
    pub fn next(&mut self) -> (r: Option<(Ieee1164, &mut u128)>)
        requires
            old(self).position() <= 9,
        ensures
            *final(final(self).mask) == *final(old(self).mask),
            old(self).position() >= 9 ==> r is None && final(self).position() == old(self).position()
                && final(self).masks() == old(self).masks(),
            old(self).position() < 9 ==> final(self).position() == old(self).position() + 1 && r
                is Some,
            r matches Some((v, w)) ==> {
                &&& v == walk_order(old(self).position())
                &&& *w == old(self).masks().mask_of(v)
                &&& forall|t: Ieee1164| #[trigger]
                    final(self).masks().mask_of(t) == if t == v {
                        *final(w)
                    } else {
                        old(self).masks().mask_of(t)
                    }
            },
    {
        if self.pos < 9 {
            let pos = self.pos;
            self.pos = self.pos + 1;
            let res = match pos {
                0 => (Ieee1164::_U(), &mut self.mask._U),
                1 => (Ieee1164::_X(), &mut self.mask._X),
                2 => (Ieee1164::_1(), &mut self.mask._1),
                3 => (Ieee1164::_0(), &mut self.mask._0),
                4 => (Ieee1164::_W(), &mut self.mask._W),
                5 => (Ieee1164::_H(), &mut self.mask._H),
                6 => (Ieee1164::_L(), &mut self.mask._L),
                7 => (Ieee1164::_Z(), &mut self.mask._Z),
                _ => (Ieee1164::_D(), &mut self.mask._D),
            };
            Some(res)
        } else {
            None
        }
    }
}

} // verus!
