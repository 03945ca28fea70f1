//! A plain number with a width.

use vstd::prelude::*;
use crate::logicbit::logicvector::bits::mask_from_width;
use crate::logicbit::logicvector::bits::low_mask;
use crate::logicbit::Resolve;

verus! {

/// A number of a width: the simplest value that resolves. Two drivers of
/// one width resolve to the bitwise or of their numbers.
///
/// Two integers compare equal when their numbers are, whatever their
/// widths.
#[derive(Debug, Clone, Copy)]
pub struct Integer {
    value: u128,
    width: u8,
}

impl Default for Integer {
    fn default() -> (r: Self)
        ensures
            r.value_spec() == 0,
            r.width_spec() == 0,
    {
        Integer { value: 0, width: 0 }
    }
}

impl PartialEq for Integer {
    fn eq(&self, other: &Integer) -> (r: bool) {
        self.value == other.value
    }
}

impl Eq for Integer {

}

impl vstd::std_specs::cmp::PartialEqSpecImpl for Integer {
    open spec fn obeys_eq_spec() -> bool {
        true
    }

    open spec fn eq_spec(&self, other: &Integer) -> bool {
        self.value_spec() == other.value_spec()
    }
}

impl PartialEq<u128> for Integer {
    fn eq(&self, other: &u128) -> (r: bool) {
        self.value == *other
    }
}

impl vstd::std_specs::cmp::PartialEqSpecImpl<u128> for Integer {
    open spec fn obeys_eq_spec() -> bool {
        true
    }

    open spec fn eq_spec(&self, other: &u128) -> bool {
        self.value_spec() == *other
    }
}

impl Integer {
    /// The number.
    pub closed spec fn value_spec(&self) -> u128 {
        self.value
    }

    /// The width.
    pub closed spec fn width_spec(&self) -> u8 {
        self.width
    }

    /// Zero, 128 bits wide.
    pub fn new() -> (r: Self)
        ensures
            r.value_spec() == 0,
            r.width_spec() == 128,
    {
        Integer { value: 0, width: 128 }
    }

    /// The given number, of the given width, or 128 bits wide where none
    /// is given.
    pub fn new_with_value(value: u128, width: Option<u8>) -> (r: Self)
        ensures
            r.value_spec() == value,
            r.width_spec() == match width {
                Some(w) => w,
                None => 128u8,
            },
    {
        let width = match width {
            Some(w) => w,
            None => 128,
        };
        Integer { value, width }
    }

    /// Zero of the given width. There is none of a width of no bits or of
    /// more than 128.
    pub fn new_with_width(width: u8) -> (r: Option<Self>)
        ensures
            r is Some <==> 1 <= width <= 128,
            r matches Some(i) ==> i.value_spec() == 0 && i.width_spec() == width,
    {
        if width != 0 && width <= 128 {
            Some(Integer { value: 0, width })
        } else {
            None
        }
    }

    /// The number.
    pub fn value(&self) -> (v: u128)
        ensures
            v == self.value_spec(),
    {
        self.value
    }

    /// The width.
    pub fn width(&self) -> (w: u8)
        ensures
            w == self.width_spec(),
    {
        self.width
    }

    /// Cuts the number to its low `width` bits. The width that the integer
    /// reports stays. A width of no bits or of more than 128 changes
    /// nothing.
    pub fn set_width(&mut self, width: u8)
        ensures
            final(self).width_spec() == old(self).width_spec(),
            final(self).value_spec() == if 1 <= width <= 128 {
                old(self).value_spec() & low_mask(width as int)
            } else {
                old(self).value_spec()
            },
    {
        if width != 0 && width <= 128 {
            self.value = self.value & mask_from_width(width);
        }
    }
}

impl Resolve for Integer {
    open spec fn wire_width(&self) -> nat {
        self.width_spec() as nat
    }

    closed spec fn resolution(&self, rhs: &Self) -> Self {
        Integer { value: self.value | rhs.value, width: self.width }
    }

    fn resolve(&self, rhs: &Self) -> (r: Self)
        ensures
            r.value_spec() == self.value_spec() | rhs.value_spec(),
            r.width_spec() == self.width_spec(),
    {
        Integer { value: self.value | rhs.value, width: self.width }
    }

    fn width(&self) -> (w: usize) {
        self.width as usize
    }

    fn same_as(&self, rhs: &Self) -> (r: bool) {
        self.value == rhs.value && self.width == rhs.width
    }

    proof fn lemma_resolve_commutative(a: &Self, b: &Self) {
        let (x, y) = (a.value, b.value);
        assert(x | y == y | x) by (bit_vector);
    }
}

impl Integer {
    /// What two integers of one width resolve to: the bitwise or of their
    /// numbers, at their width.
    pub proof fn lemma_resolution(a: Integer, b: Integer)
        ensures
            a.resolution(&b).value_spec() == a.value_spec() | b.value_spec(),
            a.resolution(&b).width_spec() == a.width_spec(),
    {
    }
}

} // verus!
