//! Three-valued logic: zero, one and unknown.

use vstd::prelude::*;
use crate::logicbit::Resolve;

verus! {

/// A value of three-valued logic.
#[derive(Debug, Clone, Copy, PartialEq, Eq, Hash, Structural)]
pub enum Ieee1164Value {
    /// A logic zero, or false.
    Zero,
    /// A logic one, or true.
    One,
    /// A value that is not known.
    Unknown,
}

impl Default for Ieee1164Value {
    fn default() -> (r: Self)
        ensures
            r == Ieee1164Value::Unknown,
    {
        Ieee1164Value::Unknown
    }
}

impl Ieee1164Value {
    /// Conjunction: a zero on either side decides; two ones give one.
    pub open spec fn and_spec(self, rhs: Self) -> Self {
        if self == Ieee1164Value::Zero || rhs == Ieee1164Value::Zero {
            Ieee1164Value::Zero
        } else if self == Ieee1164Value::One && rhs == Ieee1164Value::One {
            Ieee1164Value::One
        } else {
            Ieee1164Value::Unknown
        }
    }

    /// Disjunction: a one on either side decides; two zeros give zero.
    pub open spec fn or_spec(self, rhs: Self) -> Self {
        if self == Ieee1164Value::One || rhs == Ieee1164Value::One {
            Ieee1164Value::One
        } else if self == Ieee1164Value::Zero && rhs == Ieee1164Value::Zero {
            Ieee1164Value::Zero
        } else {
            Ieee1164Value::Unknown
        }
    }

    /// Exclusive or: unknown on either side gives unknown; otherwise one
    /// exactly when the sides differ.
    pub open spec fn xor_spec(self, rhs: Self) -> Self {
        if self == Ieee1164Value::Unknown || rhs == Ieee1164Value::Unknown {
            Ieee1164Value::Unknown
        } else if self == rhs {
            Ieee1164Value::Zero
        } else {
            Ieee1164Value::One
        }
    }

    /// Negation: zero and one swap, unknown stays.
    pub open spec fn not_spec(self) -> Self {
        match self {
            Ieee1164Value::Zero => Ieee1164Value::One,
            Ieee1164Value::One => Ieee1164Value::Zero,
            Ieee1164Value::Unknown => Ieee1164Value::Unknown,
        }
    }

    /// The canonical character: `0`, `1` or `U`.
    pub open spec fn char_spec(self) -> char {
        match self {
            Ieee1164Value::Zero => '0',
            Ieee1164Value::One => '1',
            Ieee1164Value::Unknown => 'U',
        }
    }

    /// The canonical character of the value.
    pub fn to_char(self) -> (c: char)
        ensures
            c == self.char_spec(),
    {
        match self {
            Ieee1164Value::Zero => '0',
            Ieee1164Value::One => '1',
            Ieee1164Value::Unknown => 'U',
        }
    }
}

/// Conjunction of two values.
pub fn and(a: &Ieee1164Value, b: &Ieee1164Value) -> (r: Ieee1164Value)
    ensures
        r == a.and_spec(*b),
{
    match (*a, *b) {
        (Ieee1164Value::Zero, _) | (_, Ieee1164Value::Zero) => Ieee1164Value::Zero,
        (Ieee1164Value::One, Ieee1164Value::One) => Ieee1164Value::One,
        _ => Ieee1164Value::Unknown,
    }
}

/// Disjunction of two values.
pub fn or(a: &Ieee1164Value, b: &Ieee1164Value) -> (r: Ieee1164Value)
    ensures
        r == a.or_spec(*b),
{
    match (*a, *b) {
        (Ieee1164Value::One, _) | (_, Ieee1164Value::One) => Ieee1164Value::One,
        (Ieee1164Value::Zero, Ieee1164Value::Zero) => Ieee1164Value::Zero,
        _ => Ieee1164Value::Unknown,
    }
}

/// Negation of a value.
pub fn not(a: Ieee1164Value) -> (r: Ieee1164Value)
    ensures
        r == a.not_spec(),
{
    match a {
        Ieee1164Value::Zero => Ieee1164Value::One,
        Ieee1164Value::Unknown => Ieee1164Value::Unknown,
        Ieee1164Value::One => Ieee1164Value::Zero,
    }
}

/// Exclusive or of two values.
pub fn xor(a: &Ieee1164Value, b: &Ieee1164Value) -> (r: Ieee1164Value)
    ensures
        r == a.xor_spec(*b),
{
    match (*a, *b) {
        (Ieee1164Value::Unknown, _) | (_, Ieee1164Value::Unknown) => Ieee1164Value::Unknown,
        (x, y) => if x == y {
            Ieee1164Value::Zero
        } else {
            Ieee1164Value::One
        },
    }
}

/// Two drivers that agree give their value; any disagreement is unknown.
pub fn resolve(a: &Ieee1164Value, b: &Ieee1164Value) -> (r: Ieee1164Value)
    ensures
        r == (if *a == *b { *a } else { Ieee1164Value::Unknown }),
{
    if *a == *b {
        *a
    } else {
        Ieee1164Value::Unknown
    }
}

impl Resolve for Ieee1164Value {
    open spec fn wire_width(&self) -> nat {
        1
    }

    open spec fn resolution(&self, rhs: &Self) -> Self {
        if *self == *rhs {
            *self
        } else {
            Ieee1164Value::Unknown
        }
    }

    fn resolve(&self, rhs: &Self) -> (r: Self) {
        self::resolve(self, rhs)
    }

    fn width(&self) -> (w: usize) {
        1
    }

    fn same_as(&self, rhs: &Self) -> (r: bool) {
        *self == *rhs
    }

    proof fn lemma_resolve_commutative(a: &Self, b: &Self) {
    }
}

impl core::ops::BitAnd for Ieee1164Value {
    type Output = Ieee1164Value;

    fn bitand(self, rhs: Ieee1164Value) -> (r: Ieee1164Value) {
        and(&self, &rhs)
    }
}

impl vstd::std_specs::ops::BitAndSpecImpl for Ieee1164Value {
    open spec fn obeys_bitand_spec() -> bool {
        true
    }

    open spec fn bitand_req(self, rhs: Ieee1164Value) -> bool {
        true
    }

    open spec fn bitand_spec(self, rhs: Ieee1164Value) -> Ieee1164Value {
        self.and_spec(rhs)
    }
}

impl core::ops::BitOr for Ieee1164Value {
    type Output = Ieee1164Value;

    fn bitor(self, rhs: Ieee1164Value) -> (r: Ieee1164Value) {
        or(&self, &rhs)
    }
}

impl vstd::std_specs::ops::BitOrSpecImpl for Ieee1164Value {
    open spec fn obeys_bitor_spec() -> bool {
        true
    }

    open spec fn bitor_req(self, rhs: Ieee1164Value) -> bool {
        true
    }

    open spec fn bitor_spec(self, rhs: Ieee1164Value) -> Ieee1164Value {
        self.or_spec(rhs)
    }
}

impl core::ops::BitXor for Ieee1164Value {
    type Output = Ieee1164Value;

    fn bitxor(self, rhs: Ieee1164Value) -> (r: Ieee1164Value) {
        xor(&self, &rhs)
    }
}

impl vstd::std_specs::ops::BitXorSpecImpl for Ieee1164Value {
    open spec fn obeys_bitxor_spec() -> bool {
        true
    }

    open spec fn bitxor_req(self, rhs: Ieee1164Value) -> bool {
        true
    }

    open spec fn bitxor_spec(self, rhs: Ieee1164Value) -> Ieee1164Value {
        self.xor_spec(rhs)
    }
}

impl core::ops::Not for Ieee1164Value {
    type Output = Ieee1164Value;

    fn not(self) -> (r: Ieee1164Value) {
        self::not(self)
    }
}

impl vstd::std_specs::ops::NotSpecImpl for Ieee1164Value {
    open spec fn obeys_not_spec() -> bool {
        true
    }

    open spec fn not_req(self) -> bool {
        true
    }

    open spec fn not_spec(self) -> Ieee1164Value {
        Ieee1164Value::not_spec(self)
    }
}

} // verus!
