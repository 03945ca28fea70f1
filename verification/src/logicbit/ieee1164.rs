//! The nine-valued scalar of IEEE 1164.

use vstd::prelude::*;
use crate::logicbit::tvlogic::Ieee1164Value;
use crate::logicbit::Resolve;

verus! {

/// A value of the nine-valued logic of IEEE 1164.
///
/// Equality is the only order on these values. Each has one canonical
/// character, in the order `U X 0 1 Z W L H -`.
#[derive(Debug, Clone, Copy, PartialEq, Eq, Hash, Structural)]
pub enum Ieee1164 {
    /// Not initialized yet: the default.
    Uninitialized,
    /// A strongly driven value.
    Strong(Ieee1164Value),
    /// A weakly driven value.
    Weak(Ieee1164Value),
    /// Not driven at all.
    HighImpedance,
    /// A value that does not matter.
    DontCare,
}

impl Default for Ieee1164 {
    fn default() -> (r: Self)
        ensures
            r == Ieee1164::Uninitialized,
    {
        Ieee1164::Uninitialized
    }
}

impl Ieee1164 {
    /// Uninitialized, written `U`: the default.
    pub open spec fn spec_u() -> Ieee1164 {
        Ieee1164::Uninitialized
    }

    /// Uninitialized, written `U`: the default.
    #[verifier::when_used_as_spec(spec_u)]
    pub fn _U() -> (r: Ieee1164)
        ensures
            r == Ieee1164::Uninitialized,
    {
        Ieee1164::Uninitialized
    }

    /// Strong unknown, written `X`: two strong drivers in conflict.
    pub open spec fn spec_x() -> Ieee1164 {
        Ieee1164::Strong(Ieee1164Value::Unknown)
    }

    /// Strong unknown, written `X`: two strong drivers in conflict.
    #[verifier::when_used_as_spec(spec_x)]
    pub fn _X() -> (r: Ieee1164)
        ensures
            r == Ieee1164::Strong(Ieee1164Value::Unknown),
    {
        Ieee1164::Strong(Ieee1164Value::Unknown)
    }

    /// Strong zero, written `0`.
    pub open spec fn spec_0() -> Ieee1164 {
        Ieee1164::Strong(Ieee1164Value::Zero)
    }

    /// Strong zero, written `0`.
    #[verifier::when_used_as_spec(spec_0)]
    pub fn _0() -> (r: Ieee1164)
        ensures
            r == Ieee1164::Strong(Ieee1164Value::Zero),
    {
        Ieee1164::Strong(Ieee1164Value::Zero)
    }

    /// Strong one, written `1`.
    pub open spec fn spec_1() -> Ieee1164 {
        Ieee1164::Strong(Ieee1164Value::One)
    }

    /// Strong one, written `1`.
    #[verifier::when_used_as_spec(spec_1)]
    pub fn _1() -> (r: Ieee1164)
        ensures
            r == Ieee1164::Strong(Ieee1164Value::One),
    {
        Ieee1164::Strong(Ieee1164Value::One)
    }

    /// High impedance, written `Z`.
    pub open spec fn spec_z() -> Ieee1164 {
        Ieee1164::HighImpedance
    }

    /// High impedance, written `Z`.
    #[verifier::when_used_as_spec(spec_z)]
    pub fn _Z() -> (r: Ieee1164)
        ensures
            r == Ieee1164::HighImpedance,
    {
        Ieee1164::HighImpedance
    }

    /// Weak unknown, written `W`: two weak drivers in conflict.
    pub open spec fn spec_w() -> Ieee1164 {
        Ieee1164::Weak(Ieee1164Value::Unknown)
    }

    /// Weak unknown, written `W`: two weak drivers in conflict.
    #[verifier::when_used_as_spec(spec_w)]
    pub fn _W() -> (r: Ieee1164)
        ensures
            r == Ieee1164::Weak(Ieee1164Value::Unknown),
    {
        Ieee1164::Weak(Ieee1164Value::Unknown)
    }

    /// Weak zero, written `L`.
    pub open spec fn spec_l() -> Ieee1164 {
        Ieee1164::Weak(Ieee1164Value::Zero)
    }

    /// Weak zero, written `L`.
    #[verifier::when_used_as_spec(spec_l)]
    pub fn _L() -> (r: Ieee1164)
        ensures
            r == Ieee1164::Weak(Ieee1164Value::Zero),
    {
        Ieee1164::Weak(Ieee1164Value::Zero)
    }

    /// Weak one, written `H`.
    pub open spec fn spec_h() -> Ieee1164 {
        Ieee1164::Weak(Ieee1164Value::One)
    }

    /// Weak one, written `H`.
    #[verifier::when_used_as_spec(spec_h)]
    pub fn _H() -> (r: Ieee1164)
        ensures
            r == Ieee1164::Weak(Ieee1164Value::One),
    {
        Ieee1164::Weak(Ieee1164Value::One)
    }

    /// Don't care, written `-`.
    pub open spec fn spec_d() -> Ieee1164 {
        Ieee1164::DontCare
    }

    /// Don't care, written `-`.
    #[verifier::when_used_as_spec(spec_d)]
    pub fn _D() -> (r: Ieee1164)
        ensures
            r == Ieee1164::DontCare,
    {
        Ieee1164::DontCare
    }
}

impl Ieee1164 {
    /// Zero at either strength: `0` or `L`.
    pub open spec fn low(self) -> bool {
        self == Ieee1164::_0() || self == Ieee1164::_L()
    }

    /// One at either strength: `1` or `H`.
    pub open spec fn high(self) -> bool {
        self == Ieee1164::_1() || self == Ieee1164::_H()
    }

    /// Driven weakly: `W`, `L` or `H`.
    pub open spec fn weak(self) -> bool {
        self is Weak
    }

    /// Conjunction. A zero on either side gives `0` whatever its strength;
    /// failing that an uninitialized side gives `U`; two ones give `1`;
    /// everything else is `X`.
    pub open spec fn and_spec(self, rhs: Ieee1164) -> Ieee1164 {
        if self.low() || rhs.low() {
            Ieee1164::_0()
        } else if self == Ieee1164::_U() || rhs == Ieee1164::_U() {
            Ieee1164::_U()
        } else if self.high() && rhs.high() {
            Ieee1164::_1()
        } else {
            Ieee1164::_X()
        }
    }

    /// Disjunction. A one on either side gives `1` whatever its strength;
    /// failing that an uninitialized side gives `U`; two zeros give `0`;
    /// everything else is `X`.
    pub open spec fn or_spec(self, rhs: Ieee1164) -> Ieee1164 {
        if self.high() || rhs.high() {
            Ieee1164::_1()
        } else if self == Ieee1164::_U() || rhs == Ieee1164::_U() {
            Ieee1164::_U()
        } else if self.low() && rhs.low() {
            Ieee1164::_0()
        } else {
            Ieee1164::_X()
        }
    }

    /// Exclusive or. An uninitialized side gives `U`; two sides that are
    /// each zero or one give `1` when they differ and `0` when they agree;
    /// everything else is `X`.
    pub open spec fn xor_spec(self, rhs: Ieee1164) -> Ieee1164 {
        if self == Ieee1164::_U() || rhs == Ieee1164::_U() {
            Ieee1164::_U()
        } else if (self.low() || self.high()) && (rhs.low() || rhs.high()) {
            if self.high() != rhs.high() {
                Ieee1164::_1()
            } else {
                Ieee1164::_0()
            }
        } else {
            Ieee1164::_X()
        }
    }

    /// Negation. Zero and one swap and come out strong, `U` stays `U`,
    /// everything else is `X`.
    pub open spec fn not_spec(self) -> Ieee1164 {
        if self == Ieee1164::_U() {
            Ieee1164::_U()
        } else if self.low() {
            Ieee1164::_1()
        } else if self.high() {
            Ieee1164::_0()
        } else {
            Ieee1164::_X()
        }
    }

    /// Resolution of two drivers on one wire. An absent driver (`Z`) yields
    /// to the other side, whatever that is. Among the rest `U` wins over
    /// everything, then `X` and `-` give `X`. After that a strong driver
    /// wins over a weak one, and two drivers of the same strength give their
    /// common value or, when they differ, the unknown of that strength.
    pub open spec fn resolve_spec(self, rhs: Ieee1164) -> Ieee1164 {
        if self == Ieee1164::_Z() {
            rhs
        } else if rhs == Ieee1164::_Z() {
            self
        } else if self == Ieee1164::_U() || rhs == Ieee1164::_U() {
            Ieee1164::_U()
        } else if self == Ieee1164::_X() || rhs == Ieee1164::_X() || self == Ieee1164::_D() || rhs
            == Ieee1164::_D() {
            Ieee1164::_X()
        } else if self.weak() == rhs.weak() {
            if self == rhs {
                self
            } else if self.weak() {
                Ieee1164::_W()
            } else {
                Ieee1164::_X()
            }
        } else if self.weak() {
            rhs
        } else {
            self
        }
    }

    /// The place of the value in the order `U X 0 1 Z W L H -`.
    pub open spec fn index_spec(self) -> nat {
        match self {
            Ieee1164::Uninitialized => 0,
            Ieee1164::Strong(Ieee1164Value::Unknown) => 1,
            Ieee1164::Strong(Ieee1164Value::Zero) => 2,
            Ieee1164::Strong(Ieee1164Value::One) => 3,
            Ieee1164::HighImpedance => 4,
            Ieee1164::Weak(Ieee1164Value::Unknown) => 5,
            Ieee1164::Weak(Ieee1164Value::Zero) => 6,
            Ieee1164::Weak(Ieee1164Value::One) => 7,
            Ieee1164::DontCare => 8,
        }
    }

    /// The place of the value in the order `U X 0 1 Z W L H -`.
    pub fn to_index(self) -> (i: usize)
        ensures
            i == self.index_spec(),
            i < 9,
    {
        match self {
            Ieee1164::Uninitialized => 0,
            Ieee1164::Strong(Ieee1164Value::Unknown) => 1,
            Ieee1164::Strong(Ieee1164Value::Zero) => 2,
            Ieee1164::Strong(Ieee1164Value::One) => 3,
            Ieee1164::HighImpedance => 4,
            Ieee1164::Weak(Ieee1164Value::Unknown) => 5,
            Ieee1164::Weak(Ieee1164Value::Zero) => 6,
            Ieee1164::Weak(Ieee1164Value::One) => 7,
            Ieee1164::DontCare => 8,
        }
    }

    /// The canonical character of the value.
    pub open spec fn char_spec(self) -> char {
        match self {
            Ieee1164::Uninitialized => 'U',
            Ieee1164::Strong(Ieee1164Value::Unknown) => 'X',
            Ieee1164::Strong(Ieee1164Value::Zero) => '0',
            Ieee1164::Strong(Ieee1164Value::One) => '1',
            Ieee1164::HighImpedance => 'Z',
            Ieee1164::Weak(Ieee1164Value::Unknown) => 'W',
            Ieee1164::Weak(Ieee1164Value::Zero) => 'L',
            Ieee1164::Weak(Ieee1164Value::One) => 'H',
            Ieee1164::DontCare => '-',
        }
    }

    /// The value that a character stands for, in either case; `*`, `-` and
    /// `d` all mean don't care. Other characters stand for nothing.
    pub open spec fn parse_spec(c: char) -> Option<Ieee1164> {
        if c == 'u' || c == 'U' {
            Some(Ieee1164::_U())
        } else if c == 'x' || c == 'X' {
            Some(Ieee1164::_X())
        } else if c == '0' {
            Some(Ieee1164::_0())
        } else if c == '1' {
            Some(Ieee1164::_1())
        } else if c == 'z' || c == 'Z' {
            Some(Ieee1164::_Z())
        } else if c == 'w' || c == 'W' {
            Some(Ieee1164::_W())
        } else if c == 'l' || c == 'L' {
            Some(Ieee1164::_L())
        } else if c == 'h' || c == 'H' {
            Some(Ieee1164::_H())
        } else if c == '*' || c == '-' || c == 'd' || c == 'D' {
            Some(Ieee1164::_D())
        } else {
            None
        }
    }

    /// The canonical character of the value.
    pub fn to_char(self) -> (c: char)
        ensures
            c == self.char_spec(),
    {
        match self {
            Ieee1164::Uninitialized => 'U',
            Ieee1164::Strong(Ieee1164Value::Unknown) => 'X',
            Ieee1164::Strong(Ieee1164Value::Zero) => '0',
            Ieee1164::Strong(Ieee1164Value::One) => '1',
            Ieee1164::HighImpedance => 'Z',
            Ieee1164::Weak(Ieee1164Value::Unknown) => 'W',
            Ieee1164::Weak(Ieee1164Value::Zero) => 'L',
            Ieee1164::Weak(Ieee1164Value::One) => 'H',
            Ieee1164::DontCare => '-',
        }
    }

    /// Reads a value from its character. Fails exactly on the characters
    /// that stand for no value.
    pub fn try_from_char(c: char) -> (r: Result<Ieee1164, ()>)
        ensures
            r == match Ieee1164::parse_spec(c) {
                Some(v) => Ok::<Ieee1164, ()>(v),
                None => Err::<Ieee1164, ()>(()),
            },
    {
        match c {
            'u' | 'U' => Ok(Ieee1164::_U()),
            'x' | 'X' => Ok(Ieee1164::_X()),
            '0' => Ok(Ieee1164::_0()),
            '1' => Ok(Ieee1164::_1()),
            'z' | 'Z' => Ok(Ieee1164::_Z()),
            'w' | 'W' => Ok(Ieee1164::_W()),
            'l' | 'L' => Ok(Ieee1164::_L()),
            'h' | 'H' => Ok(Ieee1164::_H()),
            '*' | '-' | 'd' | 'D' => Ok(Ieee1164::_D()),
            _ => Err(()),
        }
    }

    /// Resolution does not depend on the order of the two drivers.
    pub proof fn lemma_resolve_symmetric(a: Ieee1164, b: Ieee1164)
        ensures
            a.resolve_spec(b) == b.resolve_spec(a),
    {
    }

    /// A driver at high impedance leaves the other driver's value as it is.
    pub proof fn lemma_resolve_high_impedance(a: Ieee1164)
        ensures
            a.resolve_spec(Ieee1164::_Z()) == a,
            Ieee1164::_Z().resolve_spec(a) == a,
    {
    }

    /// Conjunction, disjunction and exclusive or do not depend on the order
    /// of their operands.
    pub proof fn lemma_operators_symmetric(a: Ieee1164, b: Ieee1164)
        ensures
            a.and_spec(b) == b.and_spec(a),
            a.or_spec(b) == b.or_spec(a),
            a.xor_spec(b) == b.xor_spec(a),
    {
    }

    /// The table of conjunction, row by row in the order `U X 0 1 Z W L H -`, the
    /// columns in the same order.
    pub open spec fn and_table() -> Seq<char> {
        "UU0UUU0UUUX0XXX0XX000000000UX01XX01XUX0XXX0XXUX0XXX0XX000000000UX01XX01XUX0XXX0XX"@
    }

    /// Conjunction is what its table says, for all 81 pairs.
    pub proof fn lemma_and_table(a: Ieee1164, b: Ieee1164)
        ensures
            a.and_spec(b).char_spec() == Self::and_table()[(a.index_spec() * 9 + b.index_spec()) as int],
    {
        reveal_strlit("UU0UUU0UUUX0XXX0XX000000000UX01XX01XUX0XXX0XXUX0XXX0XX000000000UX01XX01XUX0XXX0XX");
    }

    /// The table of disjunction, row by row in the order `U X 0 1 Z W L H -`, the
    /// columns in the same order.
    pub open spec fn or_table() -> Seq<char> {
        "UUU1UUU1UUXX1XXX1XUX01XX01X111111111UXX1XXX1XUXX1XXX1XUX01XX01X111111111UXX1XXX1X"@
    }

    /// Disjunction is what its table says, for all 81 pairs.
    pub proof fn lemma_or_table(a: Ieee1164, b: Ieee1164)
        ensures
            a.or_spec(b).char_spec() == Self::or_table()[(a.index_spec() * 9 + b.index_spec()) as int],
    {
        reveal_strlit("UUU1UUU1UUXX1XXX1XUX01XX01X111111111UXX1XXX1XUXX1XXX1XUX01XX01X111111111UXX1XXX1X");
    }

    /// The table of exclusive or, row by row in the order `U X 0 1 Z W L H -`, the
    /// columns in the same order.
    pub open spec fn xor_table() -> Seq<char> {
        "UUUUUUUUUUXXXXXXXXUX01XX01XUX10XX10XUXXXXXXXXUXXXXXXXXUX01XX01XUX10XX10XUXXXXXXXX"@
    }

    /// Exclusive or is what its table says, for all 81 pairs.
    pub proof fn lemma_xor_table(a: Ieee1164, b: Ieee1164)
        ensures
            a.xor_spec(b).char_spec() == Self::xor_table()[(a.index_spec() * 9 + b.index_spec()) as int],
    {
        reveal_strlit("UUUUUUUUUUXXXXXXXXUX01XX01XUX10XX10XUXXXXXXXXUXXXXXXXXUX01XX01XUX10XX10XUXXXXXXXX");
    }

    /// The table of resolution, row by row in the order `U X 0 1 Z W L H -`, the
    /// columns in the same order.
    pub open spec fn resolve_table() -> Seq<char> {
        "UUUUUUUUUUXXXXXXXXUX0X0000XUXX11111XUX01ZWLH-UX01WWWWXUX01LWLWXUX01HWWHXUXXX-XXXX"@
    }

    /// Resolution is what its table says, for all 81 pairs.
    pub proof fn lemma_resolve_table(a: Ieee1164, b: Ieee1164)
        ensures
            a.resolve_spec(b).char_spec() == Self::resolve_table()[(a.index_spec() * 9 + b.index_spec()) as int],
    {
        reveal_strlit("UUUUUUUUUUXXXXXXXXUX0X0000XUXX11111XUX01ZWLH-UX01WWWWXUX01LWLWXUX01HWWHXUXXX-XXXX");
    }

    /// Reading the canonical character of a value gives the value back.
    pub proof fn lemma_char_round_trip(v: Ieee1164)
        ensures
            Ieee1164::parse_spec(v.char_spec()) == Some(v),
    {
    }
}

/// Conjunction of two values, by table lookup.
pub fn and(a: &Ieee1164, b: &Ieee1164) -> (r: Ieee1164)
    ensures
        r == a.and_spec(*b),
{
    let u = Ieee1164::_U();
    let x = Ieee1164::_X();
    let n = Ieee1164::_0();
    let p = Ieee1164::_1();
    let z = Ieee1164::_Z();
    let w = Ieee1164::_W();
    let l = Ieee1164::_L();
    let h = Ieee1164::_H();
    let d = Ieee1164::_D();
    // rows and columns in the order U X 0 1 Z W L H -
    let table: [Ieee1164; 81] = [
        u, u, n, u, u, u, n, u, u,
        u, x, n, x, x, x, n, x, x,
        n, n, n, n, n, n, n, n, n,
        u, x, n, p, x, x, n, p, x,
        u, x, n, x, x, x, n, x, x,
        u, x, n, x, x, x, n, x, x,
        n, n, n, n, n, n, n, n, n,
        u, x, n, p, x, x, n, p, x,
        u, x, n, x, x, x, n, x, x,
    ];
    table[a.to_index() * 9 + b.to_index()]
}

/// Disjunction of two values, by table lookup.
pub fn or(a: &Ieee1164, b: &Ieee1164) -> (r: Ieee1164)
    ensures
        r == a.or_spec(*b),
{
    let u = Ieee1164::_U();
    let x = Ieee1164::_X();
    let n = Ieee1164::_0();
    let p = Ieee1164::_1();
    let z = Ieee1164::_Z();
    let w = Ieee1164::_W();
    let l = Ieee1164::_L();
    let h = Ieee1164::_H();
    let d = Ieee1164::_D();
    // rows and columns in the order U X 0 1 Z W L H -
    let table: [Ieee1164; 81] = [
        u, u, u, p, u, u, u, p, u,
        u, x, x, p, x, x, x, p, x,
        u, x, n, p, x, x, n, p, x,
        p, p, p, p, p, p, p, p, p,
        u, x, x, p, x, x, x, p, x,
        u, x, x, p, x, x, x, p, x,
        u, x, n, p, x, x, n, p, x,
        p, p, p, p, p, p, p, p, p,
        u, x, x, p, x, x, x, p, x,
    ];
    table[a.to_index() * 9 + b.to_index()]
}

/// Exclusive or of two values, by table lookup.
pub fn xor(a: &Ieee1164, b: &Ieee1164) -> (r: Ieee1164)
    ensures
        r == a.xor_spec(*b),
{
    let u = Ieee1164::_U();
    let x = Ieee1164::_X();
    let n = Ieee1164::_0();
    let p = Ieee1164::_1();
    let z = Ieee1164::_Z();
    let w = Ieee1164::_W();
    let l = Ieee1164::_L();
    let h = Ieee1164::_H();
    let d = Ieee1164::_D();
    // rows and columns in the order U X 0 1 Z W L H -
    let table: [Ieee1164; 81] = [
        u, u, u, u, u, u, u, u, u,
        u, x, x, x, x, x, x, x, x,
        u, x, n, p, x, x, n, p, x,
        u, x, p, n, x, x, p, n, x,
        u, x, x, x, x, x, x, x, x,
        u, x, x, x, x, x, x, x, x,
        u, x, n, p, x, x, n, p, x,
        u, x, p, n, x, x, p, n, x,
        u, x, x, x, x, x, x, x, x,
    ];
    table[a.to_index() * 9 + b.to_index()]
}

/// Negation of a value.
pub fn not(i: Ieee1164) -> (r: Ieee1164)
    ensures
        r == i.not_spec(),
{
    match i {
        Ieee1164::Uninitialized => Ieee1164::_U(),
        Ieee1164::Weak(Ieee1164Value::Zero) | Ieee1164::Strong(Ieee1164Value::Zero) => Ieee1164::_1(),
        Ieee1164::Weak(Ieee1164Value::One) | Ieee1164::Strong(Ieee1164Value::One) => Ieee1164::_0(),
        _ => Ieee1164::_X(),
    }
}

/// Resolution of two drivers on one wire, by table lookup.
pub fn resolve(a: &Ieee1164, b: &Ieee1164) -> (r: Ieee1164)
    ensures
        r == a.resolve_spec(*b),
{
    let u = Ieee1164::_U();
    let x = Ieee1164::_X();
    let n = Ieee1164::_0();
    let p = Ieee1164::_1();
    let z = Ieee1164::_Z();
    let w = Ieee1164::_W();
    let l = Ieee1164::_L();
    let h = Ieee1164::_H();
    let d = Ieee1164::_D();
    // rows and columns in the order U X 0 1 Z W L H -
    let table: [Ieee1164; 81] = [
        u, u, u, u, u, u, u, u, u,
        u, x, x, x, x, x, x, x, x,
        u, x, n, x, n, n, n, n, x,
        u, x, x, p, p, p, p, p, x,
        u, x, n, p, z, w, l, h, d,
        u, x, n, p, w, w, w, w, x,
        u, x, n, p, l, w, l, w, x,
        u, x, n, p, h, w, w, h, x,
        u, x, x, x, d, x, x, x, x,
    ];
    table[a.to_index() * 9 + b.to_index()]
}

impl core::ops::BitAnd for Ieee1164 {
    type Output = Ieee1164;

    fn bitand(self, rhs: Ieee1164) -> (r: Ieee1164) {
        and(&self, &rhs)
    }
}

impl vstd::std_specs::ops::BitAndSpecImpl for Ieee1164 {
    open spec fn obeys_bitand_spec() -> bool {
        true
    }

    open spec fn bitand_req(self, rhs: Ieee1164) -> bool {
        true
    }

    open spec fn bitand_spec(self, rhs: Ieee1164) -> Ieee1164 {
        self.and_spec(rhs)
    }
}

impl core::ops::BitOr for Ieee1164 {
    type Output = Ieee1164;

    fn bitor(self, rhs: Ieee1164) -> (r: Ieee1164) {
        or(&self, &rhs)
    }
}

impl vstd::std_specs::ops::BitOrSpecImpl for Ieee1164 {
    open spec fn obeys_bitor_spec() -> bool {
        true
    }

    open spec fn bitor_req(self, rhs: Ieee1164) -> bool {
        true
    }

    open spec fn bitor_spec(self, rhs: Ieee1164) -> Ieee1164 {
        self.or_spec(rhs)
    }
}

impl core::ops::BitXor for Ieee1164 {
    type Output = Ieee1164;

    fn bitxor(self, rhs: Ieee1164) -> (r: Ieee1164) {
        xor(&self, &rhs)
    }
}

impl vstd::std_specs::ops::BitXorSpecImpl for Ieee1164 {
    open spec fn obeys_bitxor_spec() -> bool {
        true
    }

    open spec fn bitxor_req(self, rhs: Ieee1164) -> bool {
        true
    }

    open spec fn bitxor_spec(self, rhs: Ieee1164) -> Ieee1164 {
        self.xor_spec(rhs)
    }
}

impl core::ops::Not for Ieee1164 {
    type Output = Ieee1164;

    fn not(self) -> (r: Ieee1164) {
        self::not(self)
    }
}

impl vstd::std_specs::ops::NotSpecImpl for Ieee1164 {
    open spec fn obeys_not_spec() -> bool {
        true
    }

    open spec fn not_req(self) -> bool {
        true
    }

    open spec fn not_spec(self) -> Ieee1164 {
        Ieee1164::not_spec(self)
    }
}

impl Resolve for Ieee1164 {
    open spec fn wire_width(&self) -> nat {
        1
    }

    open spec fn resolution(&self, rhs: &Self) -> Self {
        Ieee1164::resolve_spec(*self, *rhs)
    }

    fn resolve(&self, rhs: &Self) -> (r: Self) {
        self::resolve(self, rhs)
    }

    fn width(&self) -> (w: usize) {
        1
    }

    fn same_as(&self, rhs: &Self) -> (r: bool) {
        *self == *rhs
    }

    proof fn lemma_resolve_commutative(a: &Self, b: &Self) {
    }
}

#[allow(non_snake_case)]
impl Ieee1164 {
    /// Whether this is neither zero nor one at any strength: `U`, `X`, `W`,
    /// `Z` or `-`.
    pub fn is_UXZ(self) -> (r: bool)
        ensures
            r == !(self.low() || self.high()),
    {
        !(self.is_1H() || self.is_0L())
    }

    /// Whether this is strong zero or strong one.
    pub fn is_01(self) -> (r: bool)
        ensures
            r == (self == Ieee1164::_0() || self == Ieee1164::_1()),
    {
        self.is_0() || self.is_1()
    }

    /// Whether this is one at either strength.
    pub fn is_1H(self) -> (r: bool)
        ensures
            r == self.high(),
    {
        self.is_1() || self.is_H()
    }

    /// Whether this is zero at either strength.
    pub fn is_0L(self) -> (r: bool)
        ensures
            r == self.low(),
    {
        self.is_0() || self.is_L()
    }

    /// Whether this is Uninitialized.
    pub fn is_U(self) -> (r: bool)
        ensures
            r == (self == Ieee1164::_U()),
    {
        self == Ieee1164::_U()
    }

    /// Whether this is strong unknown.
    pub fn is_X(self) -> (r: bool)
        ensures
            r == (self == Ieee1164::_X()),
    {
        self == Ieee1164::_X()
    }

    /// Whether this is strong zero.
    pub fn is_0(self) -> (r: bool)
        ensures
            r == (self == Ieee1164::_0()),
    {
        self == Ieee1164::_0()
    }

    /// Whether this is strong one.
    pub fn is_1(self) -> (r: bool)
        ensures
            r == (self == Ieee1164::_1()),
    {
        self == Ieee1164::_1()
    }

    /// Whether this is high impedance.
    pub fn is_Z(self) -> (r: bool)
        ensures
            r == (self == Ieee1164::_Z()),
    {
        self == Ieee1164::_Z()
    }

    /// Whether this is weak unknown.
    pub fn is_W(self) -> (r: bool)
        ensures
            r == (self == Ieee1164::_W()),
    {
        self == Ieee1164::_W()
    }

    /// Whether this is weak zero.
    pub fn is_L(self) -> (r: bool)
        ensures
            r == (self == Ieee1164::_L()),
    {
        self == Ieee1164::_L()
    }

    /// Whether this is weak one.
    pub fn is_H(self) -> (r: bool)
        ensures
            r == (self == Ieee1164::_H()),
    {
        self == Ieee1164::_H()
    }

    /// Whether this is don't care.
    pub fn is_D(self) -> (r: bool)
        ensures
            r == (self == Ieee1164::_D()),
    {
        self == Ieee1164::_D()
    }
}

} // verus!
