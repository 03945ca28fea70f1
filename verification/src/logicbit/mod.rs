//! The multi-valued logic engine: scalars, vectors and wire resolution.

use vstd::prelude::*;

pub mod ieee1164;
pub mod logicvector;
pub mod tvlogic;

pub use self::ieee1164::Ieee1164;
pub use self::logicvector::LogicVector;
pub use self::tvlogic::Ieee1164Value;

verus! {

/// How several drivers of one wire merge into a single value.
///
/// Two values can share a wire when they have the same width. Resolution is
/// commutative, and every implementation proves so.
pub trait Resolve: Sized {
    /// The number of wires that the value occupies.
    spec fn wire_width(&self) -> nat;

    /// The value that `self` and `rhs` merge into.
    spec fn resolution(&self, rhs: &Self) -> Self;

    /// Merges two drivers of the same width.
    fn resolve(&self, rhs: &Self) -> (r: Self)
        requires
            self.wire_width() == rhs.wire_width(),
        ensures
            r == self.resolution(rhs),
            r.wire_width() == self.wire_width(),
    ;

    /// The number of wires that the value occupies.
    fn width(&self) -> (w: usize)
        ensures
            w == self.wire_width(),
    ;

    /// Whether the two values are the same.
    fn same_as(&self, rhs: &Self) -> (r: bool)
        ensures
            r == (*self == *rhs),
    ;

    /// Resolution does not depend on the order of the two drivers.
    proof fn lemma_resolve_commutative(a: &Self, b: &Self)
        requires
            a.wire_width() == b.wire_width(),
        ensures
            a.resolution(b) == b.resolution(a),
    ;
}

} // verus!
