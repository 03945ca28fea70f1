//! The directions of a port, as types.

use vstd::prelude::*;
use core::marker::PhantomData;

verus! {

/// Keeps the set of directions closed: only what this file names is one.
pub trait Sealed {

}

/// The capability to read a port.
#[derive(Default, Debug, Clone, Copy, Eq, PartialEq, Hash)]
pub struct Read;

/// The capability to write a port.
#[derive(Default, Debug, Clone, Copy, Eq, PartialEq, Hash)]
pub struct Write;

/// The absence of a capability.
#[derive(Default, Debug, Clone, Copy, Eq, PartialEq, Hash)]
pub struct Off;

/// What can stand for the reading side of a direction.
pub trait MaybeRead {

}

/// What can stand for the writing side of a direction.
pub trait MaybeWrite {

}

impl MaybeRead for Read {

}

impl MaybeWrite for Write {

}

impl MaybeRead for Off {

}

impl MaybeWrite for Off {

}

/// A direction of a port: input, output, or both.
///
/// An input port is read by its owner and written by its signal. An output
/// port is written by its owner and read by its signal. An in-out port is
/// read and written by its owner; its signal reads it as a driver.
pub trait PortDirection: Sealed + Sized {
    /// The direction as seen from the other end of the wire.
    type Opposite;

    /// Whether this is the input direction.
    spec fn input() -> bool;

    /// Whether this is the output direction.
    spec fn output() -> bool;

    /// Whether this is the in-out direction.
    spec fn inout() -> bool;

    /// Whether this is the input direction.
    fn is_input() -> (r: bool)
        ensures
            r == Self::input(),
    ;

    /// Whether this is the output direction.
    fn is_output() -> (r: bool)
        ensures
            r == Self::output(),
    ;

    /// Whether this is the in-out direction.
    fn is_inout() -> (r: bool)
        ensures
            r == Self::inout(),
    ;
}

/// A direction made of a reading side and a writing side.
#[derive(Debug)]
pub struct Dir<R: MaybeRead, W: MaybeWrite>(PhantomData<(R, W)>);

impl<R: MaybeRead, W: MaybeWrite> Sealed for Dir<R, W> {

}

impl<R: MaybeRead, W: MaybeWrite> Clone for Dir<R, W> {
    fn clone(&self) -> (r: Self)
        ensures
            r == *self,
    {
        Dir(PhantomData)
    }
}

impl<R: MaybeRead, W: MaybeWrite> Copy for Dir<R, W> {

}

/// Input: reading is supported, writing is not.
pub type Input = Dir<Read, Off>;

/// Output: writing is supported, reading is not.
pub type Output = Dir<Off, Write>;

/// In-out: reading and writing are supported.
pub type InOut = Dir<Read, Write>;

impl PortDirection for InOut {
    type Opposite = InOut;

    open spec fn input() -> bool {
        false
    }

    open spec fn output() -> bool {
        false
    }

    open spec fn inout() -> bool {
        true
    }

    fn is_input() -> (r: bool) {
        false
    }

    fn is_output() -> (r: bool) {
        false
    }

    fn is_inout() -> (r: bool) {
        true
    }
}

impl PortDirection for Input {
    type Opposite = Output;

    open spec fn input() -> bool {
        true
    }

    open spec fn output() -> bool {
        false
    }

    open spec fn inout() -> bool {
        false
    }

    fn is_input() -> (r: bool) {
        true
    }

    fn is_output() -> (r: bool) {
        false
    }

    fn is_inout() -> (r: bool) {
        false
    }
}

impl PortDirection for Output {
    type Opposite = Input;

    open spec fn input() -> bool {
        false
    }

    open spec fn output() -> bool {
        true
    }

    open spec fn inout() -> bool {
        false
    }

    fn is_input() -> (r: bool) {
        false
    }

    fn is_output() -> (r: bool) {
        true
    }

    fn is_inout() -> (r: bool) {
        false
    }
}

/// Whether a port of this direction drives its signal: an output port and
/// an in-out port do, an input port is driven.
pub open spec fn drives<D: PortDirection>() -> bool {
    D::output() || D::inout()
}

} // verus!
