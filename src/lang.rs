//! Message language: names and directions shared with the service.
use vstd::prelude::*;

verus! {

/// Directions in two dimensional space.
#[derive(Clone, Copy, Debug, PartialEq, Eq, Hash)]
pub enum Dir2D {
    Up,
    Down,
    Left,
    Right,
}

/// Symbolic name (n-ary tree).
#[derive(Debug, PartialEq, Eq, Hash)]
pub enum Name {
    Void,
    Atom(Atom),
    TaggedTuple(Box<Name>, Vec<Name>),
}

/// Atomic name.
#[derive(Clone, Debug, PartialEq, Eq, Hash)]
pub enum Atom {
    Bool(bool),
    Nat(u64),
    String(String),
}

} // verus!
