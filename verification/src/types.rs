//! Names and width tags shared by every kind of expression.

use vstd::prelude::*;

verus! {

/// The declared width of an unsigned-integer expression.
#[derive(Clone, Copy, Debug, PartialEq, Eq, Hash, PartialOrd, Ord, Structural)]
pub enum UBitwidth {
    B8,
    B16,
    B32,
    B64,
}

impl UBitwidth {
    /// The number of bits of the width.
    pub open spec fn bits(self) -> nat {
        match self {
            UBitwidth::B8 => 8,
            UBitwidth::B16 => 16,
            UBitwidth::B32 => 32,
            UBitwidth::B64 => 64,
        }
    }

    /// The number of bits of the width.
    pub fn to_usize(&self) -> (n: usize)
        ensures
            n == self.bits(),
    {
        match self {
            UBitwidth::B8 => 8,
            UBitwidth::B16 => 16,
            UBitwidth::B32 => 32,
            UBitwidth::B64 => 64,
        }
    }
}

/// A bound variable.
#[derive(Clone, Debug, PartialEq, Eq, Hash)]
pub struct Identifier {
    pub name: String,
}

/// The name of a struct's field.
pub type MemberId = String;

/// The function that a call refers to.
#[derive(Clone, Debug, PartialEq, Eq, Hash)]
pub struct FunctionKey {
    pub id: String,
}

} // verus!
