//! The limits of compilation on the wire.
use vstd::prelude::*;

verus! {

#[derive(Clone, Copy, Debug, PartialEq, Eq, Structural)]
pub enum LimitType {
    Ram,
    Time,
    ExecutableSize,
}

impl LimitType {
    /// The number that stands for the limit on the wire.
    pub open spec fn number(self) -> i32 {
        match self {
            LimitType::Ram => 0,
            LimitType::Time => 1,
            LimitType::ExecutableSize => 2,
        }
    }

    /// The number that stands for the limit on the wire.
    pub fn as_i32(self) -> (r: i32)
        ensures
            r == self.number(),
    {
        match self {
            LimitType::Ram => 0,
            LimitType::Time => 1,
            LimitType::ExecutableSize => 2,
        }
    }
}

} // verus!
