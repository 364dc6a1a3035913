//! Access levels of command callers.

use vstd::prelude::*;

verus! {

/// The access level a caller holds, or that a command requires.
#[derive(PartialEq, Eq, Structural, Clone, Copy, Debug)]
pub enum Right {
    /// No right at all: anyone, including unknown users.
    Anyone,
    /// A registered member.
    Member,
    /// A room operator.
    Operator,
    /// An administrator.
    Admin,
}

impl Right {
    /// The rank of a level; higher ranks hold every lower right.
    pub open spec fn rank(self) -> nat {
        match self {
            Right::Anyone => 0,
            Right::Member => 1,
            Right::Operator => 2,
            Right::Admin => 3,
        }
    }
}

} // verus!
