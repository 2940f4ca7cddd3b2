//! Whose move it is.

use vstd::prelude::*;
use vstd::std_specs::cmp::PartialEqSpecImpl;

verus! {

/// One of the two players.
#[derive(Debug, Clone, Copy)]
pub enum Turn {
    Player1,
    Player2,
}

impl Turn {
    /// The other player.
    pub open spec fn other(self) -> Turn {
        match self {
            Turn::Player1 => Turn::Player2,
            Turn::Player2 => Turn::Player1,
        }
    }

    /// A copy of this value.
    pub fn clone(&self) -> (r: Turn)
        ensures
            r == *self,
    {
        match self {
            Turn::Player1 => Turn::Player1,
            Turn::Player2 => Turn::Player2,
        }
    }

    /// Passes the move to the other player.
    pub fn swith(&self) -> (r: Turn)
        ensures
            r == self.other(),
            r != *self,
    {
        match self {
            Turn::Player1 => Turn::Player2,
            Turn::Player2 => Turn::Player1,
        }
    }
}

impl PartialEq for Turn {
    fn eq(&self, other: &Self) -> (r: bool) {
        let mut other_is_first = false;
        match other {
            Turn::Player1 => {
                other_is_first = true;
            },
            Turn::Player2 => {},
        }
        let mut self_is_first = false;
        match self {
            Turn::Player1 => {
                self_is_first = true;
            },
            Turn::Player2 => {},
        }
        (!other_is_first && !self_is_first) || (other_is_first && self_is_first)
    }
}

impl PartialEqSpecImpl for Turn {
    open spec fn obeys_eq_spec() -> bool {
        true
    }

    open spec fn eq_spec(&self, other: &Self) -> bool {
        *self == *other
    }
}

/// Passing the move twice gives it back.
pub proof fn lemma_swith_twice(t: Turn)
    ensures
        t.other().other() == t,
        t.other() != t,
{
}

} // verus!
