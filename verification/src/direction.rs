//! A sign-valued axis state: the direction an entity travels along one axis.

use vstd::prelude::*;
use crate::rng::gen_range_i64;

verus! {

/// `Pos` runs left to right (or top to bottom), `Neg` the other way.
#[derive(Clone, Copy, Debug, PartialEq, Eq, Structural)]
pub enum Direction {
    Pos,
    Neg,
}

impl Direction {
    /// The velocity-sign multiplier this direction stands for.
    pub open spec fn spec_value(self) -> int {
        match self {
            Direction::Pos => 1,
            Direction::Neg => -1,
        }
    }

    /// The direction with the opposite sign.
    pub open spec fn spec_switch(self) -> Direction {
        match self {
            Direction::Pos => Direction::Neg,
            Direction::Neg => Direction::Pos,
        }
    }

    /// The sign multiplier: exactly +1 or -1, never anything else.
    pub fn value(&self) -> (r: i64)
        ensures
            r == self.spec_value(),
            r == 1 || r == -1,
    {
        match self {
            Direction::Pos => 1,
            Direction::Neg => -1,
        }
    }

    /// Flip the direction in place.
    pub fn switch(&mut self)
        ensures
            *final(self) == old(self).spec_switch(),
    {
        match self {
            Direction::Pos => {
                *self = Direction::Neg;
            }
            Direction::Neg => {
                *self = Direction::Pos;
            }
        }
    }

    /// A uniform choice between the two directions; consumes one draw
    /// from the given generator.  Nothing is promised about which variant
    /// comes back.
    pub fn random(rng: &mut rand::rngs::StdRng) -> Direction {
        if gen_range_i64(rng, 0, 2) == 0 {
            Direction::Neg
        } else {
            Direction::Pos
        }
    }
}

/// Law: switching a direction twice restores the original direction.
pub proof fn lemma_switch_involution(d: Direction)
    ensures
        d.spec_switch().spec_switch() == d,
{
}

/// Two directions are equal exactly when their sign values are equal.
pub proof fn lemma_value_injective(a: Direction, b: Direction)
    ensures
        (a.spec_value() == b.spec_value()) == (a == b),
{
    match a {
        Direction::Pos => {
            match b {
                Direction::Pos => {}
                Direction::Neg => {}
            }
        }
        Direction::Neg => {
            match b {
                Direction::Pos => {}
                Direction::Neg => {}
            }
        }
    }
}

} // verus!
