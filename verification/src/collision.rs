//! Collisions between two labelled sprites, as the games see them.

use crate::text::{contains, occurs_in, starts_with};
use vstd::prelude::*;

verus! {

/// Whether two sprites have just met or have just parted.
#[derive(Clone, Copy, Debug, PartialEq, Eq, Structural)]
pub enum CollisionState {
    Begin,
    End,
}

impl CollisionState {
    /// Whether this is the beginning of a collision.
    pub fn is_begin(&self) -> (begin: bool)
        ensures
            begin == (*self == CollisionState::Begin),
    {
        match self {
            CollisionState::Begin => true,
            CollisionState::End => false,
        }
    }

    /// Whether this is the end of a collision.
    pub fn is_end(&self) -> (end: bool)
        ensures
            end == (*self == CollisionState::End),
    {
        match self {
            CollisionState::Begin => false,
            CollisionState::End => true,
        }
    }
}

/// The labels of the two sprites that collide, in no particular order.
#[derive(Debug)]
pub struct CollisionPair(pub String, pub String);

impl CollisionPair {
    /// Whether `text` stands somewhere in one of the two labels, or in both.
    pub open spec fn spec_either_contains(self, text: Seq<char>) -> bool {
        occurs_in(self.0@, text) || occurs_in(self.1@, text)
    }

    /// Whether exactly one of the two labels begins with `text`.
    pub open spec fn spec_one_starts_with(self, text: Seq<char>) -> bool {
        text.is_prefix_of(self.0@) != text.is_prefix_of(self.1@)
    }

    /// Whether `text` stands somewhere in one of the two labels, or in both.
    pub fn either_contains(&self, text: &str) -> (found: bool)
        ensures
            found == self.spec_either_contains(text@),
    {
        contains(self.0.as_str(), text) || contains(self.1.as_str(), text)
    }

    /// Whether exactly one of the two labels begins with `text`.
    pub fn one_starts_with(&self, text: &str) -> (found: bool)
        ensures
            found == self.spec_one_starts_with(text@),
    {
        let first = starts_with(self.0.as_str(), text);
        let second = starts_with(self.1.as_str(), text);
        first != second
    }
}

/// Two sprites that have just met or have just parted.
#[derive(Debug)]
pub struct CollisionEvent {
    pub state: CollisionState,
    pub pair: CollisionPair,
}

} // verus!
