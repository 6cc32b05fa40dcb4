//! A score with a label: ordered and compared by its value alone.

use crate::text::{decimal, push_decimal};
use std::cmp::Ordering;
use vstd::prelude::*;
use vstd::std_specs::cmp::{PartialEqIs, PartialEqSpecImpl, PartialOrdIs, PartialOrdSpecImpl};

verus! {

/// A score, kept both for the current game and for the best game so far.
#[derive(Debug)]
pub struct Score {
    /// The number of points.
    pub value: u32,
    /// What the rendered score starts with: empty for the current score,
    /// `High ` for the high score.
    pub prefix: String,
}

impl Score {
    /// How the two scores compare: by their values, whatever their prefixes.
    pub open spec fn order(self, other: Score) -> Ordering {
        if self.value < other.value {
            Ordering::Less
        } else if self.value == other.value {
            Ordering::Equal
        } else {
            Ordering::Greater
        }
    }

    /// The rendered score: the prefix, then `Score: `, then the value in decimal.
    pub open spec fn rendered(self) -> Seq<char> {
        self.prefix@ + "Score: "@ + decimal(self.value as nat)
    }

    /// A score of `value` points that renders with `prefix` in front.
    pub fn new(value: u32, prefix: &str) -> (score: Score)
        ensures
            score.value == value,
            score.prefix@ == prefix@,
    {
        Score { value, prefix: String::from_str(prefix) }
    }

    /// Compares two scores by their values.
    pub fn cmp(&self, other: &Score) -> (o: Ordering)
        ensures
            o == self.order(*other),
    {
        if self.value < other.value {
            Ordering::Less
        } else if self.value == other.value {
            Ordering::Equal
        } else {
            Ordering::Greater
        }
    }

    /// Renders the score, as in `High Score: 7`.
    pub fn to_string(&self) -> (text: String)
        ensures
            text@ == self.rendered(),
    {
        let mut text = self.prefix.clone();
        text.append("Score: ");
        push_decimal(&mut text, self.value);
        text
    }
}

impl std::ops::AddAssign<u32> for Score {
    /// Adds `rhs` points.
    fn add_assign(&mut self, rhs: u32)
        requires
            old(self).value + rhs <= u32::MAX,
        ensures
            final(self).value == old(self).value + rhs,
            final(self).prefix == old(self).prefix,
    {
        self.value = self.value + rhs;
    }
}

impl Default for Score {
    /// No points and no prefix.
    fn default() -> (score: Score)
        ensures
            score.value == 0,
            score.prefix@ == Seq::<char>::empty(),
    {
        Score { value: 0, prefix: String::new() }
    }
}

impl PartialEq for Score {
    fn eq(&self, other: &Score) -> (equal: bool) {
        self.value == other.value
    }
}

impl PartialEqSpecImpl for Score {
    open spec fn obeys_eq_spec() -> bool {
        true
    }

    open spec fn eq_spec(&self, other: &Score) -> bool {
        self.value == other.value
    }
}

impl Eq for Score {

}

impl PartialOrd for Score {
    fn partial_cmp(&self, other: &Score) -> (o: Option<Ordering>) {
        Some(self.cmp(other))
    }
}

impl PartialOrdSpecImpl for Score {
    open spec fn obeys_partial_cmp_spec() -> bool {
        true
    }

    open spec fn partial_cmp_spec(&self, other: &Score) -> Option<Ordering> {
        Some(self.order(*other))
    }
}

/// A score of fewer points is less than one of more points, whatever the two
/// prefixes are, and scores of equal points are equal: `<`, `<=`, `>`, `>=`,
/// `==` and `!=` on scores are those of their values.
pub proof fn lemma_order_by_value(a: Score, b: Score)
    ensures
        a.is_lt(&b) <==> a.value < b.value,
        a.is_le(&b) <==> a.value <= b.value,
        a.is_gt(&b) <==> a.value > b.value,
        a.is_ge(&b) <==> a.value >= b.value,
        a.is_eq(&b) <==> a.value == b.value,
        a.is_ne(&b) <==> a.value != b.value,
{
}

} // verus!
