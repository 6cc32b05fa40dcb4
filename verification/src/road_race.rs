//! The lane-dodge game: a car on a scrolling road loses health on every
//! collision, loses all of it when it leaves the road, and the game freezes
//! once the health is gone.
//!
//! The caller owns the sprites and their positions. Each frame it asks
//! [`GameState::steer`] where the car goes, moves the car and the road, and
//! hands what happened to [`GameState::game_logic`], which says what to show
//! and what to play.

use crate::collision::CollisionEvent;
use crate::text::{
    decimal, lemma_numbered_labels_differ, occurs_at, push_decimal, starts_with,
};
use vstd::prelude::*;

verus! {

/// What the game remembers between frames.
#[derive(Clone, Copy, Debug, PartialEq, Eq, Structural)]
pub struct GameState {
    /// Hits the player can still take.
    pub health_amount: u8,
    /// Set once the game is over; every later frame is frozen.
    pub loss: bool,
}

/// What a frame saw, once the car and the road have moved.
#[derive(Debug)]
pub struct Input {
    /// Whether the car has reached the upper or the lower edge of the road.
    pub off_road: bool,
    /// The collisions of this frame, oldest first.
    pub collisions: Vec<CollisionEvent>,
}

/// What a frame asks of the caller.
#[derive(Debug)]
pub struct Output {
    /// The new text of the health display, if it changes.
    pub health_text: Option<String>,
    /// How many impact sounds to play: one for each hit that cost health.
    pub impacts: u8,
    /// Whether the game ended in this frame: show the final message, stop the
    /// music and play the final sound.
    pub game_over: bool,
}

/// How a sprite takes part in the scrolling of the road.
#[derive(Clone, Copy, Debug, PartialEq, Eq, Structural)]
pub enum Lane {
    /// A road marking: it scrolls and wraps round to the right edge.
    Roadline,
    /// An obstacle: it scrolls and comes back at a new place.
    Obstacle,
    /// Anything else stays where it is.
    Other,
}

/// The direction that the two steering keys ask for: 1 is up, -1 is down,
/// and the two keys together cancel.
pub open spec fn direction_of(up: bool, down: bool) -> int {
    (if up { 1int } else { 0 }) - (if down { 1int } else { 0 })
}

/// Whether the event is a hit: a collision that the player's car is part of.
pub open spec fn is_hit(event: CollisionEvent) -> bool {
    event.pair.spec_either_contains("player"@)
}

/// The number of hits among the events.
pub open spec fn hit_count(events: Seq<CollisionEvent>) -> nat
    decreases events.len(),
{
    if events.len() == 0 {
        0
    } else {
        hit_count(events.drop_last()) + if is_hit(events.last()) { 1nat } else { 0 }
    }
}

/// The text of the health display.
pub open spec fn health_display(health: u8) -> Seq<char> {
    "Health: "@ + decimal(health as nat)
}

/// The label of road marking number `index`.
pub open spec fn roadline_name(index: u32) -> Seq<char> {
    "roadline"@ + decimal(index as nat)
}

/// The label of obstacle number `index`.
pub open spec fn obstacle_name(index: u32) -> Seq<char> {
    "obstacle"@ + decimal(index as nat)
}

/// The lane of a sprite, by its label.
pub open spec fn lane_by(label: Seq<char>) -> Lane {
    if "roadline"@.is_prefix_of(label) {
        Lane::Roadline
    } else if "obstacle"@.is_prefix_of(label) {
        Lane::Obstacle
    } else {
        Lane::Other
    }
}

impl GameState {
    /// The state after one hit: a point of health less, unless none is left.
    pub open spec fn hit_once(self) -> GameState {
        if self.health_amount > 0 {
            GameState { health_amount: (self.health_amount - 1) as u8, loss: self.loss }
        } else {
            self
        }
    }

    /// The state after `hits` hits in a row.
    pub open spec fn after_hits(self, hits: nat) -> GameState
        decreases hits,
    {
        if hits == 0 {
            self
        } else {
            self.after_hits((hits - 1) as nat).hit_once()
        }
    }

    /// The health that is left for the hits of a frame: none once the car
    /// is off the road.
    pub open spec fn health_on_road(self, off_road: bool) -> u8 {
        if off_road {
            0
        } else {
            self.health_amount
        }
    }

    /// The state after a frame in which the car was `off_road` or not and the
    /// `events` came in: a frozen game stays as it is; otherwise leaving the
    /// road costs all health, each hit costs one point while any is left, and
    /// the game is lost when none is left.
    pub open spec fn next(self, off_road: bool, events: Seq<CollisionEvent>) -> GameState {
        if self.loss {
            self
        } else {
            let start = GameState { health_amount: self.health_on_road(off_road), loss: false };
            let end = start.after_hits(hit_count(events));
            GameState { health_amount: end.health_amount, loss: end.health_amount == 0 }
        }
    }

    /// The state after the frames, each given by whether the car was off the
    /// road and by its events, oldest frame first.
    pub open spec fn after_frames(self, frames: Seq<(bool, Seq<CollisionEvent>)>) -> GameState
        decreases frames.len(),
    {
        if frames.len() == 0 {
            self
        } else {
            self.after_frames(frames.drop_last()).next(frames.last().0, frames.last().1)
        }
    }

    /// Where the car is steered in this frame, or `None` when the game is
    /// frozen and nothing may move.
    pub fn steer(&self, up: bool, down: bool) -> (direction: Option<i8>)
        ensures
            self.loss ==> direction is None,
            !self.loss ==> direction == Some(direction_of(up, down) as i8),
    {
        if self.loss {
            return None;
        }
        let mut direction: i8 = 0;
        if up {
            direction = direction + 1;
        }
        if down {
            direction = direction - 1;
        }
        Some(direction)
    }

    /// Takes one hit: a point of health less, unless none is left. Says
    /// whether the hit cost health.
    pub fn hit(&mut self) -> (hurt: bool)
        ensures
            *final(self) == old(self).hit_once(),
            hurt == (old(self).health_amount > 0),
    {
        if self.health_amount > 0 {
            self.health_amount = self.health_amount - 1;
            true
        } else {
            false
        }
    }

    /// One frame of the game, after the car and the road have moved.
    ///
    /// A frozen game changes nothing and asks for nothing. Otherwise the
    /// health drops to zero if the car is off the road, each hit costs a
    /// point of health and an impact sound while health is left, the display
    /// is renewed if any of this happened, and the game is over, and frozen
    /// from now on, when no health is left.
    pub fn game_logic(&mut self, input: &Input) -> (output: Output)
        ensures
            *final(self) == old(self).next(input.off_road, input.collisions@),
            old(self).loss ==> output.health_text is None && output.impacts == 0
                && !output.game_over,
            !old(self).loss ==> output.impacts == old(self).health_on_road(input.off_road)
                - final(self).health_amount,
            !old(self).loss ==> output.game_over == (final(self).health_amount == 0),
            !old(self).loss ==> (output.health_text is Some <==> input.off_road
                || output.impacts > 0),
            output.health_text matches Some(text) ==> text@ == health_display(
                final(self).health_amount,
            ),
    {
        if self.loss {
            return Output { health_text: None, impacts: 0, game_over: false };
        }
        if input.off_road {
            self.health_amount = 0;
        }
        let ghost start = *self;
        let mut impacts: u8 = 0;
        let mut i: usize = 0;
        while i < input.collisions.len()
            invariant
                i <= input.collisions.len(),
                !start.loss,
                *self == start.after_hits(hit_count(input.collisions@.take(i as int))),
                impacts == start.health_amount - self.health_amount,
                self.health_amount <= start.health_amount,
            decreases input.collisions.len() - i,
        {
            proof {
                let seen = input.collisions@.take(i as int + 1);
                assert(seen.drop_last() =~= input.collisions@.take(i as int));
            }
            if input.collisions[i].pair.either_contains("player") {
                if self.hit() {
                    impacts = impacts + 1;
                }
            }
            i = i + 1;
        }
        proof {
            assert(input.collisions@.take(i as int) =~= input.collisions@);
            lemma_health_after_hits(start, hit_count(input.collisions@));
        }
        let health_text = if input.off_road || impacts > 0 {
            Some(health_text(self.health_amount))
        } else {
            None
        };
        let game_over = self.health_amount == 0;
        if game_over {
            self.loss = true;
        }
        Output { health_text, impacts, game_over }
    }
}

impl Default for GameState {
    /// Ten points of health, and the game is on.
    fn default() -> (state: GameState)
        ensures
            state.health_amount == 10,
            !state.loss,
    {
        GameState { health_amount: 10, loss: false }
    }
}

/// The text of the health display, as in `Health: 10`.
pub fn health_text(health: u8) -> (text: String)
    ensures
        text@ == health_display(health),
{
    let mut text = String::from_str("Health: ");
    push_decimal(&mut text, health as u32);
    text
}

/// The label of road marking number `index`, as in `roadline3`.
pub fn roadline_label(index: u32) -> (label: String)
    ensures
        label@ == roadline_name(index),
{
    let mut label = String::from_str("roadline");
    push_decimal(&mut label, index);
    label
}

/// The label of obstacle number `index`, as in `obstacle0`.
pub fn obstacle_label(index: u32) -> (label: String)
    ensures
        label@ == obstacle_name(index),
{
    let mut label = String::from_str("obstacle");
    push_decimal(&mut label, index);
    label
}

/// The lane of a sprite: a road marking if its label begins with `roadline`,
/// else an obstacle if it begins with `obstacle`.
pub fn lane_of(label: &str) -> (lane: Lane)
    ensures
        lane == lane_by(label@),
{
    if starts_with(label, "roadline") {
        Lane::Roadline
    } else if starts_with(label, "obstacle") {
        Lane::Obstacle
    } else {
        Lane::Other
    }
}

/// Health never runs below zero: after any number of hits it is what was
/// there less the hits, and zero once the hits outnumber it. Hits alone never
/// touch the loss flag.
pub proof fn lemma_health_after_hits(state: GameState, hits: nat)
    ensures
        state.after_hits(hits).health_amount == if hits >= state.health_amount {
            0
        } else {
            state.health_amount - hits
        },
        0 <= state.after_hits(hits).health_amount <= state.health_amount,
        state.after_hits(hits).loss == state.loss,
    decreases hits,
{
    if hits > 0 {
        lemma_health_after_hits(state, (hits - 1) as nat);
    }
}

/// Once the game is lost it is frozen: whatever the later frames bring, the
/// state stays as it is.
pub proof fn lemma_loss_freezes(state: GameState, frames: Seq<(bool, Seq<CollisionEvent>)>)
    requires
        state.loss,
    ensures
        state.after_frames(frames) == state,
    decreases frames.len(),
{
    if frames.len() > 0 {
        lemma_loss_freezes(state, frames.drop_last());
    }
}

/// A game that is on is lost by a frame exactly when the frame leaves no
/// health, and a frame never gives health back.
pub proof fn lemma_loss_when_health_is_gone(
    state: GameState,
    off_road: bool,
    events: Seq<CollisionEvent>,
)
    requires
        !state.loss,
    ensures
        state.next(off_road, events).loss <==> state.next(off_road, events).health_amount == 0,
        state.next(off_road, events).health_amount <= state.health_amount,
        off_road ==> state.next(off_road, events).loss,
{
    let start = GameState { health_amount: state.health_on_road(off_road), loss: false };
    lemma_health_after_hits(start, hit_count(events));
}

/// The sprites of the game fall into their lanes: every road marking and
/// every obstacle by its label, and the player's car into none, so that the
/// road never carries the car along.
pub proof fn lemma_lanes_of_the_cast(index: u32)
    ensures
        lane_by(roadline_name(index)) == Lane::Roadline,
        lane_by(obstacle_name(index)) == Lane::Obstacle,
        lane_by("player"@) == Lane::Other,
{
    reveal_strlit("roadline");
    reveal_strlit("obstacle");
    reveal_strlit("player");
    if "roadline"@.is_prefix_of(obstacle_name(index)) {
        assert(obstacle_name(index).subrange(0, 8)[0] == 'r');
    }
}

/// The sprites of the game have labels of their own: no two road markings
/// and no two obstacles share one, as long as their numbers differ, and none
/// is shared between a road marking, an obstacle and the player's car.
pub proof fn lemma_labels_are_unique(first: u32, second: u32)
    ensures
        first != second ==> roadline_name(first) != roadline_name(second),
        first != second ==> obstacle_name(first) != obstacle_name(second),
        roadline_name(first) != obstacle_name(second),
        roadline_name(first) != "player"@,
        obstacle_name(first) != "player"@,
{
    if first != second {
        lemma_numbered_labels_differ("roadline"@, first as nat, second as nat);
        lemma_numbered_labels_differ("obstacle"@, first as nat, second as nat);
    }
    reveal_strlit("roadline");
    reveal_strlit("obstacle");
    reveal_strlit("player");
    assert(roadline_name(first)[0] == 'r');
    assert(obstacle_name(first)[0] == 'o');
    assert(obstacle_name(second)[0] == 'o');
    assert("player"@[0] == 'p');
}

/// A collision that the player's car is part of is a hit, whatever the car
/// ran into.
pub proof fn lemma_player_collision_is_hit(event: CollisionEvent)
    requires
        event.pair.0@ == "player"@ || event.pair.1@ == "player"@,
    ensures
        is_hit(event),
{
    let whole = "player"@;
    assert(whole.subrange(0, 0 + whole.len() as int) =~= whole);
    assert(occurs_at(whole, whole, 0));
}

} // verus!
