//! The catcher game: the player's car collects the sprites it runs into, and
//! the game keeps the score and the best score so far.
//!
//! The caller owns the sprites, their positions and the clock. Each frame it
//! hands the keys, the clicks and the collisions to
//! [`GameState::game_logic`], which says what to remove, what to spawn, what
//! to show and what to play.

use crate::collision::{CollisionEvent, CollisionPair, CollisionState};
use crate::score::Score;
use crate::text::{decimal, lemma_numbered_labels_differ, push_decimal, starts_with};
use std::ops::AddAssign;
use vstd::prelude::*;

verus! {

/// What the game remembers between frames.
#[derive(Debug)]
pub struct GameState {
    /// The best score so far.
    pub high_score: Score,
    /// The score of the current game.
    pub score: Score,
    /// The number that the next spawned sprite gets in its label.
    pub feris_index: u32,
}

/// What a frame saw.
#[derive(Debug)]
pub struct Input {
    /// Whether the quit key has just been pressed.
    pub quit: bool,
    /// The collisions of this frame, oldest first.
    pub collisions: Vec<CollisionEvent>,
    /// Whether a key for going up is held.
    pub up: bool,
    /// Whether a key for going down is held.
    pub down: bool,
    /// Whether a key for going left is held.
    pub left: bool,
    /// Whether a key for going right is held.
    pub right: bool,
    /// Whether the left mouse button has just been pressed with the cursor
    /// inside the window.
    pub click: bool,
    /// Whether the spawn timer has just run out.
    pub spawn_due: bool,
    /// Whether the reset key has just been pressed.
    pub reset: bool,
}

/// What a frame asks of the caller. The sprites are removed, moved, spawned
/// and cleared in the order of the fields.
#[derive(Debug)]
pub struct Output {
    /// Whether to leave the game.
    pub exit: bool,
    /// The labels of the sprites to remove, one for each catch, in order.
    pub removed: Vec<String>,
    /// How many catch sounds to play: one for each catch.
    pub jingles: u32,
    /// The new text of the score display, if it changes.
    pub score_text: Option<String>,
    /// The new text of the high score display, if it changes.
    pub high_score_text: Option<String>,
    /// The direction in which the player speeds up, to the right and
    /// upwards, each of -1, 0 and 1.
    pub thrust: (i8, i8),
    /// The label of a sprite to spawn under the cursor.
    pub spawn_at_cursor: Option<String>,
    /// The label of a sprite to spawn at a random place, with a sound.
    pub spawn_at_random: Option<String>,
    /// Whether to start over: stop the player at the centre and remove every
    /// sprite that [`is_player`] does not know as the player.
    pub reset: bool,
}

/// What a catch asks of the caller.
#[derive(Debug)]
pub struct Catch {
    /// The label of the sprite to remove: the one that the player ran into.
    pub removed: String,
    /// The new text of the score display.
    pub score_text: String,
    /// The new text of the high score display, if the high score is beaten.
    pub high_score_text: Option<String>,
}

/// The label of spawned sprite number `index`.
pub open spec fn feris_name(index: u32) -> Seq<char> {
    "feris"@ + decimal(index as nat)
}

/// The push that two opposite keys give together: 1 towards `forth`, -1
/// towards `back`, and nothing when both are held or neither.
pub open spec fn push_of(forth: bool, back: bool) -> int {
    (if forth { 1int } else { 0 }) - (if back { 1int } else { 0 })
}

/// Whether the event is a catch: a collision that begins, between two
/// sprites of which exactly one has a label that begins with `player`.
pub open spec fn is_catch(event: CollisionEvent) -> bool {
    event.state == CollisionState::Begin && event.pair.spec_one_starts_with("player"@)
}

/// The label that a catch removes: of the two, the one that does not begin
/// with `player`.
pub open spec fn caught_label(pair: CollisionPair) -> Seq<char> {
    if "player"@.is_prefix_of(pair.0@) {
        pair.1@
    } else {
        pair.0@
    }
}

/// The number of catches among the events.
pub open spec fn catch_count(events: Seq<CollisionEvent>) -> nat
    decreases events.len(),
{
    if events.len() == 0 {
        0
    } else {
        catch_count(events.drop_last()) + if is_catch(events.last()) { 1nat } else { 0 }
    }
}

/// The labels that the catches among the events remove, in order.
pub open spec fn removed_in(events: Seq<CollisionEvent>) -> Seq<Seq<char>>
    decreases events.len(),
{
    if events.len() == 0 {
        seq![]
    } else {
        removed_in(events.drop_last()) + if is_catch(events.last()) {
            seq![caught_label(events.last().pair)]
        } else {
            seq![]
        }
    }
}

/// The number of sprites that a frame spawns.
pub open spec fn spawn_count(input: Input) -> nat {
    (if input.click { 1nat } else { 0 }) + (if input.spawn_due { 1nat } else { 0 })
}

impl GameState {
    /// The score after `catches` more catches.
    pub open spec fn score_after(self, catches: nat) -> int {
        self.score.value + catches
    }

    /// Whether `catches` more catches beat the high score: there is a catch,
    /// and the score after it is more than the high score was.
    pub open spec fn beats_high_score(self, catches: nat) -> bool {
        catches > 0 && self.score_after(catches) > self.high_score.value
    }

    /// The high score after `catches` more catches: the score, where they
    /// beat the high score.
    pub open spec fn high_score_after(self, catches: nat) -> int {
        if self.beats_high_score(catches) {
            self.score_after(catches)
        } else {
            self.high_score.value as int
        }
    }

    /// Handles one collision. A catch removes the sprite that the player ran
    /// into, scores a point and raises the high score where the score passes
    /// it; any other collision changes nothing.
    pub fn catch(&mut self, event: &CollisionEvent) -> (caught: Option<Catch>)
        requires
            is_catch(*event) ==> old(self).score.value < u32::MAX,
        ensures
            caught is Some <==> is_catch(*event),
            !is_catch(*event) ==> *final(self) == *old(self),
            final(self).feris_index == old(self).feris_index,
            final(self).score.prefix == old(self).score.prefix,
            final(self).high_score.prefix == old(self).high_score.prefix,
            caught is Some ==> final(self).score.value == old(self).score_after(1),
            caught is Some ==> final(self).high_score.value == old(self).high_score_after(1),
            caught matches Some(catch) ==> catch.removed@ == caught_label(event.pair),
            caught matches Some(catch) ==> catch.score_text@ == final(self).score.rendered(),
            caught matches Some(catch) ==> (catch.high_score_text is Some
                <==> old(self).beats_high_score(1)),
            caught matches Some(catch) ==> (catch.high_score_text matches Some(text) ==> text@
                == final(self).high_score.rendered()),
    {
        if !catches(event) {
            return None;
        }
        let removed = if starts_with(event.pair.0.as_str(), "player") {
            event.pair.1.clone()
        } else {
            event.pair.0.clone()
        };
        self.score.add_assign(1);
        let score_text = self.score.to_string();
        let mut high_score_text: Option<String> = None;
        if self.score > self.high_score {
            self.high_score.value = self.score.value;
            high_score_text = Some(self.high_score.to_string());
        }
        Some(Catch { removed, score_text, high_score_text })
    }

    /// The label for the next spawned sprite, as in `feris12`; the one after
    /// it gets the next number.
    pub fn next_feris_label(&mut self) -> (label: String)
        requires
            old(self).feris_index < u32::MAX,
        ensures
            label@ == feris_name(old(self).feris_index),
            final(self).feris_index == old(self).feris_index + 1,
            final(self).score == old(self).score,
            final(self).high_score == old(self).high_score,
    {
        let mut label = String::from_str("feris");
        push_decimal(&mut label, self.feris_index);
        self.feris_index = self.feris_index + 1;
        label
    }

    /// Whether the counters have room for the frame: for a point for each
    /// of its catches, and for a number for each sprite that it spawns.
    pub fn has_room_for(&self, input: &Input) -> (room: bool)
        ensures
            room <==> self.score.value + catch_count(input.collisions@) <= u32::MAX
                && self.feris_index + spawn_count(*input) <= u32::MAX,
    {
        let mut count: usize = 0;
        let mut i: usize = 0;
        while i < input.collisions.len()
            invariant
                count <= i <= input.collisions.len(),
                count == catch_count(input.collisions@.take(i as int)),
            decreases input.collisions.len() - i,
        {
            proof {
                let seen = input.collisions@.take(i as int + 1);
                assert(seen.drop_last() =~= input.collisions@.take(i as int));
            }
            if catches(&input.collisions[i]) {
                count = count + 1;
            }
            i = i + 1;
        }
        assert(input.collisions@.take(i as int) =~= input.collisions@);
        let points: u32 = u32::MAX - self.score.value;
        let mut numbers: u32 = u32::MAX - self.feris_index;
        if input.click {
            if numbers == 0 {
                return false;
            }
            numbers = numbers - 1;
        }
        if input.spawn_due && numbers == 0 {
            return false;
        }
        count as u64 <= points as u64
    }

    /// One frame of the game.
    ///
    /// Every catch among the collisions removes the sprite that the player
    /// ran into, scores a point, plays a sound and raises the high score
    /// where the score passes it. The held keys give the thrust. A click
    /// spawns a sprite under the cursor and the spawn timer one at a random
    /// place, each under the next free label. The reset key, whose turn is
    /// last, puts the score back to nothing; the high score stays.
    pub fn game_logic(&mut self, input: &Input) -> (output: Output)
        requires
            old(self).score.value + catch_count(input.collisions@) <= u32::MAX,
            old(self).feris_index + spawn_count(*input) <= u32::MAX,
        ensures
            output.exit == input.quit,
            output.removed.deep_view() == removed_in(input.collisions@),
            output.jingles == catch_count(input.collisions@),
            final(self).high_score.value == old(self).high_score_after(
                catch_count(input.collisions@),
            ),
            final(self).high_score.prefix == old(self).high_score.prefix,
            final(self).score.value == if input.reset {
                0
            } else {
                old(self).score_after(catch_count(input.collisions@))
            },
            final(self).score.prefix@ == if input.reset {
                Seq::<char>::empty()
            } else {
                old(self).score.prefix@
            },
            final(self).feris_index == old(self).feris_index + spawn_count(*input),
            output.score_text is Some <==> input.reset || catch_count(input.collisions@) > 0,
            output.score_text matches Some(text) ==> text@ == final(self).score.rendered(),
            output.high_score_text is Some <==> old(self).beats_high_score(
                catch_count(input.collisions@),
            ),
            output.high_score_text matches Some(text) ==> text@
                == final(self).high_score.rendered(),
            output.thrust.0 == push_of(input.right, input.left),
            output.thrust.1 == push_of(input.up, input.down),
            output.spawn_at_cursor is Some <==> input.click,
            output.spawn_at_cursor matches Some(label) ==> label@ == feris_name(
                old(self).feris_index,
            ),
            output.spawn_at_random is Some <==> input.spawn_due,
            output.spawn_at_random matches Some(label) ==> label@ == feris_name(
                if input.click {
                    (old(self).feris_index + 1) as u32
                } else {
                    old(self).feris_index
                },
            ),
            output.reset == input.reset,
    {
        let mut removed: Vec<String> = Vec::new();
        let mut jingles: u32 = 0;
        let mut score_text: Option<String> = None;
        let mut high_score_text: Option<String> = None;
        let mut i: usize = 0;
        while i < input.collisions.len()
            invariant
                i <= input.collisions.len(),
                old(self).score.value + catch_count(input.collisions@) <= u32::MAX,
                jingles == catch_count(input.collisions@.take(i as int)),
                removed.deep_view() == removed_in(input.collisions@.take(i as int)),
                self.score.value == old(self).score_after(jingles as nat),
                self.high_score.value == old(self).high_score_after(jingles as nat),
                self.score.prefix == old(self).score.prefix,
                self.high_score.prefix == old(self).high_score.prefix,
                self.feris_index == old(self).feris_index,
                score_text is Some <==> jingles > 0,
                score_text matches Some(text) ==> text@ == self.score.rendered(),
                high_score_text is Some <==> old(self).beats_high_score(jingles as nat),
                high_score_text matches Some(text) ==> text@ == self.high_score.rendered(),
            decreases input.collisions.len() - i,
        {
            proof {
                let seen = input.collisions@.take(i as int + 1);
                assert(seen.drop_last() =~= input.collisions@.take(i as int));
                lemma_catch_count_grows(input.collisions@, i as int + 1);
            }
            if let Some(catch) = self.catch(&input.collisions[i]) {
                removed.push(catch.removed);
                jingles = jingles + 1;
                score_text = Some(catch.score_text);
                if catch.high_score_text.is_some() {
                    high_score_text = catch.high_score_text;
                }
            }
            i = i + 1;
        }
        assert(input.collisions@.take(i as int) =~= input.collisions@);
        let thrust = (push(input.right, input.left), push(input.up, input.down));
        let spawn_at_cursor = if input.click {
            Some(self.next_feris_label())
        } else {
            None
        };
        let spawn_at_random = if input.spawn_due {
            Some(self.next_feris_label())
        } else {
            None
        };
        if input.reset {
            self.score = Score::default();
            score_text = Some(self.score.to_string());
        }
        Output {
            exit: input.quit,
            removed,
            jingles,
            score_text,
            high_score_text,
            thrust,
            spawn_at_cursor,
            spawn_at_random,
            reset: input.reset,
        }
    }
}

impl Default for GameState {
    /// No points yet, no high score yet, and the first spawned sprite will be
    /// number 0.
    fn default() -> (state: GameState)
        ensures
            state.high_score.value == 0,
            state.high_score.prefix@ == "High "@,
            state.score.value == 0,
            state.score.prefix@ == Seq::<char>::empty(),
            state.feris_index == 0,
    {
        GameState { high_score: Score::new(0, "High "), score: Score::default(), feris_index: 0 }
    }
}

/// Whether the event is a catch: a collision that begins, between two
/// sprites of which exactly one has a label that begins with `player`.
pub fn catches(event: &CollisionEvent) -> (caught: bool)
    ensures
        caught == is_catch(*event),
{
    event.state.is_begin() && event.pair.one_starts_with("player")
}

/// Whether the label is the player's own.
pub fn is_player(label: &str) -> (own: bool)
    ensures
        own == (label@ == "player"@),
{
    String::from_str(label) == String::from_str("player")
}

/// The push that two opposite keys give together.
pub fn push(forth: bool, back: bool) -> (by: i8)
    ensures
        by == push_of(forth, back),
{
    let mut by: i8 = 0;
    if forth {
        by = by + 1;
    }
    if back {
        by = by - 1;
    }
    by
}

/// The catches among the first events are no more than those among all.
proof fn lemma_catch_count_grows(events: Seq<CollisionEvent>, first: int)
    requires
        0 <= first <= events.len(),
    ensures
        catch_count(events.take(first)) <= catch_count(events) <= events.len(),
    decreases events.len(),
{
    if first == events.len() {
        assert(events.take(first) =~= events);
        if events.len() > 0 {
            lemma_catch_count_grows(events.drop_last(), first - 1);
        }
    } else {
        assert(events.drop_last().take(first) =~= events.take(first));
        lemma_catch_count_grows(events.drop_last(), first);
    }
}

/// Every catch removes exactly one sprite: the labels to remove are as many
/// as the catches.
pub proof fn lemma_one_label_for_each_catch(events: Seq<CollisionEvent>)
    ensures
        removed_in(events).len() == catch_count(events),
    decreases events.len(),
{
    if events.len() > 0 {
        lemma_one_label_for_each_catch(events.drop_last());
    }
}

/// Catches never lower the high score. After a catch it is no less than the
/// score, and a high score that was no less than the score stays so.
pub proof fn lemma_high_score_never_falls(state: GameState, catches: nat)
    ensures
        state.high_score_after(catches) >= state.high_score.value,
        catches > 0 ==> state.high_score_after(catches) >= state.score_after(catches),
        state.high_score.value >= state.score.value ==> state.high_score_after(catches)
            >= state.score_after(catches),
{
}

/// No two spawned sprites share a label, as long as their numbers differ.
pub proof fn lemma_feris_labels_differ(first: u32, second: u32)
    requires
        first != second,
    ensures
        feris_name(first) != feris_name(second),
{
    lemma_numbered_labels_differ("feris"@, first as nat, second as nat);
}

/// A spawned sprite that the player runs into is caught, and it is the
/// spawned sprite that goes: its label never begins with `player`, and it
/// survives no reset.
pub proof fn lemma_feris_is_caught(index: u32, event: CollisionEvent)
    requires
        event.state == CollisionState::Begin,
        event.pair.0@ == "player"@ && event.pair.1@ == feris_name(index) || event.pair.0@
            == feris_name(index) && event.pair.1@ == "player"@,
    ensures
        is_catch(event),
        caught_label(event.pair) == feris_name(index),
        feris_name(index) != "player"@,
{
    reveal_strlit("player");
    reveal_strlit("feris");
    let feris = feris_name(index);
    if "player"@.is_prefix_of(feris) {
        assert(feris.subrange(0, 6)[0] == 'p');
    }
}

} // verus!
