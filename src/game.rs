use vstd::prelude::*;
use vstd::math::max;
use crate::collision::{CollisionEvent, hit_count, labels, lemma_hit_count_prefix, removals};
use crate::text::{high_score_label, high_score_text, obstacle_id, obstacle_label, score_label, score_text};
use crate::timer::{SpawnTimer, SPAWN_PERIOD_NANOS, tick_fits};

verus! {

/// Player speed along an axis, in units per second.
pub const MOVEMENT_SPEED: u32 = 100;

/// Obstacles appear at `x` in `[-SPAWN_X_LIMIT, SPAWN_X_LIMIT]`.
pub const SPAWN_X_LIMIT: i32 = 550;

/// Obstacles appear at `y` in `[-SPAWN_Y_LIMIT, SPAWN_Y_LIMIT]`.
pub const SPAWN_Y_LIMIT: i32 = 320;

/// The score label sits this far left of the window's right edge.
pub const SCORE_OFFSET_X: u32 = 80;

/// The high-score label sits this far right of the window's left edge.
pub const HIGH_SCORE_OFFSET_X: u32 = 110;

/// Both labels sit this far below the window's top edge.
pub const LABEL_OFFSET_Y: u32 = 30;

/// The game's persistent state between frames.
pub struct GameState {
    pub high_score: u32,
    pub score: u32,
    /// The counter from which the next obstacle's identifier is made.
    pub car_index: i32,
    pub spawn_timer: SpawnTimer,
}

/// What the collisions of one frame did.
pub struct CollisionOutcome {
    /// The sprites to remove, in order; each removal also plays a sound.
    pub removed: Vec<String>,
    /// The score label's new text, when the score changed.
    pub score_text: Option<String>,
    /// The high-score label's new text, when the high score changed.
    pub high_score_text: Option<String>,
}

/// The keys held during a frame. A direction counts as held when either of
/// its two keys (letter or arrow) is.
pub struct Controls {
    pub quit: bool,
    pub reset: bool,
    pub show_colliders: bool,
    pub hide_colliders: bool,
    pub up: bool,
    pub down: bool,
    pub left: bool,
    pub right: bool,
}

/// Everything the engine is to do after one frame.
pub struct FrameOutcome {
    /// The sprites to remove, in order; each removal also plays a sound.
    pub removed: Vec<String>,
    /// The score label's new text, when it changed.
    pub score_text: Option<String>,
    /// The high-score label's new text, when it changed.
    pub high_score_text: Option<String>,
    /// Whether the game is to end after this frame.
    pub should_exit: bool,
    /// The new setting of the collider overlay, when a key set it.
    pub show_colliders: Option<bool>,
    /// The player's direction along x: -1, 0 or 1, to scale by speed and frame time.
    pub step_x: i8,
    /// The player's direction along y: -1, 0 or 1, to scale by speed and frame time.
    pub step_y: i8,
    /// The identifier of the obstacle to create at a random position, if one is due.
    pub spawned: Option<String>,
}

/// The direction along one axis when `forward` and `backward` are its two keys.
pub open spec fn axis_direction(forward: bool, backward: bool) -> int {
    (if forward { 1int } else { 0int }) - (if backward { 1int } else { 0int })
}

/// Whether a tick of `delta` from `elapsed` completes a spawn period.
pub open spec fn spawn_due(elapsed: u64, delta: u64) -> bool {
    elapsed + delta >= SPAWN_PERIOD_NANOS
}

/// The direction along one axis when `forward` and `backward` are its two keys:
/// holding both cancels out.
pub fn axis_step(forward: bool, backward: bool) -> (r: i8)
    ensures
        r == axis_direction(forward, backward),
{
    let mut r: i8 = 0;
    if forward {
        r = r + 1;
    }
    if backward {
        r = r - 1;
    }
    r
}

/// The overlay setting that the keys of a frame ask for; hiding wins over showing.
pub fn collider_setting(show: bool, hide: bool) -> (r: Option<bool>)
    ensures
        r == (if hide { Some(false) } else if show { Some(true) } else { None::<bool> }),
{
    if hide {
        Some(false)
    } else if show {
        Some(true)
    } else {
        None
    }
}

impl GameState {
    /// Scores never exceed the high score, identifiers are made from a
    /// non-negative counter, and the timer is within its period.
    pub open spec fn wf(&self) -> bool {
        &&& self.score <= self.high_score
        &&& 0 <= self.car_index
        &&& self.spawn_timer.wf()
    }

    /// The state at the start of a game.
    pub fn new() -> (r: GameState)
        ensures
            r.wf(),
            r.high_score == 0,
            r.score == 0,
            r.car_index == 0,
            r.spawn_timer.elapsed_nanos == 0,
    {
        GameState { high_score: 0, score: 0, car_index: 0, spawn_timer: SpawnTimer::new() }
    }

    /// Counts one hit on the player. Returns the score label's new text and,
    /// when the high score rose, the high-score label's new text.
    pub fn record_hit(&mut self) -> (r: (String, Option<String>))
        requires
            old(self).wf(),
            old(self).score < u32::MAX,
        ensures
            final(self).wf(),
            final(self).score == old(self).score + 1,
            final(self).high_score == max(old(self).high_score as int, final(self).score as int),
            final(self).car_index == old(self).car_index,
            final(self).spawn_timer == old(self).spawn_timer,
            r.0@ == score_label(final(self).score as nat),
            r.1.is_some() == (final(self).high_score != old(self).high_score),
            r.1 matches Some(t) ==> t@ == high_score_label(final(self).high_score as nat),
    {
        self.score = self.score + 1;
        let text = score_text(self.score);
        if self.score > self.high_score {
            self.high_score = self.score;
            (text, Some(high_score_text(self.high_score)))
        } else {
            (text, None)
        }
    }

    /// Handles the collisions of one frame in order: each start of a contact
    /// with the player removes the other sprite and counts one point.
    pub fn process_collisions(&mut self, events: &Vec<CollisionEvent>) -> (out: CollisionOutcome)
        requires
            old(self).wf(),
            old(self).score + hit_count(events@) <= u32::MAX,
        ensures
            final(self).wf(),
            final(self).score == old(self).score + hit_count(events@),
            final(self).high_score == max(old(self).high_score as int, final(self).score as int),
            final(self).car_index == old(self).car_index,
            final(self).spawn_timer == old(self).spawn_timer,
            labels(out.removed@) == removals(events@),
            out.score_text.is_some() == (hit_count(events@) > 0),
            out.score_text matches Some(t) ==> t@ == score_label(final(self).score as nat),
            out.high_score_text.is_some() == (final(self).high_score != old(self).high_score),
            out.high_score_text matches Some(t) ==> t@ == high_score_label(final(self).high_score as nat),
    {
        let ghost start = *self;
        let mut removed: Vec<String> = Vec::new();
        let mut score_text: Option<String> = None;
        let mut high_score_text: Option<String> = None;
        let mut i: usize = 0;
        while i < events.len()
            invariant
                i <= events@.len(),
                start.wf(),
                start.score + hit_count(events@) <= u32::MAX,
                self.wf(),
                self.score == start.score + hit_count(events@.take(i as int)),
                self.high_score == max(start.high_score as int, self.score as int),
                self.car_index == start.car_index,
                self.spawn_timer == start.spawn_timer,
                labels(removed@) == removals(events@.take(i as int)),
                score_text.is_some() == (hit_count(events@.take(i as int)) > 0),
                score_text matches Some(t) ==> t@ == score_label(self.score as nat),
                high_score_text.is_some() == (self.high_score != start.high_score),
                high_score_text matches Some(t) ==> t@ == high_score_label(self.high_score as nat),
            decreases events@.len() - i,
        {
            let event = &events[i];
            assert(events@.take(i + 1).drop_last() =~= events@.take(i as int));
            assert(events@.take(i + 1).last() == events@[i as int]);
            proof {
                lemma_hit_count_prefix(events@, i + 1);
            }
            event.collect_removals(&mut removed);
            if event.hits_player() {
                let (text, high_text) = self.record_hit();
                score_text = Some(text);
                if high_text.is_some() {
                    high_score_text = high_text;
                }
            }
            i = i + 1;
        }
        assert(events@.take(events@.len() as int) =~= events@);
        CollisionOutcome { removed, score_text, high_score_text }
    }

    /// Sets the score back to zero, leaving the high score alone. Returns the
    /// score label's new text.
    pub fn reset_score(&mut self) -> (r: String)
        requires
            old(self).wf(),
        ensures
            final(self).wf(),
            final(self).score == 0,
            final(self).high_score == old(self).high_score,
            final(self).car_index == old(self).car_index,
            final(self).spawn_timer == old(self).spawn_timer,
            r@ == score_label(0),
    {
        self.score = 0;
        score_text(0)
    }

    /// Advances the spawn timer by `delta_nanos`. When a period completes,
    /// returns the identifier of the next obstacle and moves the counter on by one.
    pub fn advance_spawn(&mut self, delta_nanos: u64) -> (r: Option<String>)
        requires
            old(self).wf(),
            tick_fits(old(self).spawn_timer.elapsed_nanos as nat, delta_nanos as nat),
            spawn_due(old(self).spawn_timer.elapsed_nanos, delta_nanos) ==> old(self).car_index < i32::MAX,
        ensures
            final(self).wf(),
            final(self).score == old(self).score,
            final(self).high_score == old(self).high_score,
            final(self).spawn_timer.elapsed_nanos == (old(self).spawn_timer.elapsed_nanos + delta_nanos) % (SPAWN_PERIOD_NANOS as int),
            r.is_some() == spawn_due(old(self).spawn_timer.elapsed_nanos, delta_nanos),
            r.is_some() ==> final(self).car_index == old(self).car_index + 1,
            r.is_none() ==> final(self).car_index == old(self).car_index,
            r matches Some(id) ==> id@ == obstacle_label(old(self).car_index as nat),
    {
        if self.spawn_timer.just_finished(delta_nanos) {
            let id = obstacle_id(self.car_index as u32);
            self.car_index = self.car_index + 1;
            Some(id)
        } else {
            None
        }
    }

    /// The work of one frame, in order: collisions, keys, movement, spawning.
    pub fn frame(&mut self, events: &Vec<CollisionEvent>, controls: &Controls, delta_nanos: u64) -> (out: FrameOutcome)
        requires
            old(self).wf(),
            old(self).score + hit_count(events@) <= u32::MAX,
            tick_fits(old(self).spawn_timer.elapsed_nanos as nat, delta_nanos as nat),
            spawn_due(old(self).spawn_timer.elapsed_nanos, delta_nanos) ==> old(self).car_index < i32::MAX,
        ensures
            final(self).wf(),
            final(self).score == if controls.reset { 0 } else { old(self).score + hit_count(events@) },
            final(self).high_score == max(old(self).high_score as int, old(self).score + hit_count(events@)),
            labels(out.removed@) == removals(events@),
            out.score_text.is_some() == (controls.reset || hit_count(events@) > 0),
            out.score_text matches Some(t) ==> t@ == score_label(final(self).score as nat),
            out.high_score_text.is_some() == (final(self).high_score != old(self).high_score),
            out.high_score_text matches Some(t) ==> t@ == high_score_label(final(self).high_score as nat),
            out.should_exit == controls.quit,
            out.show_colliders == (if controls.hide_colliders { Some(false) } else if controls.show_colliders { Some(true) } else { None::<bool> }),
            out.step_x == axis_direction(controls.right, controls.left),
            out.step_y == axis_direction(controls.up, controls.down),
            final(self).spawn_timer.elapsed_nanos == (old(self).spawn_timer.elapsed_nanos + delta_nanos) % (SPAWN_PERIOD_NANOS as int),
            out.spawned.is_some() == spawn_due(old(self).spawn_timer.elapsed_nanos, delta_nanos),
            out.spawned.is_some() ==> final(self).car_index == old(self).car_index + 1,
            out.spawned.is_none() ==> final(self).car_index == old(self).car_index,
            out.spawned matches Some(id) ==> id@ == obstacle_label(old(self).car_index as nat),
    {
        let hits = self.process_collisions(events);
        let mut score_text = hits.score_text;
        if controls.reset {
            score_text = Some(self.reset_score());
        }
        let show_colliders = collider_setting(controls.show_colliders, controls.hide_colliders);
        let step_x = axis_step(controls.right, controls.left);
        let step_y = axis_step(controls.up, controls.down);
        let spawned = self.advance_spawn(delta_nanos);
        FrameOutcome {
            removed: hits.removed,
            score_text,
            high_score_text: hits.high_score_text,
            should_exit: controls.quit,
            show_colliders,
            step_x,
            step_y,
            spawned,
        }
    }
}

impl Default for GameState {
    fn default() -> (r: GameState)
        ensures
            r.wf(),
            r.high_score == 0,
            r.score == 0,
            r.car_index == 0,
            r.spawn_timer.elapsed_nanos == 0,
    {
        GameState::new()
    }
}

} // verus!
