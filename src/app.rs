use vstd::prelude::*;
use crate::game::{lemma_step_keeps_wf, step, State};
use crate::render::{describe, scene, Rect};
use crate::touch::{side_at, side_of, Touch, TouchPhase, TouchSide, TouchTracker};

verus! {

/// The whole game: the touches held and the phase of the round.
pub struct App {
    pub touches: TouchTracker,
    pub state: State,
}

impl App {
    /// The tracker after one touch event: a start in a player's zone claims
    /// it, an end or cancel frees it, anything else changes nothing.
    pub open spec fn touched_by(t: TouchTracker, e: Touch) -> TouchTracker {
        match e.phase {
            TouchPhase::Started => match side_at(e.y) {
                Some(side) => t.started(side, e.id),
                None => t,
            },
            TouchPhase::Ended | TouchPhase::Cancelled => t.ended(e.id),
            TouchPhase::Moved => t,
        }
    }

    /// A fresh game: nothing held, waiting at `Start`.
    pub fn new() -> (r: App)
        ensures
            r.touches.active(TouchSide::Up) is None,
            r.touches.active(TouchSide::Down) is None,
            r.state == State::Start,
    {
        App { touches: TouchTracker::new(), state: State::Start }
    }

    /// Advances the game by one tick of `dt` microseconds.
    pub fn update(&mut self, dt: u64)
        ensures
            final(self).touches == old(self).touches,
            final(self).state == step(
                old(self).state,
                dt,
                old(self).touches.touched(TouchSide::Up),
                old(self).touches.touched(TouchSide::Down),
            ),
            old(self).state.wf() ==> final(self).state.wf(),
    {
        proof {
            if self.state.wf() {
                lemma_step_keeps_wf(
                    self.state,
                    dt,
                    self.touches.touched(TouchSide::Up),
                    self.touches.touched(TouchSide::Down),
                );
            }
        }
        let up = self.touches.is_touched(TouchSide::Up);
        let down = self.touches.is_touched(TouchSide::Down);
        self.state = self.state.next(dt, up, down);
    }

    /// What to draw for the current game, back to front.
    pub fn draw(&self) -> (r: Vec<Rect>)
        ensures
            r@ == scene(
                self.state,
                self.touches.touched(TouchSide::Up),
                self.touches.touched(TouchSide::Down),
            ),
    {
        describe(
            &self.state,
            self.touches.is_touched(TouchSide::Up),
            self.touches.is_touched(TouchSide::Down),
        )
    }

    /// Feeds one touch event to the game.
    pub fn touch(&mut self, touch: Touch)
        ensures
            final(self).state == old(self).state,
            final(self).touches == Self::touched_by(old(self).touches, touch),
    {
        match touch.phase {
            TouchPhase::Started => {
                if let Some(side) = side_of(touch.y) {
                    self.touches.on_touch_start(side, touch.id);
                }
            },
            TouchPhase::Ended | TouchPhase::Cancelled => {
                self.touches.on_touch_end_or_cancel(touch.id);
            },
            TouchPhase::Moved => {},
        }
    }
}

} // verus!
