use vstd::prelude::*;
use crate::units::{countdown, tick_down, GAME_TIME, END_TIMER, END_BLINKING_TIMER};

verus! {

/// The phase of a round. Scores and timers are in microseconds; a score
/// of `GAME_TIME` is a full bar.
#[derive(PartialEq, Eq, Structural, Clone, Copy, Debug)]
pub enum State {
    /// Waiting for exactly one side to be held.
    Start,
    /// A round in play.
    Game { up_score: u64, down_score: u64 },
    /// The celebration after a win, with the scores the round ended on.
    End {
        up_winner: bool,
        up_score: u64,
        down_score: u64,
        timer: u64,
        blinking_timer: u64,
        blink: bool,
    },
}

/// A score after `dt` more microseconds of accumulation, stopped at the
/// largest `u64`.
pub open spec fn accrued(score: u64, dt: u64) -> u64 {
    if score + dt > u64::MAX { u64::MAX } else { (score + dt) as u64 }
}

/// Whether a score fills the bar.
pub open spec fn full(score: u64) -> bool {
    score >= GAME_TIME
}

/// The phase after one tick of `dt` microseconds with the given sides held.
pub open spec fn step(s: State, dt: u64, up_touched: bool, down_touched: bool) -> State {
    match s {
        State::Start => {
            if up_touched != down_touched {
                State::Game { up_score: 0, down_score: 0 }
            } else {
                State::Start
            }
        },
        State::Game { up_score, down_score } => {
            let up = if up_touched == down_touched { up_score } else { accrued(up_score, dt) };
            let down = if up_touched == down_touched { accrued(down_score, dt) } else { down_score };
            if full(up) || full(down) {
                State::End {
                    up_winner: full(up),
                    up_score: up,
                    down_score: down,
                    timer: END_TIMER,
                    blinking_timer: END_BLINKING_TIMER,
                    blink: false,
                }
            } else {
                State::Game { up_score: up, down_score: down }
            }
        },
        State::End { up_winner, up_score, down_score, timer, blinking_timer, blink } => {
            if countdown(timer, dt) == 0 {
                State::Start
            } else {
                let rolled = countdown(blinking_timer, dt) == 0;
                State::End {
                    up_winner,
                    up_score,
                    down_score,
                    timer: countdown(timer, dt),
                    blinking_timer: if rolled { END_BLINKING_TIMER } else { countdown(blinking_timer, dt) },
                    blink: if rolled { !blink } else { blink },
                }
            }
        },
    }
}

/// Adds `dt` to a score, stopping at the largest `u64`.
fn accrue(score: u64, dt: u64) -> (r: u64)
    ensures
        r == accrued(score, dt),
{
    if dt > u64::MAX - score { u64::MAX } else { score + dt }
}

impl State {
    /// The states a round can be in: a score in play is below the bar, the
    /// winner of a celebration is the side whose bar is full, and its timers
    /// are running.
    pub open spec fn wf(self) -> bool {
        match self {
            State::Start => true,
            State::Game { up_score, down_score } => !full(up_score) && !full(down_score),
            State::End { up_winner, up_score, down_score, timer, blinking_timer, .. } => {
                &&& full(up_score) || full(down_score)
                &&& up_winner == full(up_score)
                &&& 0 < timer <= END_TIMER
                &&& 0 < blinking_timer <= END_BLINKING_TIMER
            },
        }
    }

    /// Advances the phase by one tick of `dt` microseconds, given which
    /// sides are held during it.
    pub fn next(self, dt: u64, up_touched: bool, down_touched: bool) -> (r: State)
        ensures
            r == step(self, dt, up_touched, down_touched),
    {
        match self {
            State::Start => {
                if up_touched != down_touched {
                    State::Game { up_score: 0, down_score: 0 }
                } else {
                    State::Start
                }
            },
            State::Game { up_score, down_score } => {
                let mut up = up_score;
                let mut down = down_score;
                if up_touched == down_touched {
                    down = accrue(down, dt);
                } else {
                    up = accrue(up, dt);
                }
                if down >= GAME_TIME || up >= GAME_TIME {
                    State::End {
                        up_winner: up >= GAME_TIME,
                        up_score: up,
                        down_score: down,
                        timer: END_TIMER,
                        blinking_timer: END_BLINKING_TIMER,
                        blink: false,
                    }
                } else {
                    State::Game { up_score: up, down_score: down }
                }
            },
            State::End { up_winner, up_score, down_score, timer, blinking_timer, blink } => {
                let timer = tick_down(timer, dt);
                let mut blinking_timer = tick_down(blinking_timer, dt);
                let mut blink = blink;
                if blinking_timer == 0 {
                    blinking_timer = END_BLINKING_TIMER;
                    blink = !blink;
                }
                if timer == 0 {
                    State::Start
                } else {
                    State::End { up_winner, up_score, down_score, timer, blinking_timer, blink }
                }
            },
        }
    }
}

/// Every tick keeps a state a round can be in.
pub proof fn lemma_step_keeps_wf(s: State, dt: u64, up_touched: bool, down_touched: bool)
    requires
        s.wf(),
    ensures
        step(s, dt, up_touched, down_touched).wf(),
{
}

/// Each tick yields one phase, and only by the rules: a round starts from
/// `Start` with zeroed scores when exactly one side is held and goes on while
/// no bar is full; a celebration begins when a bar fills, with its winner
/// and scores then fixed, and lasts while its timer runs; `Start` follows a
/// symmetric touch at `Start` or a celebration whose timer ran out.
pub proof fn lemma_step_origin(s: State, dt: u64, up_touched: bool, down_touched: bool)
    ensures
        ({
            let r = step(s, dt, up_touched, down_touched);
            &&& (r is Start) as int + (r is Game) as int + (r is End) as int == 1
            &&& r is Start ==> {
                ||| s is Start && up_touched == down_touched
                ||| s is End && countdown(s->timer, dt) == 0
            }
            &&& r is Game ==> {
                ||| s is Start && up_touched != down_touched && r == (State::Game {
                    up_score: 0,
                    down_score: 0,
                })
                ||| s is Game && !full(r->Game_up_score) && !full(r->Game_down_score)
            }
            &&& r is End ==> {
                ||| s is Game && r->timer == END_TIMER && r->blinking_timer == END_BLINKING_TIMER
                    && !r->blink && r->up_winner == full(r->End_up_score) && (full(
                    r->End_up_score) || full(r->End_down_score))
                ||| s is End && countdown(s->timer, dt) > 0 && r->up_winner == s->up_winner
                    && r->End_up_score == s->End_up_score && r->End_down_score
                    == s->End_down_score && r->timer == countdown(s->timer, dt)
            }
        }),
{
}

/// From `Start`, one tick begins a round with zeroed scores exactly when
/// one side alone is held, and otherwise stays at `Start`.
pub proof fn lemma_start_needs_one_side(dt: u64, up_touched: bool, down_touched: bool)
    ensures
        up_touched != down_touched ==> step(State::Start, dt, up_touched, down_touched) == (
        State::Game { up_score: 0, down_score: 0 }),
        up_touched == down_touched ==> step(State::Start, dt, up_touched, down_touched)
            == State::Start,
{
}

/// During a celebration whose blink timer stands at the full period, a tick
/// of one period that leaves time on the main timer toggles the blink once
/// and restarts the blink timer.
pub proof fn lemma_blink_period(s: State, up_touched: bool, down_touched: bool)
    requires
        s is End,
        s->blinking_timer == END_BLINKING_TIMER,
        s->timer > END_BLINKING_TIMER,
    ensures
        ({
            let r = step(s, END_BLINKING_TIMER, up_touched, down_touched);
            &&& r is End
            &&& r->blink == !s->blink
            &&& r->blinking_timer == END_BLINKING_TIMER
            &&& r->timer == s->timer - END_BLINKING_TIMER
        }),
{
}

} // verus!
