use vstd::prelude::*;
use crate::units::GAME_TIME;
use crate::game::State;

verus! {

/// The colours a rectangle can be painted in.
#[derive(PartialEq, Eq, Structural, Clone, Copy, Debug)]
pub enum Paint {
    /// A zone that is held.
    Active,
    /// A zone that is not held.
    Idle,
    /// The track of the progress bars.
    ProgressBackground,
    /// A progress bar.
    Progress,
}

/// A filled rectangle, by its centre and size in length units.
#[derive(PartialEq, Eq, Structural, Clone, Copy, Debug)]
pub struct Rect {
    pub x: i64,
    pub y: i64,
    pub width: i64,
    pub height: i64,
    pub color: Paint,
}

/// The full width of the screen.
pub const FULL_WIDTH: i64 = 1200;

/// The height of each player's zone, from its edge to the screen's edge.
pub const ZONE_HEIGHT: i64 = 400;

/// The distance of each zone's centre from the middle of the screen.
pub const ZONE_Y: i64 = 400;

/// The height of the middle band, which holds the progress bars.
pub const TRACK_HEIGHT: i64 = 400;

/// The height of one progress bar: half of the middle band.
pub const BAR_HEIGHT: i64 = 200;

/// The distance of each bar's centre from the middle of the screen.
pub const BAR_Y: i64 = 100;

/// The width of the bar for a score, full at `GAME_TIME` and beyond.
pub open spec fn bar_width(score: u64) -> i64 {
    (FULL_WIDTH * (if score >= GAME_TIME { GAME_TIME as int } else { score as int })
        / GAME_TIME as int) as i64
}

pub open spec fn zone_rect(touched: bool, y: i64) -> Rect {
    Rect {
        x: 0,
        y,
        width: FULL_WIDTH,
        height: ZONE_HEIGHT,
        color: if touched { Paint::Active } else { Paint::Idle },
    }
}

pub open spec fn track_rect() -> Rect {
    Rect { x: 0, y: 0, width: FULL_WIDTH, height: TRACK_HEIGHT, color: Paint::ProgressBackground }
}

/// The up bar fills the upper half of the middle band, the down bar the lower.
pub open spec fn bar_rect(score: u64, up: bool) -> Rect {
    Rect {
        x: 0,
        y: if up { BAR_Y } else { (-BAR_Y) as i64 },
        width: bar_width(score),
        height: BAR_HEIGHT,
        color: Paint::Progress,
    }
}

/// The progress bars drawn for a phase: both while a round is played and
/// on the lit beats of a celebration; on the dark beats only the bar of the
/// side with the lower score.
pub open spec fn bars(s: State) -> Seq<Rect> {
    match s {
        State::Start => seq![],
        State::Game { up_score, down_score } => seq![
            bar_rect(up_score, true),
            bar_rect(down_score, false),
        ],
        State::End { up_score, down_score, blink, .. } => {
            if blink {
                seq![bar_rect(up_score, true), bar_rect(down_score, false)]
            } else if up_score > down_score {
                seq![bar_rect(down_score, false)]
            } else {
                seq![bar_rect(up_score, true)]
            }
        },
    }
}

/// What to draw, back to front: the two zones, the bar track, the bars.
pub open spec fn scene(s: State, up_touched: bool, down_touched: bool) -> Seq<Rect> {
    seq![
        zone_rect(up_touched, ZONE_Y),
        zone_rect(down_touched, (-ZONE_Y) as i64),
        track_rect(),
    ] + bars(s)
}

fn bar(score: u64, up: bool) -> (r: Rect)
    ensures
        r == bar_rect(score, up),
{
    let filled: u64 = if score >= GAME_TIME { GAME_TIME } else { score };
    let width = (FULL_WIDTH as u64) * filled / GAME_TIME;
    assert(width <= FULL_WIDTH) by (nonlinear_arith)
        requires
            width as int == (FULL_WIDTH as u64) as int * filled as int / GAME_TIME as int,
            filled as int <= GAME_TIME as int,
    ;
    Rect {
        x: 0,
        y: if up { BAR_Y } else { (-BAR_Y) as i64 },
        width: width as i64,
        height: BAR_HEIGHT,
        color: Paint::Progress,
    }
}

fn zone(touched: bool, y: i64) -> (r: Rect)
    ensures
        r == zone_rect(touched, y),
{
    Rect {
        x: 0,
        y,
        width: FULL_WIDTH,
        height: ZONE_HEIGHT,
        color: if touched { Paint::Active } else { Paint::Idle },
    }
}

/// The rectangles that show phase `s` with the given sides held, back to front.
pub fn describe(s: &State, up_touched: bool, down_touched: bool) -> (r: Vec<Rect>)
    ensures
        r@ == scene(*s, up_touched, down_touched),
{
    let mut r: Vec<Rect> = Vec::new();
    r.push(zone(up_touched, ZONE_Y));
    r.push(zone(down_touched, -ZONE_Y));
    r.push(
        Rect { x: 0, y: 0, width: FULL_WIDTH, height: TRACK_HEIGHT, color: Paint::ProgressBackground },
    );
    match *s {
        State::Start => {},
        State::Game { up_score, down_score } => {
            r.push(bar(up_score, true));
            r.push(bar(down_score, false));
        },
        State::End { up_score, down_score, blink, .. } => {
            if blink {
                r.push(bar(up_score, true));
                r.push(bar(down_score, false));
            } else if up_score > down_score {
                r.push(bar(down_score, false));
            } else {
                r.push(bar(up_score, true));
            }
        },
    }
    assert(r@ == scene(*s, up_touched, down_touched));
    r
}

/// On a dark beat of a celebration the leading side's bar is hidden: only
/// the trailing side's bar is drawn after the zones and the track.
pub proof fn lemma_dark_beat_shows_trailing_bar(s: State, up_touched: bool, down_touched: bool)
    requires
        s is End,
        !s->blink,
    ensures
        ({
            let r = scene(s, up_touched, down_touched);
            let (up, down) = (s->End_up_score, s->End_down_score);
            &&& r.len() == 4
            &&& up > down ==> r[3] == bar_rect(down, false)
            &&& up <= down ==> r[3] == bar_rect(up, true)
            &&& forall|i: int| 0 <= i < 4 ==> r[i].color != Paint::Progress || i == 3
        }),
{
}

} // verus!
