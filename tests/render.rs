use tug_of_war::app::App;
use tug_of_war::game::State;
use tug_of_war::render::{describe, Paint, Rect};
use tug_of_war::touch::{Touch, TouchPhase};
use tug_of_war::units::GAME_TIME;

fn zone(y: i64, color: Paint) -> Rect {
    Rect { x: 0, y, width: 1200, height: 400, color }
}

fn track() -> Rect {
    Rect { x: 0, y: 0, width: 1200, height: 400, color: Paint::ProgressBackground }
}

fn bar(y: i64, width: i64) -> Rect {
    Rect { x: 0, y, width, height: 200, color: Paint::Progress }
}

#[test]
fn start_draws_zones_and_track_only() {
    let r = describe(&State::Start, true, false);
    assert_eq!(r, vec![zone(400, Paint::Active), zone(-400, Paint::Idle), track()]);
}

#[test]
fn game_draws_both_bars_by_score() {
    let s = State::Game { up_score: 2_500_000, down_score: 1_000_000 };
    let r = describe(&s, false, true);
    assert_eq!(
        r,
        vec![
            zone(400, Paint::Idle),
            zone(-400, Paint::Active),
            track(),
            bar(100, 600),
            bar(-100, 240),
        ]
    );
}

#[test]
fn dark_beat_hides_leading_bar() {
    let s = State::End {
        up_winner: true,
        up_score: 4_000_000,
        down_score: 1_500_000,
        timer: 1_000_000,
        blinking_timer: 50_000,
        blink: false,
    };
    let r = describe(&s, false, false);
    assert_eq!(r.len(), 4);
    assert_eq!(r[3], bar(-100, 360));
    assert!(!r.contains(&bar(100, 960)));
}

#[test]
fn dark_beat_with_down_ahead_shows_up_bar() {
    let s = State::End {
        up_winner: false,
        up_score: 1_000_000,
        down_score: GAME_TIME,
        timer: 1_000_000,
        blinking_timer: 50_000,
        blink: false,
    };
    let r = describe(&s, false, false);
    assert_eq!(r.len(), 4);
    assert_eq!(r[3], bar(100, 240));
}

#[test]
fn lit_beat_shows_both_bars_capped_at_full() {
    let s = State::End {
        up_winner: false,
        up_score: 0,
        down_score: GAME_TIME + 1_000,
        timer: 1_000_000,
        blinking_timer: 50_000,
        blink: true,
    };
    let r = describe(&s, false, false);
    assert_eq!(r[3..].to_vec(), vec![bar(100, 0), bar(-100, 1200)]);
}

#[test]
fn app_draw_reflects_held_sides() {
    let mut app = App::new();
    app.touch(Touch { phase: TouchPhase::Started, id: 3, x: 10, y: 250 });
    let r = app.draw();
    assert_eq!(r, vec![zone(400, Paint::Active), zone(-400, Paint::Idle), track()]);
}
