use tug_of_war::app::App;
use tug_of_war::game::State;
use tug_of_war::touch::{side_of, Touch, TouchPhase, TouchSide, TouchTracker};

fn event(phase: TouchPhase, id: u64, y: i64) -> Touch {
    Touch { phase, id, x: 0, y }
}

#[test]
fn sides_split_the_screen_in_thirds() {
    assert_eq!(side_of(600), Some(TouchSide::Up));
    assert_eq!(side_of(200), Some(TouchSide::Up));
    assert_eq!(side_of(199), None);
    assert_eq!(side_of(0), None);
    assert_eq!(side_of(-199), None);
    assert_eq!(side_of(-200), Some(TouchSide::Down));
    assert_eq!(side_of(-600), Some(TouchSide::Down));
}

#[test]
fn second_touch_on_held_side_is_ignored() {
    let mut t = TouchTracker::new();
    t.on_touch_start(TouchSide::Up, 1);
    t.on_touch_start(TouchSide::Up, 2);
    assert!(t.is_touched(TouchSide::Up));
    assert_eq!(t.up_id, Some(1));
    t.on_touch_end_or_cancel(2);
    assert!(t.is_touched(TouchSide::Up));
    assert_eq!(t.up_id, Some(1));
    t.on_touch_end_or_cancel(1);
    assert!(!t.is_touched(TouchSide::Up));
}

#[test]
fn ending_unknown_touch_changes_nothing() {
    let mut t = TouchTracker::new();
    t.on_touch_start(TouchSide::Down, 9);
    t.on_touch_end_or_cancel(4);
    assert_eq!(t, TouchTracker { up_id: None, down_id: Some(9) });
}

#[test]
fn app_routes_touch_events() {
    let mut app = App::new();
    app.touch(event(TouchPhase::Started, 1, 300));
    app.touch(event(TouchPhase::Started, 2, 450));
    app.touch(event(TouchPhase::Started, 3, 0));
    app.touch(event(TouchPhase::Started, 4, -500));
    assert_eq!(app.touches, TouchTracker { up_id: Some(1), down_id: Some(4) });
    app.touch(event(TouchPhase::Moved, 1, -500));
    app.touch(event(TouchPhase::Ended, 3, 0));
    assert_eq!(app.touches, TouchTracker { up_id: Some(1), down_id: Some(4) });
    app.touch(event(TouchPhase::Cancelled, 4, 0));
    assert_eq!(app.touches, TouchTracker { up_id: Some(1), down_id: None });
    app.touch(event(TouchPhase::Ended, 1, 0));
    assert_eq!(app.touches, TouchTracker { up_id: None, down_id: None });
}

#[test]
fn app_update_reads_held_sides() {
    let mut app = App::new();
    app.update(16_667);
    assert_eq!(app.state, State::Start);
    app.touch(event(TouchPhase::Started, 7, -300));
    app.update(16_667);
    assert_eq!(app.state, State::Game { up_score: 0, down_score: 0 });
    app.update(16_667);
    assert_eq!(app.state, State::Game { up_score: 16_667, down_score: 0 });
    app.touch(event(TouchPhase::Ended, 7, -300));
    app.update(10_000);
    assert_eq!(app.state, State::Game { up_score: 16_667, down_score: 10_000 });
}
