use blackout::mouse::{get_safe_area, path_completed, Position, SafeArea};

fn area() -> SafeArea {
    get_safe_area(1920, 1080).unwrap()
}

#[test]
fn safe_area_leaves_a_sixth_on_each_side() {
    let a = area();
    assert_eq!(a.margin_left, 320);
    assert_eq!(a.margin_top, 320);
    assert_eq!(a.margin_right, 1600);
    assert_eq!(a.margin_bottom, 760);
}

#[test]
fn four_corners_close_once() {
    let a = area();
    let mut p = Position::Outside;
    assert!(!path_completed(&mut p, &a, 0, 0));
    assert_eq!(p, Position::TopLeft);
    assert!(!path_completed(&mut p, &a, 0, 1079));
    assert_eq!(p, Position::BottomLeft);
    assert!(!path_completed(&mut p, &a, 1919, 1079));
    assert_eq!(p, Position::BottomRight);
    assert!(path_completed(&mut p, &a, 1919, 0));
    assert_eq!(p, Position::TopRight);
}

use blackout::audio::SoundCue;
use blackout::mouse::{
    mouse_main, GestureEvent, MouseAction, PointerReading, Recognizer, POLL_INTERVAL_MS,
};
use blackout::state::ApplicationState;

const TOP_LEFT: (u32, u32) = (10, 10);
const BOTTOM_LEFT: (u32, u32) = (10, 1070);
const BOTTOM_RIGHT: (u32, u32) = (1910, 1070);
const TOP_RIGHT: (u32, u32) = (1910, 10);
const CENTER: (u32, u32) = (960, 540);

fn circuit(recognizer: &mut Recognizer) -> Vec<Option<GestureEvent>> {
    [TOP_LEFT, BOTTOM_LEFT, BOTTOM_RIGHT, TOP_RIGHT]
        .iter()
        .map(|(x, y)| recognizer.observe(*x, *y))
        .collect()
}

#[test]
fn a_display_too_low_has_no_safe_area() {
    assert_eq!(get_safe_area(6000, 999), None);
    assert!(get_safe_area(6000, 1000).is_some());
    let flat = get_safe_area(6000, 1000).unwrap();
    assert_eq!(flat.margin_top, 1000);
    assert_eq!(flat.margin_bottom, 0);
    let none = get_safe_area(0, 0).unwrap();
    assert_eq!((none.margin_left, none.margin_right, none.margin_top, none.margin_bottom), (0, 0, 0, 0));
}

#[test]
fn the_center_resets_from_every_position() {
    let a = area();
    for start in [
        Position::TopLeft,
        Position::TopRight,
        Position::BottomRight,
        Position::BottomLeft,
        Position::Outside,
        Position::Inside,
    ] {
        let mut p = start;
        assert!(!path_completed(&mut p, &a, 321, 321));
        assert_eq!(p, Position::Outside);
        let mut p = start;
        assert!(!path_completed(&mut p, &a, 1599, 759));
        assert_eq!(p, Position::Outside);
    }
}

#[test]
fn the_edges_of_the_safe_area_are_not_inside() {
    let a = area();
    let mut p = Position::TopLeft;
    assert!(!path_completed(&mut p, &a, 320, 500));
    assert_eq!(p, Position::TopLeft);
    assert!(!path_completed(&mut p, &a, 1600, 500));
    assert_eq!(p, Position::TopLeft);
    assert!(!path_completed(&mut p, &a, 500, 320));
    assert_eq!(p, Position::TopLeft);
    assert!(!path_completed(&mut p, &a, 500, 760));
    assert_eq!(p, Position::TopLeft);
}

#[test]
fn a_corner_out_of_turn_changes_nothing() {
    let a = area();
    let mut p = Position::Outside;
    assert!(!path_completed(&mut p, &a, BOTTOM_LEFT.0, BOTTOM_LEFT.1));
    assert_eq!(p, Position::Outside);
    assert!(!path_completed(&mut p, &a, TOP_RIGHT.0, TOP_RIGHT.1));
    assert_eq!(p, Position::Outside);
    let mut p = Position::TopLeft;
    assert!(!path_completed(&mut p, &a, BOTTOM_RIGHT.0, BOTTOM_RIGHT.1));
    assert_eq!(p, Position::TopLeft);
    let mut p = Position::BottomRight;
    assert!(!path_completed(&mut p, &a, TOP_LEFT.0, TOP_LEFT.1));
    assert_eq!(p, Position::BottomRight);
}

#[test]
fn the_path_starts_again_from_the_top_right() {
    let a = area();
    let mut p = Position::TopRight;
    assert!(!path_completed(&mut p, &a, TOP_LEFT.0, TOP_LEFT.1));
    assert_eq!(p, Position::TopLeft);
}

#[test]
fn the_reserved_position_behaves_like_the_start() {
    let a = area();
    let mut p = Position::Inside;
    assert!(!path_completed(&mut p, &a, BOTTOM_LEFT.0, BOTTOM_LEFT.1));
    assert_eq!(p, Position::Inside);
    assert!(!path_completed(&mut p, &a, TOP_LEFT.0, TOP_LEFT.1));
    assert_eq!(p, Position::TopLeft);
}

#[test]
fn the_center_after_progress_does_not_lock_the_path() {
    let a = area();
    let mut p = Position::Outside;
    path_completed(&mut p, &a, TOP_LEFT.0, TOP_LEFT.1);
    path_completed(&mut p, &a, BOTTOM_LEFT.0, BOTTOM_LEFT.1);
    assert_eq!(p, Position::BottomLeft);
    assert!(!path_completed(&mut p, &a, CENTER.0, CENTER.1));
    assert_eq!(p, Position::Outside);
    assert!(!path_completed(&mut p, &a, TOP_LEFT.0, TOP_LEFT.1));
    assert!(!path_completed(&mut p, &a, BOTTOM_LEFT.0, BOTTOM_LEFT.1));
    assert!(!path_completed(&mut p, &a, BOTTOM_RIGHT.0, BOTTOM_RIGHT.1));
    assert!(path_completed(&mut p, &a, TOP_RIGHT.0, TOP_RIGHT.1));
}

#[test]
fn the_first_circuit_arms_and_the_second_triggers() {
    let mut recognizer = Recognizer::new(area());
    assert!(!recognizer.is_armed());
    assert_eq!(recognizer.current_position(), Position::Outside);
    assert_eq!(circuit(&mut recognizer), vec![None, None, None, Some(GestureEvent::Armed)]);
    assert!(recognizer.is_armed());
    assert_eq!(recognizer.current_position(), Position::TopRight);
    assert_eq!(circuit(&mut recognizer), vec![None, None, None, Some(GestureEvent::Triggered)]);
    assert!(!recognizer.is_armed());
    assert_eq!(circuit(&mut recognizer), vec![None, None, None, Some(GestureEvent::Armed)]);
}

#[test]
fn the_center_cancels_an_armed_recognizer() {
    let mut recognizer = Recognizer::new(area());
    circuit(&mut recognizer);
    assert_eq!(recognizer.observe(TOP_RIGHT.0, TOP_RIGHT.1), None);
    assert_eq!(recognizer.observe(1000, 10), None);
    assert!(recognizer.is_armed());
    assert_eq!(recognizer.observe(CENTER.0, CENTER.1), Some(GestureEvent::Cancelled));
    assert!(!recognizer.is_armed());
    assert_eq!(recognizer.observe(CENTER.0, CENTER.1), None);
    assert_eq!(circuit(&mut recognizer), vec![None, None, None, Some(GestureEvent::Armed)]);
}

#[test]
fn the_center_cancels_nothing_when_disarmed() {
    let mut recognizer = Recognizer::new(area());
    recognizer.observe(TOP_LEFT.0, TOP_LEFT.1);
    assert_eq!(recognizer.observe(CENTER.0, CENTER.1), None);
    assert_eq!(recognizer.current_position(), Position::Outside);
}

#[test]
fn each_event_has_its_sound() {
    assert_eq!(GestureEvent::Armed.cue(), SoundCue::Arm);
    assert_eq!(GestureEvent::Triggered.cue(), SoundCue::Trigger);
    assert_eq!(GestureEvent::Cancelled.cue(), SoundCue::Cancel);
}

#[test]
fn the_loop_stops_when_the_application_quits() {
    let mut recognizer = Recognizer::new(area());
    let action = mouse_main(
        &mut recognizer,
        ApplicationState::Quit,
        PointerReading::Position { x: 10, y: 10 },
    );
    assert_eq!(action, MouseAction::Stop);
    assert_eq!(recognizer.current_position(), Position::Outside);
    assert_eq!(
        mouse_main(&mut recognizer, ApplicationState::Quit, PointerReading::Error),
        MouseAction::Stop
    );
}

#[test]
fn the_loop_fails_when_the_pointer_cannot_be_read() {
    let mut recognizer = Recognizer::new(area());
    assert_eq!(
        mouse_main(&mut recognizer, ApplicationState::Running, PointerReading::Error),
        MouseAction::Fail
    );
}

#[test]
fn the_loop_hands_readings_to_the_recognizer() {
    let mut recognizer = Recognizer::new(area());
    let mut actions = vec![];
    for (x, y) in [TOP_LEFT, BOTTOM_LEFT, BOTTOM_RIGHT, TOP_RIGHT] {
        actions.push(mouse_main(
            &mut recognizer,
            ApplicationState::Running,
            PointerReading::Position { x: x as i32, y: y as i32 },
        ));
    }
    assert_eq!(
        actions,
        vec![
            MouseAction::Continue(None),
            MouseAction::Continue(None),
            MouseAction::Continue(None),
            MouseAction::Continue(Some(GestureEvent::Armed)),
        ]
    );
    assert_eq!(POLL_INTERVAL_MS, 200);
}

#[test]
fn a_negative_coordinate_lies_beyond_every_margin() {
    let mut recognizer = Recognizer::new(area());
    mouse_main(&mut recognizer, ApplicationState::Running, PointerReading::Position { x: 5, y: 5 });
    assert_eq!(recognizer.current_position(), Position::TopLeft);
    // left of the primary display and below it: not the bottom left corner
    mouse_main(&mut recognizer, ApplicationState::Running, PointerReading::Position { x: -5, y: 1075 });
    assert_eq!(recognizer.current_position(), Position::TopLeft);
    mouse_main(&mut recognizer, ApplicationState::Running, PointerReading::Position { x: 5, y: 1075 });
    assert_eq!(recognizer.current_position(), Position::BottomLeft);
    // a wrapped coordinate counts as far right and far down
    mouse_main(&mut recognizer, ApplicationState::Running, PointerReading::Position { x: -1, y: -1 });
    assert_eq!(recognizer.current_position(), Position::BottomRight);
}
