//! Behavioural tests for the sketching core: the classifier, the
//! stroke accumulator and the cached polyline renderer.

use painter::geometry::{build_polyline, PathCommand, Point};
use painter::input::{classify, Button, EventStatus, InputEvent, Intent, Key};
use painter::state::{Action, State};

fn pt(x: i32, y: i32) -> Point {
    Point::new(x, y)
}

#[test]
fn three_point_stroke_scenario() {
    let mut s = State::new();
    assert_eq!(s.apply(Intent::Start(pt(10, 10))), Action::Continue);
    assert_eq!(s.apply(Intent::Extend(pt(20, 20))), Action::Continue);
    assert_eq!(s.apply(Intent::Extend(pt(30, 10))), Action::Continue);
    assert_eq!(s.apply(Intent::End), Action::Continue);
    assert_eq!(s.points(), &vec![pt(10, 10), pt(20, 20), pt(30, 10)]);
    assert!(!s.is_drawing());
    let path = s.render();
    assert_eq!(
        path,
        vec![
            PathCommand::MoveTo(pt(10, 10)),
            PathCommand::LineTo(pt(20, 20)),
            PathCommand::LineTo(pt(30, 10)),
        ]
    );
}

#[test]
fn accumulation_spans_strokes() {
    // end intents never remove points: two strokes accumulate into one
    // polyline, in call order
    let mut s = State::new();
    s.apply(Intent::Start(pt(1, 1)));
    s.apply(Intent::Extend(pt(2, 2)));
    s.apply(Intent::End);
    s.apply(Intent::Start(pt(3, 3)));
    s.apply(Intent::Extend(pt(4, 4)));
    s.apply(Intent::End);
    assert_eq!(s.points(), &vec![pt(1, 1), pt(2, 2), pt(3, 3), pt(4, 4)]);
}

#[test]
fn clear_on_empty_stroke() {
    let mut s = State::new();
    assert_eq!(s.apply(Intent::Clear), Action::Continue);
    assert!(s.points().is_empty());
    assert!(!s.is_drawing());
}

#[test]
fn clear_twice_leaves_empty_both_times() {
    let mut s = State::new();
    s.apply(Intent::Start(pt(7, 8)));
    s.apply(Intent::Extend(pt(9, 10)));
    s.apply(Intent::Clear);
    assert!(s.points().is_empty());
    assert!(!s.is_drawing());
    s.apply(Intent::Clear);
    assert!(s.points().is_empty());
    assert!(!s.is_drawing());
}

#[test]
fn extend_while_idle_changes_nothing() {
    let mut s = State::new();
    s.apply(Intent::Start(pt(1, 2)));
    s.apply(Intent::End);
    let before = s.points().clone();
    assert_eq!(s.apply(Intent::Extend(pt(5, 5))), Action::Continue);
    assert_eq!(s.points(), &before);
    assert!(!s.is_drawing());
}

#[test]
fn end_while_idle_is_harmless() {
    let mut s = State::new();
    assert_eq!(s.apply(Intent::End), Action::Continue);
    assert!(s.points().is_empty());
    assert!(!s.is_drawing());
}

#[test]
fn quit_requests_termination_and_touches_nothing() {
    let mut s = State::new();
    s.apply(Intent::Start(pt(3, 4)));
    assert_eq!(s.apply(Intent::Quit), Action::Quit);
    assert_eq!(s.points(), &vec![pt(3, 4)]);
    assert!(s.is_drawing());
}

#[test]
fn render_empty_stroke_yields_no_geometry() {
    let mut s = State::new();
    assert!(s.render().is_empty());
}

#[test]
fn render_single_point_yields_no_geometry() {
    let mut s = State::new();
    s.apply(Intent::Start(pt(42, 7)));
    s.apply(Intent::End);
    assert!(s.render().is_empty());
}

#[test]
fn render_reflects_every_mutation() {
    let mut s = State::new();
    s.apply(Intent::Start(pt(0, 0)));
    s.apply(Intent::Extend(pt(1, 1)));
    let first = s.render();
    assert_eq!(first.len(), 2);
    // a redraw without mutation reads the cache and shows the same path
    assert_eq!(s.render(), first);
    // a mutation invalidates the cache; the next render shows it
    s.apply(Intent::Extend(pt(2, 3)));
    let second = s.render();
    assert_eq!(
        second,
        vec![
            PathCommand::MoveTo(pt(0, 0)),
            PathCommand::LineTo(pt(1, 1)),
            PathCommand::LineTo(pt(2, 3)),
        ]
    );
    // clearing empties the geometry as well
    s.apply(Intent::Clear);
    assert!(s.render().is_empty());
}

#[test]
fn build_polyline_moves_then_draws_lines() {
    let points = vec![pt(10, 10), pt(20, 20), pt(30, 10)];
    assert_eq!(
        build_polyline(&points),
        vec![
            PathCommand::MoveTo(pt(10, 10)),
            PathCommand::LineTo(pt(20, 20)),
            PathCommand::LineTo(pt(30, 10)),
        ]
    );
    assert!(build_polyline(&vec![]).is_empty());
    assert!(build_polyline(&vec![pt(5, 5)]).is_empty());
}

#[test]
fn left_press_starts_a_stroke_at_the_cursor() {
    let r = classify(InputEvent::ButtonPressed { button: Button::Left, position: Some(pt(10, 10)) });
    assert_eq!(r, (EventStatus::Captured, Some(Intent::Start(pt(10, 10)))));
}

#[test]
fn cursor_move_extends() {
    let r = classify(InputEvent::CursorMoved { position: pt(4, 4) });
    assert_eq!(r, (EventStatus::Captured, Some(Intent::Extend(pt(4, 4)))));
}

#[test]
fn left_release_ends() {
    let r = classify(InputEvent::ButtonReleased { button: Button::Left });
    assert_eq!(r, (EventStatus::Captured, Some(Intent::End)));
}

#[test]
fn escape_quits_and_r_clears() {
    assert_eq!(
        classify(InputEvent::KeyPressed { key: Key::Escape }),
        (EventStatus::Captured, Some(Intent::Quit))
    );
    assert_eq!(
        classify(InputEvent::KeyPressed { key: Key::R }),
        (EventStatus::Captured, Some(Intent::Clear))
    );
}

#[test]
fn unrecognized_events_are_ignored_and_not_consumed() {
    assert_eq!(
        classify(InputEvent::ButtonPressed { button: Button::Other, position: None }),
        (EventStatus::Ignored, None)
    );
    assert_eq!(
        classify(InputEvent::ButtonReleased { button: Button::Other }),
        (EventStatus::Ignored, None)
    );
    assert_eq!(
        classify(InputEvent::KeyPressed { key: Key::Other }),
        (EventStatus::Ignored, None)
    );
    assert_eq!(classify(InputEvent::Other), (EventStatus::Ignored, None));
}
