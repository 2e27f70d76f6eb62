//! The editing state machine: dragging, committing, mode toggling, rendering,
//! and the pump loop end to end.

use rust_rider::application::Application;
use rust_rider::error::CoreError;
use rust_rider::event::{Button, Event, Key, MouseButton, RenderArgs, ScriptedEventSource};
use rust_rider::geometry::{Color, DrawCmd, LineSegment, Point};
use rust_rider::handler::dispatch;
use rust_rider::rust_rider::{EditMode, GameMode, State};

fn press_left() -> Event {
    Event::Press(Button::Mouse(MouseButton::Left))
}

fn release_left() -> Event {
    Event::Release(Button::Mouse(MouseButton::Left))
}

#[test]
fn end_to_end_drag_then_toggle_modes() {
    let mut app: Application<GameMode> = Application::new();
    assert_eq!(app.add_application_mode("rust_rider", GameMode::new()), Ok(()));
    assert_eq!(app.set_active_application_mode("rust_rider"), Ok(()));

    let mut source = ScriptedEventSource::new(vec![
        Event::MouseCursor(Point::new(0, 0)),
        press_left(),
        Event::MouseCursor(Point::new(3, 4)),
        release_left(),
        Event::Render(RenderArgs { width: 100, height: 100 }),
    ]);
    assert_eq!(app.spin(&mut source), Ok(()));

    {
        let mode = app.get_active_application_mode().unwrap();
        assert_eq!(mode.state.line_segments.len(), 1);
        assert_eq!(
            mode.state.line_segments[0],
            LineSegment::new(Point::new(0, 0), Point::new(3, 4))
        );
        assert!(mode.state.active_line_segment.is_none());
        // The rendered frame holds no preview: clear, bar, and the one
        // committed segment only.
        assert_eq!(mode.frame.len(), 3);
        assert_eq!(
            mode.frame[2],
            DrawCmd::Segment {
                color: Color::Black,
                point1: Point::new(0, 0),
                point2: Point::new(3, 4),
            }
        );
    }

    let mut source = ScriptedEventSource::new(vec![Event::Press(Button::Keyboard(Key::LShift))]);
    assert_eq!(app.spin(&mut source), Ok(()));
    assert_eq!(
        app.get_active_application_mode().unwrap().state.edit_mode,
        EditMode::Select
    );

    let mut source = ScriptedEventSource::new(vec![Event::Release(Button::Keyboard(
        Key::LShift,
    ))]);
    assert_eq!(app.spin(&mut source), Ok(()));
    assert_eq!(
        app.get_active_application_mode().unwrap().state.edit_mode,
        EditMode::Insert
    );
}

#[test]
fn three_drags_commit_three_segments_in_temporal_order() {
    let mut mode = GameMode::new();
    let pairs = [
        (Point::new(0, 0), Point::new(1, 1)),
        (Point::new(10, 0), Point::new(10, 5)),
        (Point::new(-2, -3), Point::new(4, -8)),
    ];
    for (from, to) in &pairs {
        assert_eq!(dispatch(&mut mode, &Event::MouseCursor(*from)), Ok(()));
        assert_eq!(dispatch(&mut mode, &press_left()), Ok(()));
        assert_eq!(dispatch(&mut mode, &Event::MouseCursor(*to)), Ok(()));
        assert_eq!(dispatch(&mut mode, &release_left()), Ok(()));
    }
    assert_eq!(mode.state.line_segments.len(), 3);
    for (i, (from, to)) in pairs.iter().enumerate() {
        assert_eq!(mode.state.line_segments[i], LineSegment::new(*from, *to));
    }
}

#[test]
fn press_while_dragging_keeps_the_original_start() {
    let mut mode = GameMode::new();
    assert_eq!(dispatch(&mut mode, &Event::MouseCursor(Point::new(1, 2))), Ok(()));
    assert_eq!(dispatch(&mut mode, &press_left()), Ok(()));
    assert_eq!(mode.state.active_line_segment, Some(Point::new(1, 2)));
    assert_eq!(dispatch(&mut mode, &Event::MouseCursor(Point::new(9, 9))), Ok(()));
    assert_eq!(dispatch(&mut mode, &press_left()), Ok(()));
    assert_eq!(mode.state.active_line_segment, Some(Point::new(1, 2)));
}

#[test]
fn release_without_drag_changes_nothing() {
    let mut mode = GameMode::new();
    assert_eq!(dispatch(&mut mode, &Event::MouseCursor(Point::new(5, 5))), Ok(()));
    assert_eq!(dispatch(&mut mode, &release_left()), Ok(()));
    assert_eq!(mode.state.line_segments.len(), 0);
    assert!(mode.state.active_line_segment.is_none());
}

#[test]
fn repeated_shift_presses_stay_in_select() {
    let mut mode = GameMode::new();
    assert_eq!(dispatch(&mut mode, &Event::Press(Button::Keyboard(Key::LShift))), Ok(()));
    assert_eq!(mode.state.edit_mode, EditMode::Select);
    assert_eq!(dispatch(&mut mode, &Event::Press(Button::Keyboard(Key::RShift))), Ok(()));
    assert_eq!(mode.state.edit_mode, EditMode::Select);
    assert_eq!(dispatch(&mut mode, &Event::Release(Button::Keyboard(Key::LShift))), Ok(()));
    assert_eq!(mode.state.edit_mode, EditMode::Insert);
    assert_eq!(dispatch(&mut mode, &Event::Release(Button::Keyboard(Key::RShift))), Ok(()));
    assert_eq!(mode.state.edit_mode, EditMode::Insert);
}

#[test]
fn frame_shows_the_bar_in_the_mode_color() {
    let state = State::new();
    let frame = state.frame(640, 480);
    assert_eq!(frame[0], DrawCmd::Clear(Color::White));
    assert_eq!(
        frame[1],
        DrawCmd::Rect { color: Color::Green, x: 0, y: 460, width: 640, height: 20 }
    );
    assert_eq!(frame.len(), 2);

    let mut mode = GameMode::new();
    assert_eq!(dispatch(&mut mode, &Event::Press(Button::Keyboard(Key::LShift))), Ok(()));
    let frame = mode.state.frame(640, 480);
    assert_eq!(
        frame[1],
        DrawCmd::Rect { color: Color::Blue, x: 0, y: 460, width: 640, height: 20 }
    );
}

#[test]
fn frame_shows_a_preview_only_while_dragging() {
    let mut mode = GameMode::new();
    assert_eq!(dispatch(&mut mode, &Event::MouseCursor(Point::new(1, 1))), Ok(()));
    assert_eq!(dispatch(&mut mode, &press_left()), Ok(()));
    assert_eq!(dispatch(&mut mode, &Event::MouseCursor(Point::new(8, 2))), Ok(()));
    let frame = mode.state.frame(100, 100);
    assert_eq!(frame.len(), 3);
    assert_eq!(
        frame[2],
        DrawCmd::Segment {
            color: Color::Black,
            point1: Point::new(1, 1),
            point2: Point::new(8, 2),
        }
    );
    assert_eq!(dispatch(&mut mode, &release_left()), Ok(()));
    let frame = mode.state.frame(100, 100);
    assert_eq!(frame.len(), 3);
    assert_eq!(
        frame[2],
        DrawCmd::Segment {
            color: Color::Black,
            point1: Point::new(1, 1),
            point2: Point::new(8, 2),
        }
    );
}

#[test]
fn frame_clamps_the_bar_for_tiny_windows() {
    let state = State::new();
    let frame = state.frame(10, 10);
    assert_eq!(
        frame[1],
        DrawCmd::Rect { color: Color::Green, x: 0, y: 0, width: 10, height: 20 }
    );
}

#[test]
fn spin_without_active_mode_is_refused() {
    let mut app: Application<GameMode> = Application::new();
    let mut source = ScriptedEventSource::new(vec![Event::Close]);
    assert_eq!(app.spin(&mut source), Err(CoreError::NoActiveMode));
}

#[test]
fn spin_stops_at_the_first_error_and_keeps_earlier_work() {
    let mut app: Application<GameMode> = Application::new();
    assert_eq!(app.add_application_mode("rust_rider", GameMode::new()), Ok(()));
    assert_eq!(app.set_active_application_mode("rust_rider"), Ok(()));
    let mut source = ScriptedEventSource::new(vec![
        Event::MouseCursor(Point::new(0, 0)),
        press_left(),
        Event::MouseCursor(Point::new(2, 2)),
        release_left(),
        Event::Unclassified,
        Event::MouseCursor(Point::new(50, 50)),
    ]);
    assert_eq!(app.spin(&mut source), Err(CoreError::UnclassifiedEvent));
    let mode = app.get_active_application_mode().unwrap();
    assert_eq!(mode.state.line_segments.len(), 1);
    // The event after the failing one was never processed.
    assert_eq!(mode.state.mouse_position, Point::new(2, 2));
}

#[test]
fn next_yields_the_scripted_events_in_order() {
    let mut app: Application<GameMode> = Application::new();
    let mut source = ScriptedEventSource::new(vec![Event::Close, Event::AfterRender]);
    assert!(matches!(app.next(&mut source), Some(Event::Close)));
    assert!(matches!(app.next(&mut source), Some(Event::AfterRender)));
    assert!(app.next(&mut source).is_none());
}

#[test]
fn new_with_state_resumes_the_given_session() {
    let mut state = State::new();
    state.edit_mode = EditMode::Select;
    state.line_segments.push(LineSegment::new(Point::new(1, 1), Point::new(2, 2)));
    let mode = GameMode::new_with_state(state);
    assert_eq!(mode.state.edit_mode, EditMode::Select);
    assert_eq!(mode.state.line_segments.len(), 1);
    assert_eq!(mode.frame.len(), 0);
}
