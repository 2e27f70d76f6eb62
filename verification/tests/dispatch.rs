//! The dispatcher: every category reaches its one callback, and an
//! unclassifiable event is a hard failure.

use rust_rider::error::CoreError;
use rust_rider::event::{
    Button, ButtonArgs, ButtonState, ControllerAxisArgs, Event, IdleArgs, Key, MouseButton,
    RenderArgs, ResizeArgs, TouchArgs, UpdateArgs,
};
use rust_rider::geometry::Point;
use rust_rider::handler::dispatch;
use rust_rider::rust_rider::{EditMode, GameMode};

#[test]
fn mouse_cursor_updates_the_position_and_nothing_else() {
    let mut mode = GameMode::new();
    let r = dispatch(&mut mode, &Event::MouseCursor(Point::new(11, -4)));
    assert_eq!(r, Ok(()));
    assert_eq!(mode.state.mouse_position, Point::new(11, -4));
    assert_eq!(mode.state.edit_mode, EditMode::Insert);
    assert!(mode.state.active_line_segment.is_none());
    assert_eq!(mode.state.line_segments.len(), 0);
}

#[test]
fn press_left_starts_a_drag_at_the_mouse_position() {
    let mut mode = GameMode::new();
    assert_eq!(dispatch(&mut mode, &Event::MouseCursor(Point::new(2, 3))), Ok(()));
    assert_eq!(
        dispatch(&mut mode, &Event::Press(Button::Mouse(MouseButton::Left))),
        Ok(())
    );
    assert_eq!(mode.state.active_line_segment, Some(Point::new(2, 3)));
    assert_eq!(mode.state.line_segments.len(), 0);
}

#[test]
fn press_shift_selects_select_mode() {
    let mut mode = GameMode::new();
    assert_eq!(
        dispatch(&mut mode, &Event::Press(Button::Keyboard(Key::LShift))),
        Ok(())
    );
    assert_eq!(mode.state.edit_mode, EditMode::Select);
    assert_eq!(
        dispatch(&mut mode, &Event::Release(Button::Keyboard(Key::RShift))),
        Ok(())
    );
    assert_eq!(mode.state.edit_mode, EditMode::Insert);
}

#[test]
fn other_keys_and_buttons_are_ignored() {
    let mut mode = GameMode::new();
    assert_eq!(
        dispatch(&mut mode, &Event::Press(Button::Keyboard(Key::Other))),
        Ok(())
    );
    assert_eq!(mode.state.edit_mode, EditMode::Insert);
    assert_eq!(
        dispatch(&mut mode, &Event::Press(Button::Mouse(MouseButton::Right))),
        Ok(())
    );
    assert!(mode.state.active_line_segment.is_none());
    assert_eq!(dispatch(&mut mode, &Event::Press(Button::Other)), Ok(()));
    assert!(mode.state.active_line_segment.is_none());
}

#[test]
fn every_no_op_category_succeeds_and_leaves_the_session_unchanged() {
    let mut mode = GameMode::new();
    let events = vec![
        Event::Button(ButtonArgs {
            state: ButtonState::Press,
            button: Button::Keyboard(Key::LShift),
        }),
        Event::ControllerAxis(ControllerAxisArgs { id: 1, axis: 0, position: 500 }),
        Event::MouseRelative(Point::new(4, 4)),
        Event::MouseScroll(Point::new(0, -1)),
        Event::Text(String::from("hello")),
        Event::Touch(TouchArgs { id: 7, x: 10, y: 20 }),
        Event::Idle(IdleArgs { dt_us: 16000 }),
        Event::Update(UpdateArgs { dt_us: 8000 }),
        Event::AfterRender,
        Event::Close,
        Event::Cursor(true),
        Event::Focus(false),
        Event::Resize(ResizeArgs { width: 640, height: 480 }),
    ];
    for event in &events {
        assert_eq!(dispatch(&mut mode, event), Ok(()));
        assert_eq!(mode.state.edit_mode, EditMode::Insert);
        assert!(mode.state.active_line_segment.is_none());
        assert_eq!(mode.state.line_segments.len(), 0);
        assert_eq!(mode.state.mouse_position, Point::new(0, 0));
    }
}

#[test]
fn render_fills_the_frame_and_leaves_the_session_unchanged() {
    let mut mode = GameMode::new();
    assert_eq!(mode.frame.len(), 0);
    let r = dispatch(&mut mode, &Event::Render(RenderArgs { width: 800, height: 600 }));
    assert_eq!(r, Ok(()));
    assert!(mode.frame.len() > 0);
    assert_eq!(mode.state.edit_mode, EditMode::Insert);
    assert_eq!(mode.state.line_segments.len(), 0);
}

#[test]
fn unclassified_event_is_a_hard_failure() {
    let mut mode = GameMode::new();
    let r = dispatch(&mut mode, &Event::Unclassified);
    assert_eq!(r, Err(CoreError::UnclassifiedEvent));
    assert_eq!(mode.state.edit_mode, EditMode::Insert);
    assert_eq!(mode.state.line_segments.len(), 0);
}
