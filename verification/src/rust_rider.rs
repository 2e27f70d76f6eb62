//! The course-editing mode: a two-state edit mode (Insert/Select) plus a
//! drag-to-create-segment protocol over an ordered document of line segments.
//!
//! Pressing either shift key selects `Select`, releasing it selects `Insert`.
//! Pressing the left mouse button starts a segment at the current mouse
//! position unless one is already being dragged; releasing it commits the
//! dragged segment from its start to the current mouse position and appends
//! it to the document. Rendering produces the drawing commands for a cleared
//! background, a mode-indicator bar at the bottom edge, the preview of the
//! dragged segment if any, and every committed segment in document order.

use vstd::prelude::*;

use crate::error::CoreError;
use crate::event::{
    Button, ButtonArgs, ControllerAxisArgs, Event, IdleArgs, Key, MouseButton, RenderArgs,
    ResizeArgs, TouchArgs, UpdateArgs,
};
use crate::geometry::{segment_cmd, Color, DrawCmd, LineSegment, Point};
use crate::handler::{
    dispatch_spec, run_mode, EventHandler, InputHandler, UpdateHandler, WindowHandler,
};

verus! {

/// The two states of the editor.
#[derive(Clone, Copy, Debug, PartialEq, Eq, Structural)]
pub enum EditMode {
    Insert,
    Select,
}

/// The height of the mode-indicator bar, in pixels.
pub const EDIT_BAR_HEIGHT: u32 = 20;

/// The editing session: the edit mode, the ordered document of committed
/// segments, the start of the segment being dragged (if any), and the last
/// observed mouse position.
pub struct State {
    pub edit_mode: EditMode,
    pub line_segments: Vec<LineSegment>,
    pub active_line_segment: Option<Point>,
    pub mouse_position: Point,
}

/// The ghost model of a [`State`].
#[verifier::ext_equal]
pub ghost struct StateV {
    pub edit_mode: EditMode,
    pub line_segments: Seq<LineSegment>,
    pub active_line_segment: Option<Point>,
    pub mouse_position: Point,
}

impl View for State {
    type V = StateV;

    open spec fn view(&self) -> StateV {
        StateV {
            edit_mode: self.edit_mode,
            line_segments: self.line_segments@,
            active_line_segment: self.active_line_segment,
            mouse_position: self.mouse_position,
        }
    }
}

/// The state a fresh editing session starts in.
pub open spec fn initial_state() -> StateV {
    StateV {
        edit_mode: EditMode::Insert,
        line_segments: Seq::empty(),
        active_line_segment: None,
        mouse_position: Point { x: 0, y: 0 },
    }
}

/// What pressing a button does to the session.
pub open spec fn press_step(s: StateV, button: Button) -> StateV {
    match button {
        Button::Keyboard(Key::LShift) => StateV { edit_mode: EditMode::Select, ..s },
        Button::Keyboard(Key::RShift) => StateV { edit_mode: EditMode::Select, ..s },
        Button::Mouse(MouseButton::Left) => {
            if s.active_line_segment is Some {
                s
            } else {
                StateV { active_line_segment: Some(s.mouse_position), ..s }
            }
        },
        _ => s,
    }
}

/// What releasing a button does to the session.
pub open spec fn release_step(s: StateV, button: Button) -> StateV {
    match button {
        Button::Keyboard(Key::LShift) => StateV { edit_mode: EditMode::Insert, ..s },
        Button::Keyboard(Key::RShift) => StateV { edit_mode: EditMode::Insert, ..s },
        Button::Mouse(MouseButton::Left) => {
            match s.active_line_segment {
                Some(point1) => StateV {
                    line_segments: s.line_segments.push(
                        LineSegment { point1, point2: s.mouse_position },
                    ),
                    active_line_segment: None,
                    ..s
                },
                None => s,
            }
        },
        _ => s,
    }
}

/// What a cursor move does to the session.
pub open spec fn cursor_step(s: StateV, position: Point) -> StateV {
    StateV { mouse_position: position, ..s }
}

/// The color of the mode-indicator bar for each edit mode.
pub open spec fn bar_color(edit_mode: EditMode) -> Color {
    match edit_mode {
        EditMode::Insert => Color::Green,
        EditMode::Select => Color::Blue,
    }
}

/// The top edge of the mode-indicator bar: the bar sits at the bottom of a
/// window of the given height, clamped to the top for very small windows.
pub open spec fn bar_y(height: u32) -> i64 {
    if height >= EDIT_BAR_HEIGHT {
        (height - EDIT_BAR_HEIGHT) as i64
    } else {
        0
    }
}

/// The frame before the committed segments: clear, indicator bar, and the
/// preview of the dragged segment if one is active.
pub open spec fn frame_base(s: StateV, width: u32, height: u32) -> Seq<DrawCmd> {
    let base = seq![
        DrawCmd::Clear(Color::White),
        DrawCmd::Rect {
            color: bar_color(s.edit_mode),
            x: 0,
            y: bar_y(height),
            width: width as i64,
            height: EDIT_BAR_HEIGHT as i64,
        },
    ];
    match s.active_line_segment {
        Some(point1) => base.push(
            segment_cmd(LineSegment { point1, point2: s.mouse_position }),
        ),
        None => base,
    }
}

/// Every drawing command of one rendered frame, in drawing order.
pub open spec fn frame_spec(s: StateV, width: u32, height: u32) -> Seq<DrawCmd> {
    frame_base(s, width, height) + s.line_segments.map_values(|l: LineSegment| segment_cmd(l))
}

impl State {
    /// A fresh session: Insert mode, an empty document, no drag in progress,
    /// and the mouse at the origin.
    pub fn new() -> (s: State)
        ensures
            s@ == initial_state(),
    {
        State {
            edit_mode: EditMode::Insert,
            line_segments: Vec::new(),
            active_line_segment: None,
            mouse_position: Point { x: 0, y: 0 },
        }
    }

    /// The drawing commands that render this session in a window of the given
    /// size.
    pub fn frame(&self, width: u32, height: u32) -> (out: Vec<DrawCmd>)
        ensures
            out@ == frame_spec(self@, width, height),
    {
        let mut out: Vec<DrawCmd> = Vec::new();
        out.push(DrawCmd::Clear(Color::White));
        let bar_color = match self.edit_mode {
            EditMode::Insert => Color::Green,
            EditMode::Select => Color::Blue,
        };
        let y: i64 = if height >= EDIT_BAR_HEIGHT {
            (height - EDIT_BAR_HEIGHT) as i64
        } else {
            0
        };
        out.push(
            DrawCmd::Rect {
                color: bar_color,
                x: 0,
                y,
                width: width as i64,
                height: EDIT_BAR_HEIGHT as i64,
            },
        );
        match &self.active_line_segment {
            Some(point1) => {
                crate::geometry::draw_line_segment(point1, &self.mouse_position, &mut out);
            },
            None => {},
        }
        proof {
            assert(out@ =~= frame_base(self@, width, height));
        }
        let ghost all = self@.line_segments.map_values(|l: LineSegment| segment_cmd(l));
        let mut i: usize = 0;
        while i < self.line_segments.len()
            invariant
                i <= self.line_segments.len(),
                all == self@.line_segments.map_values(|l: LineSegment| segment_cmd(l)),
                out@ == frame_base(self@, width, height) + all.take(i as int),
            decreases self.line_segments.len() - i,
        {
            self.line_segments[i].draw(&mut out);
            proof {
                assert(all.take(i + 1) =~= all.take(i as int).push(all[i as int]));
                assert(out@ =~= frame_base(self@, width, height) + all.take(i + 1));
            }
            i = i + 1;
        }
        proof {
            assert(all.take(self.line_segments@.len() as int) =~= all);
        }
        out
    }
}

/// The editing mode: the session state together with the drawing commands of
/// the last rendered frame, which the embedding renderer consumes.
pub struct GameMode {
    pub state: State,
    pub frame: Vec<DrawCmd>,
}

/// The ghost model of a [`GameMode`].
#[verifier::ext_equal]
pub ghost struct GameModeV {
    pub state: StateV,
    pub frame: Seq<DrawCmd>,
}

impl View for GameMode {
    type V = GameModeV;

    open spec fn view(&self) -> GameModeV {
        GameModeV { state: self.state@, frame: self.frame@ }
    }
}

impl GameMode {
    /// A mode over a fresh session.
    pub fn new() -> (m: GameMode)
        ensures
            m@.state == initial_state(),
            m@.frame == Seq::<DrawCmd>::empty(),
    {
        GameMode::new_with_state(State::new())
    }

    /// A mode that resumes an existing session.
    pub fn new_with_state(state: State) -> (m: GameMode)
        ensures
            m@.state == state@,
            m@.frame == Seq::<DrawCmd>::empty(),
    {
        GameMode { state, frame: Vec::new() }
    }
}

impl InputHandler for GameMode {
    open spec fn on_button_spec(pre: GameModeV, args: ButtonArgs) -> (GameModeV, Result<
        (),
        CoreError,
    >) {
        (pre, Ok(()))
    }

    open spec fn on_controller_axis_spec(pre: GameModeV, args: ControllerAxisArgs) -> (
        GameModeV,
        Result<(), CoreError>,
    ) {
        (pre, Ok(()))
    }

    open spec fn on_mouse_cursor_spec(pre: GameModeV, position: Point) -> (GameModeV, Result<
        (),
        CoreError,
    >) {
        (GameModeV { state: cursor_step(pre.state, position), ..pre }, Ok(()))
    }

    open spec fn on_mouse_relative_spec(pre: GameModeV, relative: Point) -> (GameModeV, Result<
        (),
        CoreError,
    >) {
        (pre, Ok(()))
    }

    open spec fn on_mouse_scroll_spec(pre: GameModeV, scroll: Point) -> (GameModeV, Result<
        (),
        CoreError,
    >) {
        (pre, Ok(()))
    }

    open spec fn on_press_spec(pre: GameModeV, button: Button) -> (GameModeV, Result<(), CoreError>) {
        (GameModeV { state: press_step(pre.state, button), ..pre }, Ok(()))
    }

    open spec fn on_release_spec(pre: GameModeV, button: Button) -> (GameModeV, Result<
        (),
        CoreError,
    >) {
        (GameModeV { state: release_step(pre.state, button), ..pre }, Ok(()))
    }

    open spec fn on_text_spec(pre: GameModeV, text: Seq<char>) -> (GameModeV, Result<(), CoreError>) {
        (pre, Ok(()))
    }

    open spec fn on_touch_spec(pre: GameModeV, args: TouchArgs) -> (GameModeV, Result<(), CoreError>) {
        (pre, Ok(()))
    }

    fn on_button(&mut self, event: &Event, args: &ButtonArgs) -> (r: Result<(), CoreError>) {
        Ok(())
    }

    fn on_controller_axis(&mut self, event: &Event, args: &ControllerAxisArgs) -> (r: Result<
        (),
        CoreError,
    >) {
        Ok(())
    }

    fn on_mouse_cursor(&mut self, event: &Event, position: &Point) -> (r: Result<(), CoreError>) {
        self.state.mouse_position = *position;
        Ok(())
    }

    fn on_mouse_relative(&mut self, event: &Event, relative: &Point) -> (r: Result<(), CoreError>) {
        Ok(())
    }

    fn on_mouse_scroll(&mut self, event: &Event, scroll: &Point) -> (r: Result<(), CoreError>) {
        Ok(())
    }

    fn on_press(&mut self, event: &Event, button: &Button) -> (r: Result<(), CoreError>) {
        match button {
            Button::Keyboard(key) => {
                match key {
                    Key::LShift => {
                        self.state.edit_mode = EditMode::Select;
                    },
                    Key::RShift => {
                        self.state.edit_mode = EditMode::Select;
                    },
                    _ => {},
                }
            },
            Button::Mouse(mouse_button) => {
                match mouse_button {
                    MouseButton::Left => {
                        if self.state.active_line_segment.is_none() {
                            self.state.active_line_segment = Some(self.state.mouse_position);
                        }
                    },
                    _ => {},
                }
            },
            _ => {},
        }
        Ok(())
    }

    fn on_release(&mut self, event: &Event, button: &Button) -> (r: Result<(), CoreError>) {
        match button {
            Button::Keyboard(key) => {
                match key {
                    Key::LShift => {
                        self.state.edit_mode = EditMode::Insert;
                    },
                    Key::RShift => {
                        self.state.edit_mode = EditMode::Insert;
                    },
                    _ => {},
                }
            },
            Button::Mouse(mouse_button) => {
                match mouse_button {
                    MouseButton::Left => {
                        match self.state.active_line_segment {
                            Some(point1) => {
                                self.state.line_segments.push(
                                    LineSegment::new(point1, self.state.mouse_position),
                                );
                                self.state.active_line_segment = None;
                            },
                            None => {},
                        }
                    },
                    _ => {},
                }
            },
            _ => {},
        }
        Ok(())
    }

    fn on_text(&mut self, event: &Event, text: &String) -> (r: Result<(), CoreError>) {
        Ok(())
    }

    fn on_touch(&mut self, event: &Event, args: &TouchArgs) -> (r: Result<(), CoreError>) {
        Ok(())
    }
}

impl UpdateHandler for GameMode {
    open spec fn on_idle_spec(pre: GameModeV, args: IdleArgs) -> (GameModeV, Result<(), CoreError>) {
        (pre, Ok(()))
    }

    open spec fn on_update_spec(pre: GameModeV, args: UpdateArgs) -> (GameModeV, Result<
        (),
        CoreError,
    >) {
        (pre, Ok(()))
    }

    fn on_idle(&mut self, event: &Event, args: &IdleArgs) -> (r: Result<(), CoreError>) {
        Ok(())
    }

    fn on_update(&mut self, event: &Event, args: &UpdateArgs) -> (r: Result<(), CoreError>) {
        Ok(())
    }
}

impl WindowHandler for GameMode {
    open spec fn on_after_render_spec(pre: GameModeV) -> (GameModeV, Result<(), CoreError>) {
        (pre, Ok(()))
    }

    open spec fn on_close_spec(pre: GameModeV) -> (GameModeV, Result<(), CoreError>) {
        (pre, Ok(()))
    }

    open spec fn on_cursor_spec(pre: GameModeV, cursor: bool) -> (GameModeV, Result<(), CoreError>) {
        (pre, Ok(()))
    }

    open spec fn on_focus_spec(pre: GameModeV, focus: bool) -> (GameModeV, Result<(), CoreError>) {
        (pre, Ok(()))
    }

    open spec fn on_render_spec(pre: GameModeV, args: RenderArgs) -> (GameModeV, Result<
        (),
        CoreError,
    >) {
        (
            GameModeV { frame: frame_spec(pre.state, args.width, args.height), ..pre },
            Ok(()),
        )
    }

    open spec fn on_resize_spec(pre: GameModeV, args: ResizeArgs) -> (GameModeV, Result<
        (),
        CoreError,
    >) {
        (pre, Ok(()))
    }

    fn on_after_render(&mut self, event: &Event) -> (r: Result<(), CoreError>) {
        Ok(())
    }

    fn on_close(&mut self, event: &Event) -> (r: Result<(), CoreError>) {
        Ok(())
    }

    fn on_cursor(&mut self, event: &Event, cursor: bool) -> (r: Result<(), CoreError>) {
        Ok(())
    }

    fn on_focus(&mut self, event: &Event, focus: bool) -> (r: Result<(), CoreError>) {
        Ok(())
    }

    fn on_render(&mut self, event: &Event, args: &RenderArgs) -> (r: Result<(), CoreError>) {
        self.frame = self.state.frame(args.width, args.height);
        Ok(())
    }

    fn on_resize(&mut self, event: &Event, args: &ResizeArgs) -> (r: Result<(), CoreError>) {
        Ok(())
    }
}

impl EventHandler for GameMode {

}

/// Pressing the left mouse button while a drag is already active is a no-op:
/// the whole session, the active segment's start point included, is unchanged.
pub proof fn lemma_press_while_dragging_is_noop(s: StateV)
    requires
        s.active_line_segment is Some,
    ensures
        press_step(s, Button::Mouse(MouseButton::Left)) == s,
{
}

/// Releasing the left mouse button with no active segment leaves the session,
/// the document included, unchanged.
pub proof fn lemma_release_without_drag_is_noop(s: StateV)
    requires
        s.active_line_segment is None,
    ensures
        release_step(s, Button::Mouse(MouseButton::Left)) == s,
{
}

/// Mode toggling is idempotent: pressing shift always lands in `Select`, and
/// does nothing when the session is already in `Select`; releasing shift
/// always lands in `Insert`, and does nothing when already in `Insert`.
pub proof fn lemma_mode_toggle_idempotent(s: StateV, key: Key)
    requires
        key == Key::LShift || key == Key::RShift,
    ensures
        press_step(s, Button::Keyboard(key)).edit_mode == EditMode::Select,
        s.edit_mode == EditMode::Select ==> press_step(s, Button::Keyboard(key)) == s,
        release_step(s, Button::Keyboard(key)).edit_mode == EditMode::Insert,
        s.edit_mode == EditMode::Insert ==> release_step(s, Button::Keyboard(key)) == s,
{
}

/// The four events of one completed drag: move to the press position, press
/// the left mouse button, move to the release position, release the button.
pub open spec fn drag_events(press_at: Point, release_at: Point) -> Seq<Event> {
    seq![
        Event::MouseCursor(press_at),
        Event::Press(Button::Mouse(MouseButton::Left)),
        Event::MouseCursor(release_at),
        Event::Release(Button::Mouse(MouseButton::Left)),
    ]
}

/// The events of a whole sequence of completed drags, one pair of press and
/// release positions per drag, in temporal order.
pub open spec fn drags(pairs: Seq<(Point, Point)>) -> Seq<Event>
    decreases pairs.len(),
{
    if pairs.len() == 0 {
        Seq::empty()
    } else {
        drag_events(pairs[0].0, pairs[0].1) + drags(pairs.drop_first())
    }
}

/// The segments that a sequence of drags commits, in the same order.
pub open spec fn drag_segments(pairs: Seq<(Point, Point)>) -> Seq<LineSegment> {
    pairs.map_values(|pair: (Point, Point)| LineSegment { point1: pair.0, point2: pair.1 })
}

/// One completed drag appends exactly one segment, from the press position to
/// the release position, leaves no drag active, and touches nothing else but
/// the mouse position.
pub proof fn lemma_drag_appends_segment(m: GameModeV, press_at: Point, release_at: Point)
    requires
        m.state.active_line_segment is None,
    ensures
        run_mode::<GameMode>(m, drag_events(press_at, release_at)) == (GameModeV {
            state: StateV {
                edit_mode: m.state.edit_mode,
                line_segments: m.state.line_segments.push(
                    LineSegment { point1: press_at, point2: release_at },
                ),
                active_line_segment: None,
                mouse_position: release_at,
            },
            frame: m.frame,
        }),
{
    let evs = drag_events(press_at, release_at);
    let m1 = dispatch_spec::<GameMode>(m, evs[0]).0;
    let rest1 = evs.drop_first();
    assert(rest1 =~= seq![evs[1], evs[2], evs[3]]);
    assert(run_mode::<GameMode>(m, evs) == run_mode::<GameMode>(m1, rest1));
    let m2 = dispatch_spec::<GameMode>(m1, rest1[0]).0;
    let rest2 = rest1.drop_first();
    assert(rest2 =~= seq![evs[2], evs[3]]);
    assert(run_mode::<GameMode>(m1, rest1) == run_mode::<GameMode>(m2, rest2));
    let m3 = dispatch_spec::<GameMode>(m2, rest2[0]).0;
    let rest3 = rest2.drop_first();
    assert(rest3 =~= seq![evs[3]]);
    assert(run_mode::<GameMode>(m2, rest2) == run_mode::<GameMode>(m3, rest3));
    let m4 = dispatch_spec::<GameMode>(m3, rest3[0]).0;
    let rest4 = rest3.drop_first();
    assert(rest4 =~= Seq::<Event>::empty());
    assert(run_mode::<GameMode>(m3, rest3) == run_mode::<GameMode>(m4, rest4));
    assert(run_mode::<GameMode>(m4, rest4) == m4);
    assert(m4.state.line_segments =~= m.state.line_segments.push(
        LineSegment { point1: press_at, point2: release_at },
    ));
}

/// Committing is order-preserving: running the events of N completed drags
/// extends the document by exactly N segments, the i-th of which joins the
/// i-th press position to the i-th release position, in temporal order.
pub proof fn lemma_commit_order_preserving(m: GameModeV, pairs: Seq<(Point, Point)>)
    requires
        m.state.active_line_segment is None,
    ensures
        run_mode::<GameMode>(m, drags(pairs)).state.line_segments == m.state.line_segments
            + drag_segments(pairs),
        run_mode::<GameMode>(m, drags(pairs)).state.line_segments.len()
            == m.state.line_segments.len() + pairs.len(),
        forall|i: int|
            0 <= i < pairs.len() ==> run_mode::<GameMode>(m, drags(pairs)).state.line_segments[
                m.state.line_segments.len() + i
            ] == (LineSegment { point1: pairs[i].0, point2: pairs[i].1 }),
        run_mode::<GameMode>(m, drags(pairs)).state.active_line_segment is None,
    decreases pairs.len(),
{
    if pairs.len() == 0 {
        assert(drags(pairs) =~= Seq::<Event>::empty());
        assert(m.state.line_segments + drag_segments(pairs) =~= m.state.line_segments);
    } else {
        let first = drag_events(pairs[0].0, pairs[0].1);
        let rest = drags(pairs.drop_first());
        crate::handler::lemma_run_mode_append::<GameMode>(m, first, rest);
        lemma_drag_appends_segment(m, pairs[0].0, pairs[0].1);
        let m1 = run_mode::<GameMode>(m, first);
        lemma_commit_order_preserving(m1, pairs.drop_first());
        assert(m1.state.line_segments + drag_segments(pairs.drop_first())
            =~= m.state.line_segments + drag_segments(pairs));
    }
}

} // verus!
