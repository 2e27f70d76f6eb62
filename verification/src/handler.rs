//! The event dispatcher and the handler interfaces a mode implements.
//!
//! A mode is described by its ghost model (its [`View`]): each callback
//! carries a specification function from the model before the call to the
//! model after it together with the callback's result. [`dispatch`] examines
//! one event, determines its single category, and invokes exactly the one
//! matching callback; its contract equates the mode's new model and the
//! returned result with [`dispatch_spec`], which selects that one callback's
//! specification.

use vstd::prelude::*;

use crate::error::CoreError;
use crate::event::{
    Button, ButtonArgs, ControllerAxisArgs, Event, IdleArgs, RenderArgs, ResizeArgs, TouchArgs,
    UpdateArgs,
};
use crate::geometry::Point;

verus! {

/// The input-event callbacks of a mode, one per input category.
pub trait InputHandler: View + Sized {
    spec fn on_button_spec(pre: Self::V, args: ButtonArgs) -> (Self::V, Result<(), CoreError>);

    spec fn on_controller_axis_spec(pre: Self::V, args: ControllerAxisArgs) -> (
        Self::V,
        Result<(), CoreError>,
    );

    spec fn on_mouse_cursor_spec(pre: Self::V, position: Point) -> (Self::V, Result<(), CoreError>);

    spec fn on_mouse_relative_spec(pre: Self::V, relative: Point) -> (Self::V, Result<(), CoreError>);

    spec fn on_mouse_scroll_spec(pre: Self::V, scroll: Point) -> (Self::V, Result<(), CoreError>);

    spec fn on_press_spec(pre: Self::V, button: Button) -> (Self::V, Result<(), CoreError>);

    spec fn on_release_spec(pre: Self::V, button: Button) -> (Self::V, Result<(), CoreError>);

    spec fn on_text_spec(pre: Self::V, text: Seq<char>) -> (Self::V, Result<(), CoreError>);

    spec fn on_touch_spec(pre: Self::V, args: TouchArgs) -> (Self::V, Result<(), CoreError>);

    fn on_button(&mut self, event: &Event, args: &ButtonArgs) -> (r: Result<(), CoreError>)
        ensures
            (final(self)@, r) == Self::on_button_spec(old(self)@, *args),
    ;

    fn on_controller_axis(&mut self, event: &Event, args: &ControllerAxisArgs) -> (r: Result<
        (),
        CoreError,
    >)
        ensures
            (final(self)@, r) == Self::on_controller_axis_spec(old(self)@, *args),
    ;

    fn on_mouse_cursor(&mut self, event: &Event, position: &Point) -> (r: Result<(), CoreError>)
        ensures
            (final(self)@, r) == Self::on_mouse_cursor_spec(old(self)@, *position),
    ;

    fn on_mouse_relative(&mut self, event: &Event, relative: &Point) -> (r: Result<(), CoreError>)
        ensures
            (final(self)@, r) == Self::on_mouse_relative_spec(old(self)@, *relative),
    ;

    fn on_mouse_scroll(&mut self, event: &Event, scroll: &Point) -> (r: Result<(), CoreError>)
        ensures
            (final(self)@, r) == Self::on_mouse_scroll_spec(old(self)@, *scroll),
    ;

    fn on_press(&mut self, event: &Event, button: &Button) -> (r: Result<(), CoreError>)
        ensures
            (final(self)@, r) == Self::on_press_spec(old(self)@, *button),
    ;

    fn on_release(&mut self, event: &Event, button: &Button) -> (r: Result<(), CoreError>)
        ensures
            (final(self)@, r) == Self::on_release_spec(old(self)@, *button),
    ;

    fn on_text(&mut self, event: &Event, text: &String) -> (r: Result<(), CoreError>)
        ensures
            (final(self)@, r) == Self::on_text_spec(old(self)@, text@),
    ;

    fn on_touch(&mut self, event: &Event, args: &TouchArgs) -> (r: Result<(), CoreError>)
        ensures
            (final(self)@, r) == Self::on_touch_spec(old(self)@, *args),
    ;
}

/// The update-event callbacks of a mode.
pub trait UpdateHandler: View + Sized {
    spec fn on_idle_spec(pre: Self::V, args: IdleArgs) -> (Self::V, Result<(), CoreError>);

    spec fn on_update_spec(pre: Self::V, args: UpdateArgs) -> (Self::V, Result<(), CoreError>);

    fn on_idle(&mut self, event: &Event, args: &IdleArgs) -> (r: Result<(), CoreError>)
        ensures
            (final(self)@, r) == Self::on_idle_spec(old(self)@, *args),
    ;

    fn on_update(&mut self, event: &Event, args: &UpdateArgs) -> (r: Result<(), CoreError>)
        ensures
            (final(self)@, r) == Self::on_update_spec(old(self)@, *args),
    ;
}

/// The window-event callbacks of a mode.
pub trait WindowHandler: View + Sized {
    spec fn on_after_render_spec(pre: Self::V) -> (Self::V, Result<(), CoreError>);

    spec fn on_close_spec(pre: Self::V) -> (Self::V, Result<(), CoreError>);

    spec fn on_cursor_spec(pre: Self::V, cursor: bool) -> (Self::V, Result<(), CoreError>);

    spec fn on_focus_spec(pre: Self::V, focus: bool) -> (Self::V, Result<(), CoreError>);

    spec fn on_render_spec(pre: Self::V, args: RenderArgs) -> (Self::V, Result<(), CoreError>);

    spec fn on_resize_spec(pre: Self::V, args: ResizeArgs) -> (Self::V, Result<(), CoreError>);

    fn on_after_render(&mut self, event: &Event) -> (r: Result<(), CoreError>)
        ensures
            (final(self)@, r) == Self::on_after_render_spec(old(self)@),
    ;

    fn on_close(&mut self, event: &Event) -> (r: Result<(), CoreError>)
        ensures
            (final(self)@, r) == Self::on_close_spec(old(self)@),
    ;

    fn on_cursor(&mut self, event: &Event, cursor: bool) -> (r: Result<(), CoreError>)
        ensures
            (final(self)@, r) == Self::on_cursor_spec(old(self)@, cursor),
    ;

    fn on_focus(&mut self, event: &Event, focus: bool) -> (r: Result<(), CoreError>)
        ensures
            (final(self)@, r) == Self::on_focus_spec(old(self)@, focus),
    ;

    fn on_render(&mut self, event: &Event, args: &RenderArgs) -> (r: Result<(), CoreError>)
        ensures
            (final(self)@, r) == Self::on_render_spec(old(self)@, *args),
    ;

    fn on_resize(&mut self, event: &Event, args: &ResizeArgs) -> (r: Result<(), CoreError>)
        ensures
            (final(self)@, r) == Self::on_resize_spec(old(self)@, *args),
    ;
}

/// A complete mode: it answers every callback the dispatcher can invoke.
pub trait EventHandler: InputHandler + UpdateHandler + WindowHandler {

}

/// What [`dispatch`] does to a mode's model: the one callback specification
/// that matches the event's category, or an unchanged model and
/// [`CoreError::UnclassifiedEvent`] where no category matches.
pub open spec fn dispatch_spec<M: EventHandler>(pre: M::V, event: Event) -> (
    M::V,
    Result<(), CoreError>,
) {
    match event {
        Event::Button(args) => M::on_button_spec(pre, args),
        Event::ControllerAxis(args) => M::on_controller_axis_spec(pre, args),
        Event::MouseCursor(position) => M::on_mouse_cursor_spec(pre, position),
        Event::MouseRelative(relative) => M::on_mouse_relative_spec(pre, relative),
        Event::MouseScroll(scroll) => M::on_mouse_scroll_spec(pre, scroll),
        Event::Press(button) => M::on_press_spec(pre, button),
        Event::Release(button) => M::on_release_spec(pre, button),
        Event::Text(text) => M::on_text_spec(pre, text@),
        Event::Touch(args) => M::on_touch_spec(pre, args),
        Event::Idle(args) => M::on_idle_spec(pre, args),
        Event::Update(args) => M::on_update_spec(pre, args),
        Event::AfterRender => M::on_after_render_spec(pre),
        Event::Close => M::on_close_spec(pre),
        Event::Cursor(cursor) => M::on_cursor_spec(pre, cursor),
        Event::Focus(focus) => M::on_focus_spec(pre, focus),
        Event::Render(args) => M::on_render_spec(pre, args),
        Event::Resize(args) => M::on_resize_spec(pre, args),
        Event::Unclassified => (pre, Err(CoreError::UnclassifiedEvent)),
    }
}

/// Classifies one event and invokes the one matching callback, returning the
/// callback's result unchanged; an event that matches no category leaves the
/// mode unchanged and reports [`CoreError::UnclassifiedEvent`].
pub fn dispatch<M: EventHandler>(mode: &mut M, event: &Event) -> (r: Result<(), CoreError>)
    ensures
        (final(mode)@, r) == dispatch_spec::<M>(old(mode)@, *event),
{
    match event {
        Event::Button(args) => mode.on_button(event, args),
        Event::ControllerAxis(args) => mode.on_controller_axis(event, args),
        Event::MouseCursor(position) => mode.on_mouse_cursor(event, position),
        Event::MouseRelative(relative) => mode.on_mouse_relative(event, relative),
        Event::MouseScroll(scroll) => mode.on_mouse_scroll(event, scroll),
        Event::Press(button) => mode.on_press(event, button),
        Event::Release(button) => mode.on_release(event, button),
        Event::Text(text) => mode.on_text(event, text),
        Event::Touch(args) => mode.on_touch(event, args),
        Event::Idle(args) => mode.on_idle(event, args),
        Event::Update(args) => mode.on_update(event, args),
        Event::AfterRender => mode.on_after_render(event),
        Event::Close => mode.on_close(event),
        Event::Cursor(cursor) => mode.on_cursor(event, *cursor),
        Event::Focus(focus) => mode.on_focus(event, *focus),
        Event::Render(args) => mode.on_render(event, args),
        Event::Resize(args) => mode.on_resize(event, args),
        Event::Unclassified => Err(CoreError::UnclassifiedEvent),
    }
}

/// The mode's model after a whole sequence of events has been dispatched to
/// it, each callback's result ignored.
pub open spec fn run_mode<M: EventHandler>(pre: M::V, events: Seq<Event>) -> M::V
    decreases events.len(),
{
    if events.len() == 0 {
        pre
    } else {
        run_mode::<M>(dispatch_spec::<M>(pre, events[0]).0, events.drop_first())
    }
}

/// Running a concatenation of event sequences is running one after the other.
pub proof fn lemma_run_mode_append<M: EventHandler>(pre: M::V, a: Seq<Event>, b: Seq<Event>)
    ensures
        run_mode::<M>(pre, a + b) == run_mode::<M>(run_mode::<M>(pre, a), b),
    decreases a.len(),
{
    if a.len() == 0 {
        assert(a + b =~= b);
    } else {
        assert((a + b).drop_first() =~= a.drop_first() + b);
        lemma_run_mode_append::<M>(dispatch_spec::<M>(pre, a[0]).0, a.drop_first(), b);
    }
}

/// For every event category there is exactly one callback, and dispatching an
/// event of that category invokes that callback and no other: the dispatched
/// model and result are the matching callback's specification, whatever the
/// other callbacks would do.
pub proof fn lemma_dispatch_exactly_one<M: EventHandler>(pre: M::V, event: Event)
    ensures
        event matches Event::Button(args) ==> dispatch_spec::<M>(pre, event)
            == M::on_button_spec(pre, args),
        event matches Event::ControllerAxis(args) ==> dispatch_spec::<M>(pre, event)
            == M::on_controller_axis_spec(pre, args),
        event matches Event::MouseCursor(position) ==> dispatch_spec::<M>(pre, event)
            == M::on_mouse_cursor_spec(pre, position),
        event matches Event::MouseRelative(relative) ==> dispatch_spec::<M>(pre, event)
            == M::on_mouse_relative_spec(pre, relative),
        event matches Event::MouseScroll(scroll) ==> dispatch_spec::<M>(pre, event)
            == M::on_mouse_scroll_spec(pre, scroll),
        event matches Event::Press(button) ==> dispatch_spec::<M>(pre, event)
            == M::on_press_spec(pre, button),
        event matches Event::Release(button) ==> dispatch_spec::<M>(pre, event)
            == M::on_release_spec(pre, button),
        event matches Event::Text(text) ==> dispatch_spec::<M>(pre, event)
            == M::on_text_spec(pre, text@),
        event matches Event::Touch(args) ==> dispatch_spec::<M>(pre, event)
            == M::on_touch_spec(pre, args),
        event matches Event::Idle(args) ==> dispatch_spec::<M>(pre, event)
            == M::on_idle_spec(pre, args),
        event matches Event::Update(args) ==> dispatch_spec::<M>(pre, event)
            == M::on_update_spec(pre, args),
        event is AfterRender ==> dispatch_spec::<M>(pre, event) == M::on_after_render_spec(pre),
        event is Close ==> dispatch_spec::<M>(pre, event) == M::on_close_spec(pre),
        event matches Event::Cursor(cursor) ==> dispatch_spec::<M>(pre, event)
            == M::on_cursor_spec(pre, cursor),
        event matches Event::Focus(focus) ==> dispatch_spec::<M>(pre, event)
            == M::on_focus_spec(pre, focus),
        event matches Event::Render(args) ==> dispatch_spec::<M>(pre, event)
            == M::on_render_spec(pre, args),
        event matches Event::Resize(args) ==> dispatch_spec::<M>(pre, event)
            == M::on_resize_spec(pre, args),
        event is Unclassified ==> dispatch_spec::<M>(pre, event) == (
            pre,
            Err::<(), CoreError>(CoreError::UnclassifiedEvent),
        ),
{
}

} // verus!
