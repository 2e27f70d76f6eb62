//! Points, line segments, and the drawing commands that a renderer consumes.
//!
//! The core never draws by itself: render handlers produce a sequence of
//! [`DrawCmd`] values, and the embedding program turns each command into
//! calls on its graphics backend.

use vstd::prelude::*;

verus! {

/// A position on the editing canvas, in pixels.
#[derive(Clone, Copy, Debug, PartialEq, Eq, Structural)]
pub struct Point {
    pub x: i64,
    pub y: i64,
}

impl Point {
    pub fn new(x: i64, y: i64) -> (p: Point)
        ensures
            p == (Point { x, y }),
    {
        Point { x, y }
    }
}

/// An immutable pair of endpoints, committed to the document.
#[derive(Clone, Copy, Debug, PartialEq, Eq, Structural)]
pub struct LineSegment {
    pub point1: Point,
    pub point2: Point,
}

impl LineSegment {
    pub fn new(point1: Point, point2: Point) -> (l: LineSegment)
        ensures
            l == (LineSegment { point1, point2 }),
    {
        LineSegment { point1, point2 }
    }

    /// Appends the drawing command for this segment to a frame.
    pub fn draw(&self, frame: &mut Vec<DrawCmd>)
        ensures
            final(frame)@ == old(frame)@.push(segment_cmd(*self)),
    {
        draw_line_segment(&self.point1, &self.point2, frame);
    }
}

/// The fixed palette of the editor.
#[derive(Clone, Copy, Debug, PartialEq, Eq, Structural)]
pub enum Color {
    White,
    Black,
    Green,
    Blue,
}

/// One drawing command, consumed by a renderer outside the core.
#[derive(Clone, Copy, Debug, PartialEq, Eq, Structural)]
pub enum DrawCmd {
    /// Clear the whole surface to a color.
    Clear(Color),
    /// Fill an axis-aligned rectangle.
    Rect { color: Color, x: i64, y: i64, width: i64, height: i64 },
    /// Draw a thin bar from one point to the other.
    Segment { color: Color, point1: Point, point2: Point },
}

/// The drawing command that renders a committed or previewed segment.
pub open spec fn segment_cmd(l: LineSegment) -> DrawCmd {
    DrawCmd::Segment { color: Color::Black, point1: l.point1, point2: l.point2 }
}

/// Appends the drawing command for the segment between two points to a frame.
pub fn draw_line_segment(point1: &Point, point2: &Point, frame: &mut Vec<DrawCmd>)
    ensures
        final(frame)@ == old(frame)@.push(
            segment_cmd(LineSegment { point1: *point1, point2: *point2 }),
        ),
{
    frame.push(DrawCmd::Segment { color: Color::Black, point1: *point1, point2: *point2 });
}

} // verus!
