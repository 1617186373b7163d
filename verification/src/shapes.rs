//! The shapes of one frame, in whole device pixels.

use vstd::prelude::*;
use crate::color::Rgb;
use crate::geometry::{Area, Pos};
use crate::raster::Stroke;

verus! {

/// A rectangle to fill and outline, with corners of one radius.
#[derive(Clone, Copy, Debug, PartialEq, Eq, Structural)]
pub struct RectShape {
    pub rect: Area,
    /// Radius of the corners; zero for square corners.
    pub rounding: u32,
    pub fill: Rgb,
    pub stroke: Stroke,
}

/// One run of text, laid out already.
#[derive(Clone, Debug, PartialEq, Eq)]
pub struct TextShape {
    /// Top left corner of the run.
    pub pos: Pos,
    /// Height of the laid-out run in pixels; the font size it is printed at.
    pub height: u32,
    pub text: String,
    /// Where set, the run is printed in this colour and not in the pen's.
    pub override_text_color: Option<Rgb>,
}

/// A line through a list of points.
#[derive(Clone, Debug, PartialEq, Eq)]
pub struct PathShape {
    pub points: Vec<Pos>,
    pub fill: Rgb,
    pub stroke: Stroke,
}

/// The rectangle outside of which a shape is not to show: from `min`
/// inclusive to `max` exclusive.
#[derive(Clone, Copy, Debug, PartialEq, Eq, Structural)]
pub struct ClipRect {
    pub min: Pos,
    pub max: Pos,
}

/// One drawable thing. Only rectangles, text and paths are rendered; the
/// other kinds are accepted and leave the panel as it is.
#[derive(Clone, Debug, PartialEq, Eq)]
pub enum Shape {
    Noop,
    Rect(RectShape),
    Text(TextShape),
    Path(PathShape),
    Mesh,
    Line,
    Circle,
    Bezier,
    Callback,
}

/// A shape and the rectangle it is clipped to.
#[derive(Clone, Debug, PartialEq, Eq)]
pub struct ClippedShape {
    pub clip_rect: ClipRect,
    pub shape: Shape,
}

/// A path that collapses to one place: it has no two vertices that differ.
/// A path without vertices collapses too.
pub open spec fn is_collapsed(points: Seq<Pos>) -> bool {
    forall|i: int| 0 <= i < points.len() ==> #[trigger] points[i] == points[0]
}

impl PathShape {
    /// Whether every vertex of the path lies at one place.
    pub fn collapses(&self) -> (collapsed: bool)
        ensures
            collapsed == is_collapsed(self.points@),
    {
        let mut i: usize = 1;
        while i < self.points.len()
            invariant
                1 <= i,
                forall|j: int| 0 <= j < i && j < self.points@.len() ==> #[trigger] self.points@[j]
                    == self.points@[0],
            decreases self.points.len() - i,
        {
            if self.points[i].x != self.points[0].x || self.points[i].y != self.points[0].y {
                return false;
            }
            i += 1;
        }
        true
    }
}

impl ClipRect {
    /// A clip rectangle that shows nothing: its extent is zero or inverted
    /// along an axis.
    pub open spec fn shows_nothing(self) -> bool {
        self.max.x <= self.min.x || self.max.y <= self.min.y
    }

    /// A clip rectangle turned inside out: `min` beyond `max` along an axis.
    pub open spec fn is_inverted(self) -> bool {
        self.max.x < self.min.x || self.max.y < self.min.y
    }

    pub fn new(min: Pos, max: Pos) -> (clip: ClipRect)
        ensures
            clip == (ClipRect { min, max }),
    {
        ClipRect { min, max }
    }

    /// Whether nothing can show through this clip rectangle.
    pub fn is_negative(&self) -> (negative: bool)
        ensures
            negative == self.shows_nothing(),
            self.is_inverted() ==> negative,
    {
        self.max.x <= self.min.x || self.max.y <= self.min.y
    }
}

} // verus!
