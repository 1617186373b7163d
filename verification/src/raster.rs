//! The rasterizer: `embedded_graphics` turns a styled primitive into calls on
//! a draw target. Here those calls are recorded, so that the backend can
//! decide what each of them means for the panel.
//!
//! What the rasterizer does is believed, not proved: the functions marked
//! `external_body` state what is trusted of it. What is proved here is that
//! the rasterizer is only ever handed shapes within the range on which its
//! 32-bit arithmetic is safe.

use vstd::prelude::*;
use embedded_graphics::draw_target::DrawTarget;
use embedded_graphics::geometry::{Dimensions, OriginDimensions, Point, Size};
use embedded_graphics::pixelcolor::{Rgb888, RgbColor};
use embedded_graphics::primitives::{
    Polyline, Primitive, PrimitiveStyleBuilder, Rectangle, RoundedRectangle,
};
use embedded_graphics::Drawable;
use crate::color::Rgb;
use crate::geometry::{Area, Pos};

verus! {

/// `embedded_graphics::pixelcolor::Rgb888`, the colour the rasterizer draws
/// in. Nothing is claimed of it: it only passes through the recorder.
#[verifier::external_type_specification]
#[verifier::external_body]
pub struct ExRgb888(Rgb888);

/// `embedded_graphics::geometry::Size`, in which the recorder tells its
/// extent. Nothing is claimed of it.
#[verifier::external_type_specification]
#[verifier::external_body]
pub struct ExSize(Size);

/// `embedded_graphics::primitives::Rectangle`, in which the rasterizer asks
/// for a fill. Nothing is claimed of it.
#[verifier::external_type_specification]
#[verifier::external_body]
pub struct ExRectangle(Rectangle);

/// An outline: its width in pixels and its colour. A width of zero draws nothing.
#[derive(Clone, Copy, Debug, PartialEq, Eq, Structural)]
pub struct Stroke {
    pub width: u32,
    pub color: Rgb,
}

/// One pixel and the colour it is to take.
#[derive(Clone, Copy, Debug, PartialEq, Eq, Structural)]
pub struct Pixel {
    pub x: i32,
    pub y: i32,
    pub color: Rgb,
}

/// One request of the rasterizer to its draw target.
#[derive(Clone, Copy, Debug, PartialEq, Eq, Structural)]
pub enum TargetCall {
    /// Set one pixel.
    Dot { pixel: Pixel },
    /// Fill a rectangle with one colour.
    Fill { area: Area, color: Rgb },
}

/// No coordinate, length or corner radius handed to the rasterizer exceeds this.
///
/// The rasterizer computes in `i32` and `u32` without checking. Of a
/// rounded rectangle it squares twice the distance of a pixel from the
/// centre of a corner, which stays under twice a side plus the outline; of
/// a path it multiplies a coordinate by the components of two neighbouring
/// segments. With this limit and the two below, both stay under 2^30.
pub const COORD_LIMIT: i32 = 8192;

/// No outline handed to the rasterizer is wider than this.
///
/// The rasterizer multiplies the square of twice the width by the squared
/// length of a segment: at most 2^10 times 2^15 with the limit below.
pub const STROKE_LIMIT: u32 = 16;

/// Where a path has a joint, no segment handed to the rasterizer is longer
/// than this along either axis.
///
/// Where two segments join, the rasterizer squares the cross product of
/// their directions, which is at most twice the square of this limit plus
/// one: the square stays under 2^31 up to a limit of 151.
pub const SEGMENT_LIMIT: i32 = 128;

/// A path of one segment has no joint. What bounds it is its length along
/// either axis times three outline widths and two.
///
/// To lay the outline beside the line the rasterizer squares a running sum.
/// The sum starts under twice the length, grows by at most twice the length
/// at a time, and stops growing once it passes twice the width times the
/// length of the line, which is under three widths times the length along
/// the longer axis. With this limit the square stays under 2^31.
pub const LINE_REACH: u32 = 46_000;

/// A coordinate the rasterizer can work with.
pub open spec fn coord_in_range(v: int) -> bool {
    -COORD_LIMIT <= v <= COORD_LIMIT
}

/// A rectangle the rasterizer can work with: its 32-bit arithmetic stays
/// far from overflow on these.
pub open spec fn rect_in_range(area: Area, radius: u32, stroke: Stroke) -> bool {
    &&& coord_in_range(area.left as int)
    &&& coord_in_range(area.top as int)
    &&& area.width <= COORD_LIMIT
    &&& area.height <= COORD_LIMIT
    &&& radius <= COORD_LIMIT
    &&& stroke.width <= STROKE_LIMIT
}

/// Two neighbouring vertices close enough for the rasterizer's join arithmetic.
pub open spec fn segment_in_range(a: Pos, b: Pos) -> bool {
    &&& -SEGMENT_LIMIT <= b.x - a.x <= SEGMENT_LIMIT
    &&& -SEGMENT_LIMIT <= b.y - a.y <= SEGMENT_LIMIT
}

/// The distance between two coordinates.
pub open spec fn distance(a: int, b: int) -> int {
    if a <= b {
        b - a
    } else {
        a - b
    }
}

/// The two ends of a single line close enough for an outline of the given width.
pub open spec fn line_in_range(a: Pos, b: Pos, width: u32) -> bool {
    &&& (3 * width + 2) * distance(a.x as int, b.x as int) <= LINE_REACH
    &&& (3 * width + 2) * distance(a.y as int, b.y as int) <= LINE_REACH
}

/// A path the rasterizer can work with: every vertex within the coordinate
/// limit, the outline within its own, and the segments short enough, by the
/// measure of a single line where the path is one and by that of a joint
/// where it has any.
pub open spec fn path_in_range(points: Seq<Pos>, stroke: Stroke) -> bool {
    &&& stroke.width <= STROKE_LIMIT
    &&& forall|i: int|
        0 <= i < points.len() ==> coord_in_range((#[trigger] points[i]).x as int)
            && coord_in_range(points[i].y as int)
    &&& points.len() == 2 ==> line_in_range(points[0], points[1], stroke.width)
    &&& points.len() > 2 ==> forall|i: int|
        0 < i < points.len() ==> segment_in_range(points[i - 1], #[trigger] points[i])
}

/// The calls that drawing a filled and outlined rounded rectangle makes on a
/// draw target of the given size.
pub uninterp spec fn rounded_rect_calls(
    screen_width: u16,
    screen_height: u16,
    area: Area,
    radius: u32,
    stroke: Stroke,
    fill: Rgb,
) -> Seq<TargetCall>;

/// The calls that drawing a styled polyline makes on a draw target of the given size.
pub uninterp spec fn polyline_calls(
    screen_width: u16,
    screen_height: u16,
    points: Seq<Pos>,
    stroke: Stroke,
    fill: Rgb,
) -> Seq<TargetCall>;

/// The bounding box of a styled polyline.
pub uninterp spec fn polyline_bounds(points: Seq<Pos>, stroke: Stroke, fill: Rgb) -> Area;

/// A draw target that keeps the calls made on it and draws nothing.
struct Recorder {
    width: u16,
    height: u16,
    calls: Vec<TargetCall>,
}

impl OriginDimensions for Recorder {
    /// `Size::new`: the recorder reports the size of the screen it stands for.
    #[verifier::external_body]
    fn size(&self) -> Size {
        Size::new(self.width as u32, self.height as u32)
    }
}

impl DrawTarget for Recorder {
    type Color = Rgb888;

    type Error = core::convert::Infallible;

    /// Called by the rasterizer with single pixels: each is kept, in order.
    #[verifier::external_body]
    fn draw_iter<I>(&mut self, pixels: I) -> Result<(), Self::Error> where
        I: IntoIterator<Item = embedded_graphics::Pixel<Self::Color>>,
     {
        for embedded_graphics::Pixel(at, c) in pixels {
            let color = Rgb { r: c.r(), g: c.g(), b: c.b() };
            self.calls.push(TargetCall::Dot { pixel: Pixel { x: at.x, y: at.y, color } });
        }
        Ok(())
    }

    /// Called by the rasterizer with a rectangle of one colour: it is kept.
    #[verifier::external_body]
    fn fill_solid(&mut self, area: &Rectangle, color: Self::Color) -> Result<(), Self::Error> {
        let Rectangle { top_left, size } = *area;
        let area = Area { left: top_left.x, top: top_left.y, width: size.width, height: size.height };
        let color = Rgb { r: color.r(), g: color.g(), b: color.b() };
        self.calls.push(TargetCall::Fill { area, color });
        Ok(())
    }
}

/// `Styled<RoundedRectangle, PrimitiveStyle<Rgb888>>::draw` on a recorder.
///
/// Believed: on a rectangle within the rasterizer's range the call returns,
/// and what it asks of its target depends on nothing but the arguments.
#[verifier::external_body]
pub(crate) fn rasterize_rounded_rect(
    screen_width: u16,
    screen_height: u16,
    area: Area,
    radius: u32,
    stroke: Stroke,
    fill: Rgb,
) -> (calls: Vec<TargetCall>)
    requires
        rect_in_range(area, radius, stroke),
    ensures
        calls@ == rounded_rect_calls(screen_width, screen_height, area, radius, stroke, fill),
{
    let mut target = Recorder { width: screen_width, height: screen_height, calls: Vec::new() };
    let style = PrimitiveStyleBuilder::new()
        .stroke_width(stroke.width)
        .stroke_color(Rgb888::new(stroke.color.r, stroke.color.g, stroke.color.b))
        .fill_color(Rgb888::new(fill.r, fill.g, fill.b))
        .build();
    let bounds = Rectangle::new(Point::new(area.left, area.top), Size::new(area.width, area.height));
    let shape = RoundedRectangle::with_equal_corners(bounds, Size::new(radius, radius));
    let _ = shape.into_styled(style).draw(&mut target);
    target.calls
}

/// `Styled<Polyline, PrimitiveStyle<Rgb888>>::draw` on a recorder.
///
/// Believed: on a path within the rasterizer's range the call returns, and
/// what it asks of its target depends on nothing but the arguments; a path
/// of fewer than two vertices, or an outline of no width, asks nothing.
#[verifier::external_body]
pub(crate) fn rasterize_polyline(
    screen_width: u16,
    screen_height: u16,
    points: &Vec<Pos>,
    stroke: Stroke,
    fill: Rgb,
) -> (calls: Vec<TargetCall>)
    requires
        path_in_range(points@, stroke),
    ensures
        calls@ == polyline_calls(screen_width, screen_height, points@, stroke, fill),
        (points@.len() < 2 || stroke.width == 0) ==> calls@.len() == 0,
{
    let mut target = Recorder { width: screen_width, height: screen_height, calls: Vec::new() };
    let style = PrimitiveStyleBuilder::new()
        .stroke_width(stroke.width)
        .stroke_color(Rgb888::new(stroke.color.r, stroke.color.g, stroke.color.b))
        .fill_color(Rgb888::new(fill.r, fill.g, fill.b))
        .build();
    let vertices: Vec<Point> = points.iter().map(|p| Point::new(p.x, p.y)).collect();
    let _ = Polyline::new(&vertices).into_styled(style).draw(&mut target);
    target.calls
}

/// `Styled<Polyline, PrimitiveStyle<Rgb888>>::bounding_box`.
///
/// Believed: on a path within the rasterizer's range the call returns and
/// its result depends on nothing but the arguments; the box is empty exactly
/// where the path has fewer than two vertices or the outline has no width.
#[verifier::external_body]
pub(crate) fn styled_polyline_bounds(points: &Vec<Pos>, stroke: Stroke, fill: Rgb) -> (bounds: Area)
    requires
        path_in_range(points@, stroke),
    ensures
        bounds == polyline_bounds(points@, stroke, fill),
        (bounds.width == 0 || bounds.height == 0) <==> (points@.len() < 2 || stroke.width == 0),
{
    let style = PrimitiveStyleBuilder::new()
        .stroke_width(stroke.width)
        .stroke_color(Rgb888::new(stroke.color.r, stroke.color.g, stroke.color.b))
        .fill_color(Rgb888::new(fill.r, fill.g, fill.b))
        .build();
    let vertices: Vec<Point> = points.iter().map(|p| Point::new(p.x, p.y)).collect();
    let Rectangle { top_left, size } = Polyline::new(&vertices).into_styled(style).bounding_box();
    Area { left: top_left.x, top: top_left.y, width: size.width, height: size.height }
}

/// Whether the rasterizer can work with this rectangle.
pub fn rect_fits(area: &Area, radius: u32, stroke: &Stroke) -> (fits: bool)
    ensures
        fits == rect_in_range(*area, radius, *stroke),
{
    -COORD_LIMIT <= area.left && area.left <= COORD_LIMIT && -COORD_LIMIT <= area.top && area.top
        <= COORD_LIMIT && area.width <= COORD_LIMIT as u32 && area.height <= COORD_LIMIT as u32
        && radius <= COORD_LIMIT as u32 && stroke.width <= STROKE_LIMIT
}

/// Whether a single line is short enough for an outline of the given width.
fn line_fits(a: Pos, b: Pos, width: u32) -> (fits: bool)
    requires
        width <= STROKE_LIMIT,
        coord_in_range(a.x as int) && coord_in_range(a.y as int),
        coord_in_range(b.x as int) && coord_in_range(b.y as int),
    ensures
        fits == line_in_range(a, b, width),
{
    let factor: i64 = 3 * (width as i64) + 2;
    let dx: i64 = if a.x <= b.x { b.x as i64 - a.x as i64 } else { a.x as i64 - b.x as i64 };
    let dy: i64 = if a.y <= b.y { b.y as i64 - a.y as i64 } else { a.y as i64 - b.y as i64 };
    assert(0 <= factor * dx <= 50 * 16384 && 0 <= factor * dy <= 50 * 16384) by (nonlinear_arith)
        requires
            0 <= factor <= 50,
            0 <= dx <= 16384,
            0 <= dy <= 16384,
    ;
    factor * dx <= LINE_REACH as i64 && factor * dy <= LINE_REACH as i64
}

/// Whether the rasterizer can work with this path.
pub fn path_fits(points: &Vec<Pos>, stroke: &Stroke) -> (fits: bool)
    ensures
        fits == path_in_range(points@, *stroke),
{
    if stroke.width > STROKE_LIMIT {
        return false;
    }
    let joined: bool = points.len() > 2;
    let mut i: usize = 0;
    while i < points.len()
        invariant
            i <= points.len(),
            stroke.width <= STROKE_LIMIT,
            joined == (points.len() > 2),
            forall|j: int|
                0 <= j < i ==> coord_in_range((#[trigger] points@[j]).x as int) && coord_in_range(
                    points@[j].y as int,
                ),
            joined ==> forall|j: int|
                0 < j < i ==> segment_in_range(points@[j - 1], #[trigger] points@[j]),
        decreases points.len() - i,
    {
        let p: Pos = points[i];
        if p.x < -COORD_LIMIT || p.x > COORD_LIMIT || p.y < -COORD_LIMIT || p.y > COORD_LIMIT {
            return false;
        }
        if joined && i > 0 {
            let q: Pos = points[i - 1];
            let dx: i32 = p.x - q.x;
            let dy: i32 = p.y - q.y;
            if dx < -SEGMENT_LIMIT || dx > SEGMENT_LIMIT || dy < -SEGMENT_LIMIT || dy
                > SEGMENT_LIMIT {
                return false;
            }
        }
        i += 1;
    }
    if points.len() == 2 {
        line_fits(points[0], points[1], stroke.width)
    } else {
        true
    }
}

} // verus!
