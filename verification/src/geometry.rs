//! Rectangles in device pixel space, the part of one that the screen shows,
//! and the regions handed to a partial refresh.

use vstd::prelude::*;

verus! {

/// A point in pixel space.
#[derive(Clone, Copy, Debug, PartialEq, Eq, Structural)]
pub struct Pos {
    pub x: i32,
    pub y: i32,
}

/// A rectangle anywhere in pixel space. It may lie off screen and may be empty.
#[derive(Clone, Copy, Debug, PartialEq, Eq, Structural)]
pub struct Area {
    pub left: i32,
    pub top: i32,
    pub width: u32,
    pub height: u32,
}

/// The region of a partial refresh, in the units the panel addresses.
#[derive(Clone, Copy, Debug, PartialEq, Eq, Structural)]
pub struct DamageRect {
    pub left: u16,
    pub top: u16,
    pub width: u16,
    pub height: u16,
}

/// `v` moved to the nearest value that a panel coordinate can hold.
pub open spec fn clamp_u16(v: int) -> int {
    if v < 0 {
        0
    } else if v > 0xffff {
        0xffff
    } else {
        v
    }
}

/// `v` moved to the nearest value that a signed print margin can hold.
pub open spec fn clamp_i16(v: int) -> int {
    if v < -0x8000 {
        -0x8000
    } else if v > 0x7fff {
        0x7fff
    } else {
        v
    }
}

/// The damage rectangle that stands for an area: each field clamped to the
/// panel's units, and unchanged wherever it already fits.
pub open spec fn damage_of(a: Area) -> DamageRect {
    DamageRect {
        left: clamp_u16(a.left as int) as u16,
        top: clamp_u16(a.top as int) as u16,
        width: clamp_u16(a.width as int) as u16,
        height: clamp_u16(a.height as int) as u16,
    }
}

/// The part of `a` that a screen of the given size shows, if any pixel of it is on screen.
pub open spec fn visible_part(a: Area, screen_width: u32, screen_height: u32) -> Option<Area> {
    let left = if a.left < 0 { 0 } else { a.left as int };
    let top = if a.top < 0 { 0 } else { a.top as int };
    let right = if a.left + a.width < screen_width { a.left + a.width } else { screen_width as int };
    let bottom = if a.top + a.height < screen_height { a.top + a.height } else { screen_height as int };
    if left < right && top < bottom {
        Some(Area {
            left: left as i32,
            top: top as i32,
            width: (right - left) as u32,
            height: (bottom - top) as u32,
        })
    } else {
        None
    }
}

/// Whether the pixel lies in the area.
pub open spec fn area_contains(a: Area, x: int, y: int) -> bool {
    a.left <= x < a.left + a.width && a.top <= y < a.top + a.height
}

/// Whether the area lies wholly on a screen of the given size.
pub open spec fn on_screen(a: Area, screen_width: u32, screen_height: u32) -> bool {
    0 <= a.left && a.left + a.width <= screen_width && 0 <= a.top && a.top + a.height
        <= screen_height
}

/// One axis of a thin fill, widened by a pixel for its refresh.
///
/// A span `[origin, origin + extent)` inside `[0, limit)` grows by one pixel
/// at its far end. Where it already touches the far edge of the screen it
/// grows at its near end instead, provided a pixel is left between it and
/// the near edge; failing both it keeps its size. The result is
/// `(origin, extent)` of the widened span.
pub open spec fn widen_span(origin: int, extent: int, limit: int) -> (int, int) {
    if origin + extent + 1 <= limit {
        (origin, extent + 1)
    } else if origin - 1 > 0 {
        (origin - 1, extent + 1)
    } else {
        (origin, extent)
    }
}

/// The region refreshed after a thin fill of `a`, where `a` lies on screen:
/// `a` widened by one pixel on each axis. `None` where that is still under
/// two pixels in either direction.
pub open spec fn widened_damage(a: Area, screen_width: u32, screen_height: u32) -> Option<Area> {
    let (left, width) = widen_span(a.left as int, a.width as int, screen_width as int);
    let (top, height) = widen_span(a.top as int, a.height as int, screen_height as int);
    if width >= 2 && height >= 2 {
        Some(Area { left: left as i32, top: top as i32, width: width as u32, height: height as u32 })
    } else {
        None
    }
}

/// A widened span covers the span it came from and stays on the screen.
pub proof fn widen_span_stays_on_screen(origin: int, extent: int, limit: int)
    requires
        0 <= origin,
        0 < extent,
        origin + extent <= limit,
    ensures
        ({
            let (o, e) = widen_span(origin, extent, limit);
            &&& 0 <= o <= origin
            &&& origin + extent <= o + e <= limit
            &&& extent <= e <= extent + 1
        }),
{
}

fn saturate_u16(v: i64) -> (out: u16)
    ensures
        out as int == clamp_u16(v as int),
{
    if v < 0 {
        0
    } else if v > 0xffff {
        0xffff
    } else {
        v as u16
    }
}

/// Clamps a coordinate to what a signed print margin can hold.
pub fn saturate_i16(v: i32) -> (out: i16)
    ensures
        out as int == clamp_i16(v as int),
{
    if v < -0x8000 {
        -0x8000
    } else if v > 0x7fff {
        0x7fff
    } else {
        v as i16
    }
}

/// Clamps a length to what a panel coordinate can hold.
pub fn saturate_len(v: u32) -> (out: u16)
    ensures
        out as int == clamp_u16(v as int),
{
    saturate_u16(v as i64)
}

fn widen(origin: u32, extent: u32, limit: u32) -> (out: (u32, u32))
    requires
        0 < extent,
        origin + extent <= limit,
    ensures
        (out.0 as int, out.1 as int) == widen_span(origin as int, extent as int, limit as int),
{
    if limit - origin - extent >= 1 {
        (origin, extent + 1)
    } else if origin > 1 {
        (origin - 1, extent + 1)
    } else {
        (origin, extent)
    }
}

impl Area {
    pub fn new(left: i32, top: i32, width: u32, height: u32) -> (a: Area)
        ensures
            a == (Area { left, top, width, height }),
    {
        Area { left, top, width, height }
    }

    /// An area without a pixel in it.
    pub fn is_zero_sized(&self) -> (zero: bool)
        ensures
            zero == (self.width == 0 || self.height == 0),
    {
        self.width == 0 || self.height == 0
    }

    /// The part of the area that the screen shows.
    pub fn visible(&self, screen_width: u32, screen_height: u32) -> (part: Option<Area>)
        ensures
            part == visible_part(*self, screen_width, screen_height),
            part matches Some(p) ==> p.width > 0 && p.height > 0 && on_screen(
                p,
                screen_width,
                screen_height,
            ),
            part matches Some(p) ==> forall|x: int, y: int|
                area_contains(p, x, y) <==> (area_contains(*self, x, y) && 0 <= x < screen_width
                    && 0 <= y < screen_height),
            part is None ==> forall|x: int, y: int|
                !(area_contains(*self, x, y) && 0 <= x < screen_width && 0 <= y < screen_height),
    {
        let left: i64 = if self.left < 0 { 0 } else { self.left as i64 };
        let top: i64 = if self.top < 0 { 0 } else { self.top as i64 };
        let far_x: i64 = self.left as i64 + self.width as i64;
        let far_y: i64 = self.top as i64 + self.height as i64;
        let right: i64 = if far_x < screen_width as i64 { far_x } else { screen_width as i64 };
        let bottom: i64 = if far_y < screen_height as i64 { far_y } else { screen_height as i64 };
        if left < right && top < bottom {
            Some(
                Area {
                    left: left as i32,
                    top: top as i32,
                    width: (right - left) as u32,
                    height: (bottom - top) as u32,
                },
            )
        } else {
            None
        }
    }

    /// The region to refresh after this area, lying on screen, was filled
    /// pixel by pixel.
    pub fn widened(&self, screen_width: u32, screen_height: u32) -> (wide: Option<Area>)
        requires
            self.width > 0,
            self.height > 0,
            on_screen(*self, screen_width, screen_height),
        ensures
            wide == widened_damage(*self, screen_width, screen_height),
            wide matches Some(w) ==> w.width >= 2 && w.height >= 2 && on_screen(
                w,
                screen_width,
                screen_height,
            ),
            wide matches Some(w) ==> forall|x: int, y: int|
                area_contains(*self, x, y) ==> area_contains(w, x, y),
    {
        let (left, width) = widen(self.left as u32, self.width, screen_width);
        let (top, height) = widen(self.top as u32, self.height, screen_height);
        proof {
            widen_span_stays_on_screen(self.left as int, self.width as int, screen_width as int);
            widen_span_stays_on_screen(self.top as int, self.height as int, screen_height as int);
        }
        if width >= 2 && height >= 2 {
            Some(Area { left: left as i32, top: top as i32, width, height })
        } else {
            None
        }
    }

    /// The damage rectangle that stands for this area.
    pub fn to_damage(&self) -> (d: DamageRect)
        ensures
            d == damage_of(*self),
            (0 <= self.left <= 0xffff && 0 <= self.top <= 0xffff && self.width <= 0xffff
                && self.height <= 0xffff) ==> (d.left == self.left && d.top == self.top && d.width
                == self.width && d.height == self.height),
    {
        DamageRect {
            left: saturate_u16(self.left as i64),
            top: saturate_u16(self.top as i64),
            width: saturate_u16(self.width as i64),
            height: saturate_u16(self.height as i64),
        }
    }
}

impl Pos {
    pub fn new(x: i32, y: i32) -> (p: Pos)
        ensures
            p == (Pos { x, y }),
    {
        Pos { x, y }
    }
}

impl DamageRect {
    /// A refresh is only ever issued for a region with pixels in it.
    pub open spec fn is_refreshable(self) -> bool {
        self.width > 0 && self.height > 0
    }

    pub fn new(left: u16, top: u16, width: u16, height: u16) -> (d: DamageRect)
        ensures
            d == (DamageRect { left, top, width, height }),
    {
        DamageRect { left, top, width, height }
    }

    /// Whether the region holds a pixel.
    pub fn has_pixels(&self) -> (yes: bool)
        ensures
            yes == self.is_refreshable(),
    {
        self.width > 0 && self.height > 0
    }
}

} // verus!
