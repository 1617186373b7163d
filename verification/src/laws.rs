//! What holds of the backend whatever it is given.

use vstd::prelude::*;
use crate::backend::{frame_commands, shape_commands};
use crate::color::{device_color_of, Rgb};
use crate::device::{Command, DeviceConfig, DeviceState, Diagnostic};
use crate::fbink::{
    fill_commands, path_commands, rect_commands, replay_commands, row_major_pixels,
    text_commands,
};
use crate::geometry::{
    area_contains, damage_of, visible_part, widen_span_stays_on_screen, Area, DamageRect,
};
use crate::raster::{polyline_calls, rect_in_range, rounded_rect_calls, TargetCall};
use crate::shapes::{is_collapsed, ClippedShape, PathShape, RectShape, Shape, TextShape};

verus! {

/// The region that is exactly the area, where the area lies on a screen that
/// the panel can address.
pub open spec fn exact_region(a: Area) -> DamageRect {
    DamageRect {
        left: a.left as u16,
        top: a.top as u16,
        width: a.width as u16,
        height: a.height as u16,
    }
}

/// A fill whose visible part is more than a pixel wide and high is one
/// native fill of that part, the wait for it, and one refresh of exactly
/// that part.
pub proof fn large_fill_refreshes_its_bounds(state: DeviceState, area: Area, color: Rgb)
    requires
        visible_part(area, state.screen_width as u32, state.screen_height as u32) matches Some(
            part,
        ) && part.width > 1 && part.height > 1,
    ensures
        ({
            let part = visible_part(
                area,
                state.screen_width as u32,
                state.screen_height as u32,
            )->Some_0;
            let region = exact_region(part);
            &&& region.left == part.left && region.top == part.top
            &&& region.width == part.width && region.height == part.height
            &&& fill_commands(state, area, color) == seq![
                Command::FillRect { region, color: device_color_of(state.color_model, color) },
                Command::WaitForComplete,
                Command::Refresh { region },
            ]
        }),
{
}

/// A rectangle that is drawn has its bounds refreshed last: exactly its
/// bounds where the panel's units can hold them, and clamped to those units
/// where not.
pub proof fn rect_refresh_is_last(state: DeviceState, rect: RectShape)
    requires
        rect.rect.width > 0,
        rect.rect.height > 0,
        (rect.rounding == 0 && rect.stroke.width == 0) || rect_in_range(
            rect.rect,
            rect.rounding,
            rect.stroke,
        ),
    ensures
        rect_commands(state, rect).len() > 0,
        rect_commands(state, rect).last() == (Command::Refresh { region: damage_of(rect.rect) }),
        (0 <= rect.rect.left <= 0xffff && 0 <= rect.rect.top <= 0xffff && rect.rect.width <= 0xffff
            && rect.rect.height <= 0xffff) ==> damage_of(rect.rect) == exact_region(rect.rect),
{
}

/// A rectangle with square corners and no outline that lies on the screen
/// and is more than a pixel wide and high is drawn as one native fill of
/// exactly its bounds, followed by one refresh of exactly its bounds.
pub proof fn solid_rect_is_one_large_fill(state: DeviceState, rect: RectShape)
    requires
        rect.rounding == 0,
        rect.stroke.width == 0,
        rect.rect.width > 1,
        rect.rect.height > 1,
        0 <= rect.rect.left,
        0 <= rect.rect.top,
        rect.rect.left + rect.rect.width <= state.screen_width,
        rect.rect.top + rect.rect.height <= state.screen_height,
    ensures
        rect_commands(state, rect) == seq![
            Command::FillRect {
                region: exact_region(rect.rect),
                color: device_color_of(state.color_model, rect.fill),
            },
            Command::WaitForComplete,
            Command::Refresh { region: exact_region(rect.rect) },
        ],
{
    assert(visible_part(rect.rect, state.screen_width as u32, state.screen_height as u32) == Some(
        rect.rect,
    ));
    assert(damage_of(rect.rect) == exact_region(rect.rect));
}

/// A rectangle with square corners and no outline of which nothing thin
/// shows is refreshed exactly once, after everything drawn: the refresh of
/// its bounds.
pub proof fn solid_rect_is_refreshed_once(state: DeviceState, rect: RectShape)
    requires
        rect.rounding == 0,
        rect.stroke.width == 0,
        rect.rect.width > 0,
        rect.rect.height > 0,
        visible_part(rect.rect, state.screen_width as u32, state.screen_height as u32) matches Some(
            part,
        ) ==> part.width > 1 && part.height > 1,
    ensures
        ({
            let sent = rect_commands(state, rect);
            &&& sent.len() > 0
            &&& sent.last() == (Command::Refresh { region: damage_of(rect.rect) })
            &&& forall|i: int| 0 <= i < sent.len() - 1 ==> !(#[trigger] sent[i]).is_refresh()
        }),
{
}

/// The place of a pixel among the writes of a thin fill.
pub open spec fn pixel_index(part: Area, x: int, y: int) -> int {
    (y - part.top) * part.width + (x - part.left)
}

/// A fill whose visible part is at most a pixel wide or high writes every
/// pixel of that part exactly once and no other pixel, and then either
/// refreshes a region that covers the part and lies on the screen, or
/// reports that it could not.
pub proof fn thin_fill_writes_each_pixel_once(state: DeviceState, area: Area, color: Rgb)
    requires
        visible_part(area, state.screen_width as u32, state.screen_height as u32) matches Some(
            part,
        ) && (part.width <= 1 || part.height <= 1),
    ensures
        ({
            let part = visible_part(
                area,
                state.screen_width as u32,
                state.screen_height as u32,
            )->Some_0;
            let native = device_color_of(state.color_model, color);
            let sent = fill_commands(state, area, color);
            let count = part.width * part.height;
            &&& sent.len() == count + 1
            &&& forall|x: int, y: int|
                area_contains(part, x, y) ==> 0 <= pixel_index(part, x, y) < count
                    && #[trigger] sent[pixel_index(part, x, y)] == (Command::PutPixel {
                    x: x as u16,
                    y: y as u16,
                    color: native,
                })
            &&& forall|i: int|
                0 <= i < count ==> (#[trigger] sent[i] matches Command::PutPixel { x, y, color: c }
                    && area_contains(part, x as int, y as int) && pixel_index(
                    part,
                    x as int,
                    y as int,
                ) == i)
            &&& (sent.last() matches Command::Refresh { region } ==> region.left + region.width
                <= state.screen_width && region.top + region.height <= state.screen_height
                && region.left <= part.left && part.left + part.width <= region.left
                + region.width && region.top <= part.top && part.top + part.height <= region.top
                + region.height)
            &&& (sent.last() is Refresh || sent.last() == (Command::Report {
                what: Diagnostic::ThinRefreshSkipped,
            }))
        }),
{
    let part = visible_part(area, state.screen_width as u32, state.screen_height as u32)->Some_0;
    let native = device_color_of(state.color_model, color);
    let sent = fill_commands(state, area, color);
    let w = part.width as int;
    let h = part.height as int;
    let count = w * h;
    assert(count == if w == 1 { h } else { w }) by (nonlinear_arith)
        requires
            count == w * h,
            w == 1 || h == 1,
    ;
    widen_span_stays_on_screen(part.left as int, w, state.screen_width as int);
    widen_span_stays_on_screen(part.top as int, h, state.screen_height as int);
    assert forall|x: int, y: int| area_contains(part, x, y) implies 0 <= pixel_index(part, x, y)
        < count && #[trigger] sent[pixel_index(part, x, y)] == (Command::PutPixel {
        x: x as u16,
        y: y as u16,
        color: native,
    }) by {
        let i = pixel_index(part, x, y);
        assert(i == (y - part.top) * w + (x - part.left));
        if w == 1 {
            assert((y - part.top) * w == y - part.top) by (nonlinear_arith)
                requires
                    w == 1,
            ;
            assert(i % 1 == 0 && i / 1 == i);
        } else {
            assert((y - part.top) * w == 0) by (nonlinear_arith)
                requires
                    y - part.top == 0,
            ;
            assert(i % w == i && i / w == 0) by (nonlinear_arith)
                requires
                    0 <= i < w,
            ;
        }
        assert(sent[i] == row_major_pixels(part, native)[i]);
    }
    assert forall|i: int| 0 <= i < count implies (#[trigger] sent[i] matches Command::PutPixel {
        x,
        y,
        color: c,
    } && area_contains(part, x as int, y as int) && pixel_index(part, x as int, y as int)
        == i) by {
        assert(sent[i] == row_major_pixels(part, native)[i]);
        if w == 1 {
            assert(i % 1 == 0 && i / 1 == i);
            assert((i / w) * w == i) by (nonlinear_arith)
                requires
                    w == 1,
            ;
        } else {
            assert(i % w == i && i / w == 0) by (nonlinear_arith)
                requires
                    0 <= i < w,
            ;
            assert((i / w) * w == 0) by (nonlinear_arith)
                requires
                    i / w == 0,
            ;
        }
    }
}

/// A shape whose clip rectangle is turned inside out, or has no extent,
/// sends one report and nothing else: no draw and no refresh.
pub proof fn empty_clip_sends_no_draw_and_no_refresh(
    state: DeviceState,
    cfg: DeviceConfig,
    shape: ClippedShape,
)
    requires
        shape.clip_rect.is_inverted() || shape.clip_rect.shows_nothing(),
    ensures
        shape_commands(state, cfg, shape) == seq![Command::Report { what: Diagnostic::EmptyClip }],
        forall|i: int|
            0 <= i < shape_commands(state, cfg, shape).len() ==> !(#[trigger] shape_commands(
                state,
                cfg,
                shape,
            )[i]).is_draw() && !shape_commands(state, cfg, shape)[i].is_refresh(),
{
}

/// A path whose vertices all lie at one place sends one report and nothing
/// else: nothing is drawn and nothing refreshed, whatever its outline.
pub proof fn collapsed_path_sends_one_report(state: DeviceState, path: PathShape)
    requires
        is_collapsed(path.points@),
    ensures
        path_commands(state, path) == seq![Command::Report { what: Diagnostic::ZeroSizedPath }],
        forall|i: int|
            0 <= i < path_commands(state, path).len() ==> !(#[trigger] path_commands(
                state,
                path,
            )[i]).is_draw() && !path_commands(state, path)[i].is_refresh(),
{
}

/// A run of text with a NUL character in it sends one report and nothing
/// else: no print, and no change of the pen.
pub proof fn text_with_nul_is_not_printed(cfg: DeviceConfig, text: TextShape)
    requires
        text.text@.contains('\0'),
    ensures
        text_commands(cfg, text) == seq![Command::Report { what: Diagnostic::UnprintableText }],
{
}

/// A command to print never holds a NUL character, whatever the text drawn.
pub proof fn printed_text_has_no_nul(cfg: DeviceConfig, text: TextShape)
    ensures
        forall|i: int|
            0 <= i < text_commands(cfg, text).len() ==> (#[trigger] text_commands(
                cfg,
                text,
            )[i] matches Command::Print { text: printed, .. } ==> !printed@.contains('\0')),
{
}

/// A rectangle without width or without height sends one report and
/// nothing else.
pub proof fn zero_sized_rect_sends_nothing(state: DeviceState, rect: RectShape)
    requires
        rect.rect.width == 0 || rect.rect.height == 0,
    ensures
        rect_commands(state, rect) == seq![Command::Report { what: Diagnostic::ZeroSizedRect }],
{
}

/// A run of text that overrides the pen's colour has the override sent
/// first, the pen's own colours sent last, and exactly one print between.
pub proof fn text_override_is_bracketed(cfg: DeviceConfig, text: TextShape)
    requires
        text.override_text_color is Some,
        !text.text@.contains('\0'),
    ensures
        ({
            let sent = text_commands(cfg, text);
            &&& sent.len() == 4
            &&& sent[0] is SetPenColors
            &&& sent[1] is Print
            &&& sent[2] == Command::WaitForComplete
            &&& sent[3] == (Command::SetPenColors { fg: cfg.fg_color, bg: cfg.bg_color })
        }),
{
}


/// What every command of a frame has to meet on a given panel: a pixel
/// written lies on the screen, a native fill covers a region of the screen
/// more than a pixel wide and high, and a refresh is of a region with pixels
/// in it.
pub open spec fn command_is_sound(state: DeviceState, c: Command) -> bool {
    match c {
        Command::PutPixel { x, y, .. } => x < state.screen_width && y < state.screen_height,
        Command::FillRect { region, .. } => {
            &&& region.width > 1 && region.height > 1
            &&& region.left + region.width <= state.screen_width
            &&& region.top + region.height <= state.screen_height
        },
        Command::Refresh { region } => region.is_refreshable(),
        _ => true,
    }
}

/// Every command of the run is sound.
pub open spec fn all_sound(state: DeviceState, sent: Seq<Command>) -> bool {
    forall|i: int| 0 <= i < sent.len() ==> command_is_sound(state, #[trigger] sent[i])
}

/// A fill sends sound commands only.
pub proof fn fill_is_sound(state: DeviceState, area: Area, color: Rgb)
    ensures
        all_sound(state, fill_commands(state, area, color)),
{
    let sent = fill_commands(state, area, color);
    let screen_width = state.screen_width as u32;
    let screen_height = state.screen_height as u32;
    match visible_part(area, screen_width, screen_height) {
        None => {},
        Some(part) => {
            if part.width <= 1 || part.height <= 1 {
                let w = part.width as int;
                let h = part.height as int;
                let count = w * h;
                assert(count == if w == 1 { h } else { w }) by (nonlinear_arith)
                    requires
                        count == w * h,
                        w == 1 || h == 1,
                ;
                widen_span_stays_on_screen(part.left as int, w, screen_width as int);
                widen_span_stays_on_screen(part.top as int, h, screen_height as int);
                assert forall|i: int| 0 <= i < sent.len() implies command_is_sound(
                    state,
                    #[trigger] sent[i],
                ) by {
                    if i < count {
                        if w == 1 {
                            assert(i % 1 == 0 && i / 1 == i);
                        } else {
                            assert(i % w == i && i / w == 0) by (nonlinear_arith)
                                requires
                                    0 <= i < w,
                            ;
                        }
                    }
                }
            }
        },
    }
}

/// What the rasterizer asks for is carried out with sound commands only,
/// whatever it asks for.
pub proof fn replay_is_sound(state: DeviceState, calls: Seq<TargetCall>)
    ensures
        all_sound(state, replay_commands(state, calls)),
    decreases calls.len(),
{
    if calls.len() > 0 {
        replay_is_sound(state, calls.drop_last());
        match calls.last() {
            TargetCall::Dot { pixel } => {},
            TargetCall::Fill { area, color } => {
                fill_is_sound(state, area, color);
            },
        }
    }
}

/// A rectangle is drawn with sound commands only.
pub proof fn rect_is_sound(state: DeviceState, rect: RectShape)
    ensures
        all_sound(state, rect_commands(state, rect)),
{
    fill_is_sound(state, rect.rect, rect.fill);
    replay_is_sound(
        state,
        rounded_rect_calls(
            state.screen_width,
            state.screen_height,
            rect.rect,
            rect.rounding,
            rect.stroke,
            rect.fill,
        ),
    );
}

/// A path is drawn with sound commands only.
pub proof fn path_is_sound(state: DeviceState, path: PathShape)
    ensures
        all_sound(state, path_commands(state, path)),
{
    replay_is_sound(
        state,
        polyline_calls(
            state.screen_width,
            state.screen_height,
            path.points@,
            path.stroke,
            path.fill,
        ),
    );
}

/// Whatever the shapes of a frame are, no pixel is written off screen, no
/// native fill leaves the screen or is thinner than two pixels, and no empty
/// region is refreshed.
pub proof fn frame_is_sound(state: DeviceState, cfg: DeviceConfig, shapes: Seq<ClippedShape>)
    ensures
        all_sound(state, frame_commands(state, cfg, shapes)),
    decreases shapes.len(),
{
    if shapes.len() > 0 {
        frame_is_sound(state, cfg, shapes.drop_last());
        let shape = shapes.last();
        if !shape.clip_rect.shows_nothing() {
            match shape.shape {
                Shape::Rect(rect) => {
                    rect_is_sound(state, rect);
                },
                Shape::Path(path) => {
                    path_is_sound(state, path);
                },
                _ => {},
            }
        }
    }
}

} // verus!
