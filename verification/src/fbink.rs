//! The backend proper: a draw target over the panel, and the routines that
//! draw one shape each.

use vstd::prelude::*;
use crate::color::{device_color_of, gray_of, rgb_to_gray, ColorModel, Rgb};
use crate::device::{
    Command, DeviceConfig, DeviceProbe, DeviceState, Diagnostic, FontEntry, InitError,
};
use crate::geometry::{
    clamp_i16, clamp_u16, damage_of, on_screen, saturate_i16, saturate_len, visible_part,
    widened_damage, Area, DamageRect,
};
use crate::raster::{
    path_fits, path_in_range, polyline_bounds, polyline_calls, rasterize_polyline,
    rasterize_rounded_rect, rect_fits, rect_in_range, rounded_rect_calls, styled_polyline_bounds,
    Pixel, TargetCall,
};
use crate::shapes::{is_collapsed, PathShape, RectShape, TextShape};
use crate::text::{font_path, font_path_of, has_nul, name_chars, x8_to_string};

verus! {

/// The panel as the renderer sees it: what it reported, how its pens are set,
/// and the commands issued to it so far.
#[derive(Clone, Debug, PartialEq, Eq)]
pub struct FBInkBackend {
    pub cfg: DeviceConfig,
    /// The handle under which the panel was opened.
    pub fd: i32,
    pub state: DeviceState,
    /// Commands not yet performed, oldest first.
    pub commands: Vec<Command>,
}

/// What writing one pixel sends: the pixel in the panel's colour where it is
/// on screen, nothing where it is not.
pub open spec fn pixel_commands(state: DeviceState, p: Pixel) -> Seq<Command> {
    if 0 <= p.x < state.screen_width && 0 <= p.y < state.screen_height {
        seq![
            Command::PutPixel {
                x: p.x as u16,
                y: p.y as u16,
                color: device_color_of(state.color_model, p.color),
            },
        ]
    } else {
        seq![]
    }
}

/// What writing a run of pixels sends: each in turn.
pub open spec fn pixels_commands(state: DeviceState, pixels: Seq<Pixel>) -> Seq<Command>
    decreases pixels.len(),
{
    if pixels.len() == 0 {
        seq![]
    } else {
        pixels_commands(state, pixels.drop_last()) + pixel_commands(state, pixels.last())
    }
}

/// One write for each pixel of an area, row by row from the top, each row
/// from the left. `color` is what the panel stores.
pub open spec fn row_major_pixels(a: Area, color: Rgb) -> Seq<Command> {
    Seq::new(
        (a.width * a.height) as nat,
        |i: int|
            Command::PutPixel {
                x: (a.left + i % (a.width as int)) as u16,
                y: (a.top + i / (a.width as int)) as u16,
                color,
            },
    )
}

/// What scheduling a refresh sends: the refresh, unless the region is empty.
pub open spec fn refresh_commands(region: DamageRect) -> Seq<Command> {
    if region.is_refreshable() {
        seq![Command::Refresh { region }]
    } else {
        seq![]
    }
}

/// What filling an area with one colour sends.
///
/// Only the part on screen counts. An area more than a pixel wide and high
/// is filled natively, waited for and refreshed. A thinner one is written
/// pixel by pixel, and the region refreshed is the area widened by a pixel
/// each way, for the panel does not refresh a single line.
pub open spec fn fill_commands(state: DeviceState, area: Area, color: Rgb) -> Seq<Command> {
    let native = device_color_of(state.color_model, color);
    match visible_part(area, state.screen_width as u32, state.screen_height as u32) {
        None => seq![],
        Some(part) => if part.width <= 1 || part.height <= 1 {
            row_major_pixels(part, native) + (match widened_damage(
                part,
                state.screen_width as u32,
                state.screen_height as u32,
            ) {
                Some(wide) => seq![Command::Refresh { region: damage_of(wide) }],
                None => seq![Command::Report { what: Diagnostic::ThinRefreshSkipped }],
            })
        } else {
            seq![
                Command::FillRect { region: damage_of(part), color: native },
                Command::WaitForComplete,
                Command::Refresh { region: damage_of(part) },
            ]
        },
    }
}

/// What painting an area with one colour sends: what filling it sends, short
/// of the refresh that follows a native fill. That refresh is left to the
/// caller, who knows the region that has to show.
pub open spec fn paint_commands(state: DeviceState, area: Area, color: Rgb) -> Seq<Command> {
    let native = device_color_of(state.color_model, color);
    match visible_part(area, state.screen_width as u32, state.screen_height as u32) {
        None => seq![],
        Some(part) => if part.width <= 1 || part.height <= 1 {
            fill_commands(state, area, color)
        } else {
            seq![
                Command::FillRect { region: damage_of(part), color: native },
                Command::WaitForComplete,
            ]
        },
    }
}

/// The region that painting an area fills natively and leaves to be
/// refreshed: the visible part, where it is more than a pixel wide and high.
pub open spec fn painted_natively(state: DeviceState, area: Area) -> Option<DamageRect> {
    match visible_part(area, state.screen_width as u32, state.screen_height as u32) {
        None => None,
        Some(part) => if part.width <= 1 || part.height <= 1 {
            None
        } else {
            Some(damage_of(part))
        },
    }
}

/// What one request of the rasterizer sends.
pub open spec fn call_commands(state: DeviceState, call: TargetCall) -> Seq<Command> {
    match call {
        TargetCall::Dot { pixel } => pixel_commands(state, pixel),
        TargetCall::Fill { area, color } => fill_commands(state, area, color),
    }
}

/// What a run of requests of the rasterizer sends: each in turn.
pub open spec fn replay_commands(state: DeviceState, calls: Seq<TargetCall>) -> Seq<Command>
    decreases calls.len(),
{
    if calls.len() == 0 {
        seq![]
    } else {
        replay_commands(state, calls.drop_last()) + call_commands(state, calls.last())
    }
}

/// What clearing a region sends: a native fill in white, and the wait for it.
pub open spec fn clear_commands(region: DamageRect) -> Seq<Command> {
    seq![
        Command::FillRect { region, color: Rgb { r: 255, g: 255, b: 255 } },
        Command::WaitForComplete,
    ]
}

/// The names of the regular files among the entries of the font directory,
/// in the order of the entries.
pub open spec fn font_files(entries: Seq<FontEntry>) -> Seq<Seq<char>>
    decreases entries.len(),
{
    if entries.len() == 0 {
        seq![]
    } else if entries.last().is_file {
        font_files(entries.drop_last()).push(entries.last().file_name@)
    } else {
        font_files(entries.drop_last())
    }
}

/// The commands register the named font files, one each and in order.
pub open spec fn registers_fonts(sent: Seq<Command>, names: Seq<Seq<char>>) -> bool {
    &&& sent.len() == names.len()
    &&& forall|i: int|
        0 <= i < names.len() ==> (#[trigger] sent[i] matches Command::RegisterFont { path }
            && path@ == font_path_of(names[i]))
}

/// The whole of a screen as a region.
pub open spec fn whole_screen(state: DeviceState) -> DamageRect {
    DamageRect { left: 0, top: 0, width: state.screen_width, height: state.screen_height }
}

/// What a panel that came up is sent first: its fonts, then the clearing of
/// the screen.
pub open spec fn startup_commands(
    sent: Seq<Command>,
    state: DeviceState,
    fonts: Seq<FontEntry>,
) -> bool {
    let files = font_files(fonts);
    &&& sent.len() == files.len() + 2
    &&& registers_fonts(sent.take(files.len() as int), files)
    &&& sent.skip(files.len() as int) == clear_commands(whole_screen(state))
}

/// What the panel is known to be after it answered the probe.
pub open spec fn probed_state(state: DeviceState, probe: DeviceProbe) -> bool {
    &&& state.screen_width == probe.screen_width
    &&& state.screen_height == probe.screen_height
    &&& state.device_name@ == name_chars(probe.device_name@)
    &&& state.color_model == if probe.has_color {
        ColorModel::Color
    } else {
        ColorModel::Grayscale
    }
}

/// What drawing a rasterized rectangle sends: what the rasterizer asked
/// for, and then the refresh of the rectangle's bounds.
pub open spec fn rasterized_rect_commands(
    state: DeviceState,
    bounds: Area,
    calls: Seq<TargetCall>,
) -> Seq<Command> {
    replay_commands(state, calls) + refresh_commands(damage_of(bounds))
}

/// What drawing a rectangle sends.
///
/// One without width or height is reported and skipped. One with square
/// corners and no outline is painted as a single fill, and the one refresh
/// that follows a native fill is that of the rectangle's bounds. Any other
/// goes through the rasterizer, unless it is beyond the rasterizer's range,
/// which is reported. Whatever was drawn, the rectangle's bounds are
/// refreshed last.
pub open spec fn rect_commands(state: DeviceState, rect: RectShape) -> Seq<Command> {
    if rect.rect.width == 0 || rect.rect.height == 0 {
        seq![Command::Report { what: Diagnostic::ZeroSizedRect }]
    } else if rect.rounding == 0 && rect.stroke.width == 0 {
        paint_commands(state, rect.rect, rect.fill) + seq![
            Command::Refresh { region: damage_of(rect.rect) },
        ]
    } else if !rect_in_range(rect.rect, rect.rounding, rect.stroke) {
        seq![Command::Report { what: Diagnostic::OutOfRange }]
    } else {
        replay_commands(
            state,
            rounded_rect_calls(
                state.screen_width,
                state.screen_height,
                rect.rect,
                rect.rounding,
                rect.stroke,
                rect.fill,
            ),
        ) + seq![Command::Refresh { region: damage_of(rect.rect) }]
    }
}

/// The print command for a run of text, and the wait for it.
pub open spec fn print_commands(text: TextShape) -> Seq<Command> {
    seq![
        Command::Print {
            left: clamp_i16(text.pos.x as int) as i16,
            top: clamp_i16(text.pos.y as int) as i16,
            size_px: clamp_u16(text.height as int) as u16,
            text: text.text,
        },
        Command::WaitForComplete,
    ]
}

/// What drawing a run of text sends: the print, and around it, where the
/// run overrides the pen's colour, the override and the pen's restoration.
/// A run with a NUL character in it is reported and not printed, and the
/// pen is not touched.
pub open spec fn text_commands(cfg: DeviceConfig, text: TextShape) -> Seq<Command> {
    if text.text@.contains('\0') {
        seq![Command::Report { what: Diagnostic::UnprintableText }]
    } else {
        match text.override_text_color {
            Some(c) => seq![
                Command::SetPenColors {
                    fg: gray_of(c.r as int, c.g as int, c.b as int) as u8,
                    bg: cfg.bg_color,
                },
            ] + print_commands(text) + seq![
                Command::SetPenColors { fg: cfg.fg_color, bg: cfg.bg_color },
            ],
            None => print_commands(text),
        }
    }
}

/// What follows a rasterized path: the refresh of its bounding box, or a
/// report where the box holds no pixel.
pub open spec fn bounds_commands(bounds: Area) -> Seq<Command> {
    if bounds.width == 0 || bounds.height == 0 {
        seq![Command::Report { what: Diagnostic::ZeroSizedPath }]
    } else {
        seq![Command::Refresh { region: damage_of(bounds) }]
    }
}

/// What drawing a rasterized path sends.
pub open spec fn rasterized_path_commands(
    state: DeviceState,
    calls: Seq<TargetCall>,
    bounds: Area,
) -> Seq<Command> {
    replay_commands(state, calls) + bounds_commands(bounds)
}

/// What drawing a path sends: what the rasterizer asks for, then the refresh
/// of the path's bounding box. A path whose vertices all lie at one place
/// has nothing to show: it is reported and the rasterizer is not asked. A
/// path beyond the rasterizer's range is reported and skipped.
pub open spec fn path_commands(state: DeviceState, path: PathShape) -> Seq<Command> {
    if is_collapsed(path.points@) {
        seq![Command::Report { what: Diagnostic::ZeroSizedPath }]
    } else if !path_in_range(path.points@, path.stroke) {
        seq![Command::Report { what: Diagnostic::OutOfRange }]
    } else {
        rasterized_path_commands(
            state,
            polyline_calls(
                state.screen_width,
                state.screen_height,
                path.points@,
                path.stroke,
                path.fill,
            ),
            polyline_bounds(path.points@, path.stroke, path.fill),
        )
    }
}

impl FBInkBackend {
    /// The panel and its settings are the same.
    pub open spec fn same_device(self, before: FBInkBackend) -> bool {
        &&& self.cfg == before.cfg
        &&& self.fd == before.fd
        &&& self.state == before.state
    }

    /// The panel is the same and `sent` was appended to its command log.
    pub open spec fn appended(self, before: FBInkBackend, sent: Seq<Command>) -> bool {
        &&& self.same_device(before)
        &&& self.commands@ =~= before.commands@ + sent
    }

    /// Brings the backend up on a panel that was opened, initialised and
    /// probed by the caller.
    ///
    /// A panel that could not be opened (`fd` negative) or initialised
    /// (`init_status` negative) is an error, and so is one whose screen the
    /// commands cannot address. Otherwise the backend starts with the
    /// registration of every regular file of the font directory and the
    /// clearing of the whole screen in its log.
    pub fn new(fd: i32, init_status: i32, probe: DeviceProbe, fonts: &Vec<FontEntry>) -> (made:
        Result<FBInkBackend, InitError>)
        ensures
            fd < 0 ==> made == Err::<FBInkBackend, InitError>(InitError::OpenFailed),
            fd >= 0 && init_status < 0 ==> made == Err::<FBInkBackend, InitError>(
                InitError::InitFailed,
            ),
            fd >= 0 && init_status >= 0 && (probe.screen_width > 0xffff || probe.screen_height
                > 0xffff) ==> made == Err::<FBInkBackend, InitError>(InitError::ScreenTooLarge),
            fd >= 0 && init_status >= 0 && probe.screen_width <= 0xffff && probe.screen_height
                <= 0xffff ==> (made matches Ok(b) && b.fd == fd && b.cfg == (DeviceConfig {
                fg_color: 0,
                bg_color: 0,
                is_bgless: true,
            }) && probed_state(b.state, probe) && startup_commands(b.commands@, b.state, fonts@)),
    {
        if fd < 0 {
            return Err(InitError::OpenFailed);
        }
        if init_status < 0 {
            return Err(InitError::InitFailed);
        }
        if probe.screen_width > 0xffff || probe.screen_height > 0xffff {
            return Err(InitError::ScreenTooLarge);
        }
        let state = DeviceState {
            screen_width: probe.screen_width as u16,
            screen_height: probe.screen_height as u16,
            device_name: x8_to_string(&probe.device_name),
            color_model: if probe.has_color {
                ColorModel::Color
            } else {
                ColorModel::Grayscale
            },
        };
        let whole = DamageRect {
            left: 0,
            top: 0,
            width: state.screen_width,
            height: state.screen_height,
        };
        let mut made = FBInkBackend {
            cfg: DeviceConfig::startup(),
            fd,
            state,
            commands: Vec::new(),
        };
        made.register_fonts(fonts);
        let ghost registered = made.commands@;
        proof {
            assert(registered.skip(0) =~= registered);
        }
        made.clear(whole);
        proof {
            let files = font_files(fonts@);
            assert(made.commands@.take(files.len() as int) =~= registered);
            assert(made.commands@.skip(files.len() as int) =~= clear_commands(whole));
        }
        Ok(made)
    }

    /// Registers one font file of the font directory.
    pub fn register_font(&mut self, file_name: &str)
        ensures
            final(self).same_device(*old(self)),
            final(self).commands@.len() == old(self).commands@.len() + 1,
            final(self).commands@.take(old(self).commands@.len() as int) == old(self).commands@,
            final(self).commands@.last() matches Command::RegisterFont { path } && path@
                == font_path_of(file_name@),
    {
        let path = font_path(file_name);
        self.commands.push(Command::RegisterFont { path });
        proof {
            assert(self.commands@.take(old(self).commands@.len() as int) =~= old(self).commands@);
        }
    }

    /// Registers every regular file among the entries of the font directory.
    pub fn register_fonts(&mut self, fonts: &Vec<FontEntry>)
        ensures
            final(self).same_device(*old(self)),
            final(self).commands@.take(old(self).commands@.len() as int) == old(self).commands@,
            registers_fonts(
                final(self).commands@.skip(old(self).commands@.len() as int),
                font_files(fonts@),
            ),
    {
        let ghost base = self.commands@.len() as int;
        let mut i: usize = 0;
        proof {
            assert(self.commands@.take(base) =~= old(self).commands@);
        }
        while i < fonts.len()
            invariant
                i <= fonts.len(),
                base == old(self).commands@.len(),
                self.same_device(*old(self)),
                self.commands@.len() >= base,
                self.commands@.take(base) == old(self).commands@,
                registers_fonts(self.commands@.skip(base), font_files(fonts@.take(i as int))),
            decreases fonts.len() - i,
        {
            proof {
                assert(fonts@.take(i + 1).drop_last() =~= fonts@.take(i as int));
            }
            let ghost before = self.commands@;
            if fonts[i].is_file {
                self.register_font(fonts[i].file_name.as_str());
                proof {
                    let n = before.len() as int;
                    assert(self.commands@.take(n) == before);
                    assert(self.commands@.take(base) =~= before.take(base));
                    let suffix = self.commands@.skip(base);
                    let names = font_files(fonts@.take(i + 1));
                    assert(suffix.len() == names.len());
                    assert forall|k: int| 0 <= k < names.len() implies (
                    #[trigger] suffix[k] matches Command::RegisterFont { path } && path@
                        == font_path_of(names[k])) by {
                        if k < names.len() - 1 {
                            assert(suffix[k] == self.commands@.take(n)[base + k]);
                            assert(suffix[k] == before.skip(base)[k]);
                        } else {
                            assert(suffix[k] == self.commands@.last());
                        }
                    }
                }
            }
            i += 1;
        }
        proof {
            assert(fonts@.take(i as int) =~= fonts@);
        }
    }

    /// The size of the screen: width, then height.
    pub fn size(&self) -> (size: (u32, u32))
        ensures
            size.0 == self.state.screen_width,
            size.1 == self.state.screen_height,
    {
        (self.state.screen_width as u32, self.state.screen_height as u32)
    }

    /// Hands over the commands issued so far and empties the log.
    pub fn take_commands(&mut self) -> (sent: Vec<Command>)
        ensures
            sent@ == old(self).commands@,
            final(self).commands@.len() == 0,
            final(self).same_device(*old(self)),
    {
        let mut sent: Vec<Command> = Vec::new();
        core::mem::swap(&mut sent, &mut self.commands);
        sent
    }

    /// Schedules the refresh of a region. An empty region is not refreshed.
    pub fn refresh(&mut self, region: DamageRect)
        ensures
            final(self).appended(*old(self), refresh_commands(region)),
    {
        if region.has_pixels() {
            self.commands.push(Command::Refresh { region });
        }
    }

    /// Fills a region with white and waits for the panel.
    pub fn clear(&mut self, region: DamageRect)
        ensures
            final(self).appended(*old(self), clear_commands(region)),
    {
        self.commands.push(
            Command::FillRect { region, color: Rgb { r: 255, g: 255, b: 255 } },
        );
        self.commands.push(Command::WaitForComplete);
    }

    /// Writes one pixel, if it is on screen.
    pub fn set_pixel(&mut self, x: i32, y: i32, color: Rgb)
        ensures
            final(self).appended(
                *old(self),
                pixel_commands(old(self).state, Pixel { x, y, color }),
            ),
    {
        if 0 <= x && x < self.state.screen_width as i32 && 0 <= y && y
            < self.state.screen_height as i32 {
            let native = color.to_device(self.state.color_model);
            self.commands.push(Command::PutPixel { x: x as u16, y: y as u16, color: native });
        }
    }

    /// Writes every pixel of a thin area that lies on screen, row by row.
    fn write_pixels(&mut self, part: &Area, native: Rgb)
        requires
            part.width > 0,
            part.height > 0,
            part.width <= 1 || part.height <= 1,
            on_screen(
                *part,
                old(self).state.screen_width as u32,
                old(self).state.screen_height as u32,
            ),
        ensures
            final(self).appended(*old(self), row_major_pixels(*part, native)),
    {
        let width: u32 = part.width;
        let height: u32 = part.height;
        assert(width * height <= 0xffff) by (nonlinear_arith)
            requires
                0 < width <= 0xffff,
                0 < height <= 0xffff,
                width <= 1 || height <= 1,
        ;
        let count: u32 = width * height;
        let mut k: u32 = 0;
        while k < count
            invariant
                k <= count,
                count == width * height,
                width == part.width,
                height == part.height,
                width > 0,
                on_screen(
                    *part,
                    old(self).state.screen_width as u32,
                    old(self).state.screen_height as u32,
                ),
                self.same_device(*old(self)),
                self.commands@ =~= old(self).commands@ + row_major_pixels(*part, native).take(
                    k as int,
                ),
            decreases count - k,
        {
            assert(k / width < height) by (nonlinear_arith)
                requires
                    k < width * height,
                    width > 0,
            ;
            let x: u32 = part.left as u32 + k % width;
            let y: u32 = part.top as u32 + k / width;
            self.commands.push(Command::PutPixel { x: x as u16, y: y as u16, color: native });
            proof {
                let all = row_major_pixels(*part, native);
                assert(all.take(k + 1) =~= all.take(k as int).push(all[k as int]));
            }
            k += 1;
        }
        proof {
            let all = row_major_pixels(*part, native);
            assert(all.take(count as int) =~= all);
        }
    }

    /// Paints an area with one colour, natively where the panel can and
    /// pixel by pixel where it cannot. A thin part is refreshed at once; the
    /// region of a native fill is handed back for the caller to refresh.
    fn paint(&mut self, area: &Area, color: Rgb) -> (filled: Option<DamageRect>)
        ensures
            final(self).appended(*old(self), paint_commands(old(self).state, *area, color)),
            filled == painted_natively(old(self).state, *area),
    {
        let (screen_width, screen_height) = self.size();
        let native = color.to_device(self.state.color_model);
        match area.visible(screen_width, screen_height) {
            None => None,
            Some(part) => {
                if part.width <= 1 || part.height <= 1 {
                    self.write_pixels(&part, native);
                    match part.widened(screen_width, screen_height) {
                        Some(wide) => {
                            self.refresh(wide.to_damage());
                        },
                        None => {
                            self.commands.push(
                                Command::Report { what: Diagnostic::ThinRefreshSkipped },
                            );
                        },
                    }
                    None
                } else {
                    let region = part.to_damage();
                    self.commands.push(Command::FillRect { region, color: native });
                    self.commands.push(Command::WaitForComplete);
                    Some(region)
                }
            },
        }
    }

    /// Fills an area with one colour, natively where the panel can and pixel
    /// by pixel where it cannot, and refreshes what was touched.
    pub fn fill_solid(&mut self, area: &Area, color: Rgb)
        ensures
            final(self).appended(*old(self), fill_commands(old(self).state, *area, color)),
    {
        if let Some(region) = self.paint(area, color) {
            self.refresh(region);
        }
    }

    /// Performs what the rasterizer asked of its draw target, request by request.
    pub fn draw_calls(&mut self, calls: &Vec<TargetCall>)
        ensures
            final(self).appended(*old(self), replay_commands(old(self).state, calls@)),
    {
        let mut i: usize = 0;
        while i < calls.len()
            invariant
                i <= calls.len(),
                self.appended(*old(self), replay_commands(old(self).state, calls@.take(i as int))),
            decreases calls.len() - i,
        {
            proof {
                assert(calls@.take(i + 1).drop_last() =~= calls@.take(i as int));
            }
            match calls[i] {
                TargetCall::Dot { pixel } => {
                    self.set_pixel(pixel.x, pixel.y, pixel.color);
                },
                TargetCall::Fill { area, color } => {
                    self.fill_solid(&area, color);
                },
            }
            i += 1;
        }
        proof {
            assert(calls@.take(i as int) =~= calls@);
        }
    }

    /// Draws what the rasterizer made of a rectangle, then refreshes the
    /// rectangle's bounds.
    pub fn draw_rasterized_rect(&mut self, bounds: &Area, calls: &Vec<TargetCall>)
        ensures
            final(self).appended(
                *old(self),
                rasterized_rect_commands(old(self).state, *bounds, calls@),
            ),
    {
        self.draw_calls(calls);
        self.refresh(bounds.to_damage());
    }

    /// Draws a rectangle and refreshes its bounds.
    pub fn draw_rect(&mut self, rect: RectShape)
        ensures
            final(self).appended(*old(self), rect_commands(old(self).state, rect)),
    {
        if rect.rect.width == 0 || rect.rect.height == 0 {
            self.commands.push(Command::Report { what: Diagnostic::ZeroSizedRect });
        } else if rect.rounding == 0 && rect.stroke.width == 0 {
            let _ = self.paint(&rect.rect, rect.fill);
            self.refresh(rect.rect.to_damage());
        } else if !rect_fits(&rect.rect, rect.rounding, &rect.stroke) {
            self.commands.push(Command::Report { what: Diagnostic::OutOfRange });
        } else {
            let calls = rasterize_rounded_rect(
                self.state.screen_width,
                self.state.screen_height,
                rect.rect,
                rect.rounding,
                rect.stroke,
                rect.fill,
            );
            self.draw_rasterized_rect(&rect.rect, &calls);
        }
    }

    /// Prints a run of text. Where the run has a colour of its own the pen
    /// takes it for the print and has its own colour back afterwards.
    pub fn draw_text(&mut self, text: TextShape)
        ensures
            final(self).appended(*old(self), text_commands(old(self).cfg, text)),
    {
        if has_nul(text.text.as_str()) {
            self.commands.push(Command::Report { what: Diagnostic::UnprintableText });
            return;
        }
        let prior = self.cfg;
        if let Some(c) = text.override_text_color {
            self.cfg.fg_color = rgb_to_gray(c.r, c.g, c.b);
            self.commands.push(
                Command::SetPenColors { fg: self.cfg.fg_color, bg: self.cfg.bg_color },
            );
        }
        let overridden = text.override_text_color.is_some();
        self.commands.push(
            Command::Print {
                left: saturate_i16(text.pos.x),
                top: saturate_i16(text.pos.y),
                size_px: saturate_len(text.height),
                text: text.text,
            },
        );
        self.commands.push(Command::WaitForComplete);
        self.cfg = prior;
        if overridden {
            self.commands.push(
                Command::SetPenColors { fg: self.cfg.fg_color, bg: self.cfg.bg_color },
            );
        }
    }

    /// Draws what the rasterizer made of a path, then refreshes the path's
    /// bounding box, unless the box is empty.
    pub fn draw_rasterized_path(&mut self, calls: &Vec<TargetCall>, bounds: &Area)
        ensures
            final(self).appended(
                *old(self),
                rasterized_path_commands(old(self).state, calls@, *bounds),
            ),
    {
        self.draw_calls(calls);
        if bounds.is_zero_sized() {
            self.commands.push(Command::Report { what: Diagnostic::ZeroSizedPath });
        } else {
            self.refresh(bounds.to_damage());
        }
    }

    /// Draws a path as a connected line and refreshes its bounding box.
    pub fn draw_paths(&mut self, path: PathShape)
        ensures
            final(self).appended(*old(self), path_commands(old(self).state, path)),
            (is_collapsed(path.points@) || (path_in_range(path.points@, path.stroke)
                && path.stroke.width == 0)) ==> final(self).appended(
                *old(self),
                seq![Command::Report { what: Diagnostic::ZeroSizedPath }],
            ),
    {
        if path.collapses() {
            self.commands.push(Command::Report { what: Diagnostic::ZeroSizedPath });
        } else if !path_fits(&path.points, &path.stroke) {
            self.commands.push(Command::Report { what: Diagnostic::OutOfRange });
        } else {
            let calls = rasterize_polyline(
                self.state.screen_width,
                self.state.screen_height,
                &path.points,
                path.stroke,
                path.fill,
            );
            let bounds = styled_polyline_bounds(&path.points, path.stroke, path.fill);
            self.draw_rasterized_path(&calls, &bounds);
        }
    }

    /// Writes a run of pixels in order. Those off screen are left out.
    pub fn draw_iter(&mut self, pixels: &Vec<Pixel>)
        ensures
            final(self).appended(*old(self), pixels_commands(old(self).state, pixels@)),
    {
        let mut i: usize = 0;
        while i < pixels.len()
            invariant
                i <= pixels.len(),
                self.appended(*old(self), pixels_commands(old(self).state, pixels@.take(i as int))),
            decreases pixels.len() - i,
        {
            let p: Pixel = pixels[i];
            proof {
                assert(pixels@.take(i + 1).drop_last() =~= pixels@.take(i as int));
            }
            self.set_pixel(p.x, p.y, p.color);
            i += 1;
        }
        proof {
            assert(pixels@.take(i as int) =~= pixels@);
        }
    }
}

} // verus!
