//! The frame loop's decisions: what a frame starts with, and what becomes of
//! the shapes it ends with.

use vstd::prelude::*;
use crate::device::{Command, DeviceConfig, DeviceState, Diagnostic};
use crate::toolkit::{elapsed_ms, EguiStuff};
use crate::fbink::{path_commands, rect_commands, text_commands, FBInkBackend};
use crate::shapes::{ClippedShape, Shape};

verus! {

/// Seconds the loop rests between two frames. The panel refreshes slowly,
/// and drawing more often than this shows nothing more.
pub const FRAME_INTERVAL_SECS: u64 = 20;

/// The side of the largest texture the toolkit may ask for.
pub const MAX_TEXTURE_SIDE: u32 = 2048;

/// Microseconds the toolkit is told a frame will take: a sixtieth of a second.
pub const PREDICTED_DELTA_US: u32 = 16_666;

/// Where the loop stands.
#[derive(Clone, Copy, Debug, PartialEq, Eq, Structural)]
pub enum FramePhase {
    /// Between frames.
    Idle,
    /// Inside a frame: the toolkit is laying out and painting.
    Rendering,
}

/// The input a frame begins with. The panel has no input devices: the frame
/// is told the size of the screen and the time, and that nothing happened.
#[derive(Clone, Copy, Debug, PartialEq, Eq, Structural)]
pub struct RawInputFrame {
    /// The screen rectangle runs from the origin to this corner.
    pub screen_width: u16,
    pub screen_height: u16,
    /// Milliseconds since the first frame; none in the first frame.
    pub time_ms: Option<u64>,
    pub predicted_delta_us: u32,
    /// Number of input events in the frame.
    pub events: u32,
    pub max_texture_side: u32,
    pub focused: bool,
}

/// What the loop reports to the orchestrator.
#[derive(Clone, Debug, PartialEq, Eq)]
pub enum FrameEvent {
    /// The rest is over; the caller's clock reads `now_ms`.
    Tick { now_ms: u64 },
    /// The toolkit has ended the frame with these shapes.
    Painted { shapes: Vec<ClippedShape> },
}

/// What the orchestrator asks of the loop.
#[derive(Clone, Debug, PartialEq, Eq)]
pub enum FrameAction {
    /// Begin a frame with this input, run the application's update, end
    /// the frame and report what was painted.
    Begin { input: RawInputFrame },
    /// Perform these commands in order, rest, and report a tick.
    Present { commands: Vec<Command>, pause_secs: u64 },
    /// The event does not belong to this phase: do nothing.
    Ignore,
}

/// Owns the panel and the toolkit's state, and steps the loop.
#[derive(Clone, Debug, PartialEq, Eq)]
pub struct AppRunner {
    pub fb: FBInkBackend,
    pub egui: EguiStuff,
    pub phase: FramePhase,
}

/// What dispatching one clipped shape sends.
///
/// A shape whose clip rectangle shows nothing is reported and skipped.
/// Rectangles, text and paths are drawn; every other kind sends nothing.
pub open spec fn shape_commands(
    state: DeviceState,
    cfg: DeviceConfig,
    shape: ClippedShape,
) -> Seq<Command> {
    if shape.clip_rect.shows_nothing() {
        seq![Command::Report { what: Diagnostic::EmptyClip }]
    } else {
        match shape.shape {
            Shape::Rect(rect) => rect_commands(state, rect),
            Shape::Text(text) => text_commands(cfg, text),
            Shape::Path(path) => path_commands(state, path),
            _ => seq![],
        }
    }
}

/// What dispatching the shapes of a frame sends: each shape in turn, in the
/// order given.
pub open spec fn frame_commands(
    state: DeviceState,
    cfg: DeviceConfig,
    shapes: Seq<ClippedShape>,
) -> Seq<Command>
    decreases shapes.len(),
{
    if shapes.len() == 0 {
        seq![]
    } else {
        frame_commands(state, cfg, shapes.drop_last()) + shape_commands(state, cfg, shapes.last())
    }
}

/// The time a frame is told: none in the first frame, which starts the
/// clock, and the time since then in every later one.
pub open spec fn frame_time(start_time: Option<u64>, now_ms: u64) -> Option<u64> {
    match start_time {
        None => None,
        Some(start) => Some(elapsed_ms(start, now_ms)),
    }
}

/// When the clock started, once a frame has begun at `now_ms`.
pub open spec fn started_at(start_time: Option<u64>, now_ms: u64) -> u64 {
    match start_time {
        None => now_ms,
        Some(start) => start,
    }
}

/// The input of a frame on the given screen.
pub open spec fn frame_input(state: DeviceState, time_ms: Option<u64>) -> RawInputFrame {
    RawInputFrame {
        screen_width: state.screen_width,
        screen_height: state.screen_height,
        time_ms,
        predicted_delta_us: PREDICTED_DELTA_US,
        events: 0,
        max_texture_side: MAX_TEXTURE_SIDE,
        focused: true,
    }
}

impl AppRunner {
    /// A runner between frames.
    pub fn new(egui: EguiStuff, fb: FBInkBackend) -> (runner: AppRunner)
        ensures
            runner.fb == fb,
            runner.egui == egui,
            runner.phase == FramePhase::Idle,
    {
        AppRunner { fb, egui, phase: FramePhase::Idle }
    }

    /// Dispatches one clipped shape.
    pub fn draw_shape(&mut self, shape: ClippedShape)
        ensures
            final(self).fb.appended(
                old(self).fb,
                shape_commands(old(self).fb.state, old(self).fb.cfg, shape),
            ),
            final(self).egui == old(self).egui,
            final(self).phase == old(self).phase,
    {
        if shape.clip_rect.is_negative() {
            self.fb.commands.push(Command::Report { what: Diagnostic::EmptyClip });
        } else {
            match shape.shape {
                Shape::Rect(rect) => {
                    self.fb.draw_rect(rect);
                },
                Shape::Text(text) => {
                    self.fb.draw_text(text);
                },
                Shape::Path(path) => {
                    self.fb.draw_paths(path);
                },
                Shape::Noop => {},
                Shape::Mesh => {},
                Shape::Line => {},
                Shape::Circle => {},
                Shape::Bezier => {},
                Shape::Callback => {},
            }
        }
    }

    /// Dispatches the shapes of a frame in the order given. Each is drawn,
    /// and refreshed where that applies, before the next is looked at.
    pub fn draw_shapes(&mut self, clipped_shapes: Vec<ClippedShape>)
        ensures
            final(self).fb.appended(
                old(self).fb,
                frame_commands(old(self).fb.state, old(self).fb.cfg, clipped_shapes@),
            ),
            final(self).egui == old(self).egui,
            final(self).phase == old(self).phase,
    {
        let ghost all = clipped_shapes@;
        for shape in it: clipped_shapes.into_iter()
            invariant
                it.seq() == all,
                self.fb.appended(
                    old(self).fb,
                    frame_commands(
                        old(self).fb.state,
                        old(self).fb.cfg,
                        all.take(it.index() as int),
                    ),
                ),
                self.egui == old(self).egui,
                self.phase == old(self).phase,
        {
            proof {
                assert(all.take(it.index() + 1).drop_last() =~= all.take(it.index() as int));
            }
            self.draw_shape(shape);
        }
        proof {
            assert(all.take(all.len() as int) =~= all);
        }
    }

    /// One step of the frame loop.
    ///
    /// Between frames a tick begins a frame: the runner hands out the
    /// frame's input and waits for the shapes. Inside a frame the painted
    /// shapes end it: they are dispatched, and the runner hands out every
    /// command issued and the rest to take before the next tick. An event
    /// that does not belong to the phase changes nothing.
    pub fn next_frame(&mut self, event: FrameEvent) -> (action: FrameAction)
        ensures
            match (old(self).phase, event) {
                (FramePhase::Idle, FrameEvent::Tick { now_ms }) => {
                    &&& final(self).phase == FramePhase::Rendering
                    &&& final(self).fb == old(self).fb
                    &&& final(self).egui == (EguiStuff {
                        start_time: Some(started_at(old(self).egui.start_time, now_ms)),
                        ..old(self).egui
                    })
                    &&& action == (FrameAction::Begin {
                        input: frame_input(
                            old(self).fb.state,
                            frame_time(old(self).egui.start_time, now_ms),
                        ),
                    })
                },
                (FramePhase::Rendering, FrameEvent::Painted { shapes }) => {
                    &&& final(self).phase == FramePhase::Idle
                    &&& final(self).egui == old(self).egui
                    &&& final(self).fb.same_device(old(self).fb)
                    &&& final(self).fb.commands@.len() == 0
                    &&& action matches FrameAction::Present { commands, pause_secs }
                    &&& action->Present_pause_secs == FRAME_INTERVAL_SECS
                    &&& action->Present_commands@ =~= old(self).fb.commands@ + frame_commands(
                        old(self).fb.state,
                        old(self).fb.cfg,
                        shapes@,
                    )
                },
                _ => action == FrameAction::Ignore && *final(self) == *old(self),
            },
    {
        match self.phase {
            FramePhase::Idle => match event {
                FrameEvent::Tick { now_ms } => {
                    let time_ms = self.egui.get_start_time(now_ms);
                    self.phase = FramePhase::Rendering;
                    FrameAction::Begin {
                        input: RawInputFrame {
                            screen_width: self.fb.state.screen_width,
                            screen_height: self.fb.state.screen_height,
                            time_ms,
                            predicted_delta_us: PREDICTED_DELTA_US,
                            events: 0,
                            max_texture_side: MAX_TEXTURE_SIDE,
                            focused: true,
                        },
                    }
                },
                FrameEvent::Painted { shapes } => FrameAction::Ignore,
            },
            FramePhase::Rendering => match event {
                FrameEvent::Painted { shapes } => {
                    self.draw_shapes(shapes);
                    let commands = self.fb.take_commands();
                    self.phase = FramePhase::Idle;
                    FrameAction::Present { commands, pause_secs: FRAME_INTERVAL_SECS }
                },
                FrameEvent::Tick { now_ms } => FrameAction::Ignore,
            },
        }
    }
}

} // verus!
