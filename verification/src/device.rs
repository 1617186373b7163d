//! What is known of the panel, and the commands the backend issues to it.

use vstd::prelude::*;
use crate::color::{ColorModel, Rgb};
use crate::geometry::DamageRect;

verus! {

/// What the panel reported when it was opened. It does not change afterwards.
#[derive(Clone, Debug, PartialEq, Eq)]
pub struct DeviceState {
    pub screen_width: u16,
    pub screen_height: u16,
    pub device_name: String,
    pub color_model: ColorModel,
}

/// What the panel answered when asked about itself.
#[derive(Clone, Copy, Debug, PartialEq, Eq)]
pub struct DeviceProbe {
    pub screen_width: u32,
    pub screen_height: u32,
    /// The panel's name as a C character array.
    pub device_name: [u8; 32],
    /// Whether the panel shows colour.
    pub has_color: bool,
}

/// One entry of the font directory.
#[derive(Clone, Debug, PartialEq, Eq)]
pub struct FontEntry {
    pub file_name: String,
    /// Whether the entry is a regular file.
    pub is_file: bool,
}

/// The pen settings that accompany every command.
#[derive(Clone, Copy, Debug, PartialEq, Eq, Structural)]
pub struct DeviceConfig {
    /// Colour code of the text pen.
    pub fg_color: u8,
    /// Colour code of the background pen.
    pub bg_color: u8,
    /// Text is printed without painting its background.
    pub is_bgless: bool,
}

/// Something skipped on purpose. None of these is a failure.
#[derive(Clone, Copy, Debug, PartialEq, Eq, Structural)]
pub enum Diagnostic {
    /// A shape whose clip rectangle shows nothing.
    EmptyClip,
    /// A rectangle without width or without height.
    ZeroSizedRect,
    /// A path whose bounding box holds no pixel.
    ZeroSizedPath,
    /// A thin fill whose refresh region could not reach two pixels each way.
    ThinRefreshSkipped,
    /// A shape too large or too far away for the rasterizer.
    OutOfRange,
    /// A run of text with a NUL character in it, which the panel's strings
    /// cannot hold.
    UnprintableText,
}

/// One operation on the panel. The backend appends these to its log in the
/// order in which they have to be performed.
#[derive(Clone, Debug, PartialEq, Eq)]
pub enum Command {
    /// Make a font file known to the panel's text renderer.
    RegisterFont { path: String },
    /// Write one pixel to the frame buffer.
    PutPixel { x: u16, y: u16, color: Rgb },
    /// Fill a region with one colour, natively.
    FillRect { region: DamageRect, color: Rgb },
    /// Block until the panel has finished what it was sent.
    WaitForComplete,
    /// Refresh a region of the screen and block until that is done.
    Refresh { region: DamageRect },
    /// Load the pen colours.
    SetPenColors { fg: u8, bg: u8 },
    /// Print one run of text with the panel's own font renderer.
    Print { left: i16, top: i16, size_px: u16, text: String },
    /// Note something that was skipped.
    Report { what: Diagnostic },
}

/// A command the panel did not carry out. None of these stops the frame:
/// the frame buffer may hold the right pixels all the same.
#[derive(Clone, Debug, PartialEq, Eq)]
pub enum Failure {
    /// A font file was not taken. Text falls back on the fonts that were.
    FontNotRegistered { path: String },
    /// A refresh was refused. The region keeps showing what it showed.
    RefreshFailed { region: DamageRect },
    /// A run of text was not printed.
    PrintFailed,
    /// The panel did not confirm that it had finished.
    WaitFailed,
}

/// What a status means for a command: the failure it stands for, where the
/// panel reports one (a negative status) and the backend takes note of it.
/// The status of a pixel write, a native fill or a pen change is not looked at.
pub open spec fn failure_of(command: Command, status: i32) -> Option<Failure> {
    if status >= 0 {
        None
    } else {
        match command {
            Command::RegisterFont { path } => Some(Failure::FontNotRegistered { path }),
            Command::Refresh { region } => Some(Failure::RefreshFailed { region }),
            Command::Print { .. } => Some(Failure::PrintFailed),
            Command::WaitForComplete => Some(Failure::WaitFailed),
            _ => None,
        }
    }
}

impl Command {
    /// What the panel's status for this command means. Whatever it is, the
    /// next command is performed.
    pub fn failure(&self, status: i32) -> (failed: Option<Failure>)
        ensures
            failed == failure_of(*self, status),
            status >= 0 ==> failed is None,
    {
        if status >= 0 {
            return None;
        }
        match self {
            Command::RegisterFont { path } => Some(Failure::FontNotRegistered { path: path.clone() }),
            Command::Refresh { region } => Some(Failure::RefreshFailed { region: *region }),
            Command::Print { .. } => Some(Failure::PrintFailed),
            Command::WaitForComplete => Some(Failure::WaitFailed),
            _ => None,
        }
    }

    /// A command that changes what the frame buffer holds.
    pub open spec fn is_draw(self) -> bool {
        self is PutPixel || self is FillRect || self is Print
    }

    /// A command that makes the panel show what the frame buffer holds.
    pub open spec fn is_refresh(self) -> bool {
        self is Refresh
    }
}

/// Why the panel could not be brought up. Each of these ends the program.
#[derive(Clone, Copy, Debug, PartialEq, Eq, Structural)]
pub enum InitError {
    /// The panel could not be opened.
    OpenFailed,
    /// The panel was opened and then refused to initialise.
    InitFailed,
    /// The panel reports a screen beyond what its commands can address.
    ScreenTooLarge,
}

impl DeviceConfig {
    /// The settings a freshly opened panel starts with: both pens at code
    /// zero, text printed without painting its background.
    pub fn startup() -> (cfg: DeviceConfig)
        ensures
            cfg == (DeviceConfig { fg_color: 0, bg_color: 0, is_bgless: true }),
    {
        DeviceConfig { fg_color: 0, bg_color: 0, is_bgless: true }
    }
}

} // verus!
