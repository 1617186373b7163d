//! Rendering backend that turns the clipped shapes of an immediate-mode UI
//! frame into commands for a grayscale e-ink display.
//!
//! The library decides; it never touches the device. Every draw routine
//! appends [`device::Command`] values to the backend's command log, and the
//! caller performs them in order.

use vstd::prelude::*;
use egui::Response;

pub mod backend;
pub mod color;
pub mod device;
pub mod fbink;
pub mod geometry;
pub mod laws;
pub mod raster;
pub mod shapes;
pub mod text;
pub mod toolkit;

verus! {

/// `egui::Response`, what a widget answers when it is added to the UI.
/// Nothing is claimed of it: it only passes through.
#[verifier::external_type_specification]
#[verifier::external_body]
pub struct ExResponse(Response);

/// Hook for partial updates after a widget changed. It is inert: the
/// response comes back as it went in.
pub fn handle_component_update(response: Response) -> (unchanged: Response)
    ensures
        unchanged == response,
{
    response
}

} // verus!
