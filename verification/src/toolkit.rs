//! What the backend keeps for the UI toolkit between frames.

use vstd::prelude::*;
use crate::fbink::FBInkBackend;

verus! {

/// The single viewport the toolkit draws into, and the frame clock.
#[derive(Clone, Copy, Debug, PartialEq, Eq, Structural)]
pub struct EguiStuff {
    /// Size of the monitor, which the viewport fills.
    pub monitor_width: u16,
    pub monitor_height: u16,
    pub fullscreen: bool,
    pub focused: bool,
    /// When the first frame began, in milliseconds of the caller's clock.
    pub start_time: Option<u64>,
}

/// Milliseconds from `start` to `now`; none where the clock ran backwards.
pub open spec fn elapsed_ms(start: u64, now: u64) -> u64 {
    if now >= start {
        (now - start) as u64
    } else {
        0
    }
}

impl EguiStuff {
    /// One focused full-screen viewport over the panel's screen; the clock
    /// has not started.
    pub fn new(fb: &FBInkBackend) -> (stuff: EguiStuff)
        ensures
            stuff == (EguiStuff {
                monitor_width: fb.state.screen_width,
                monitor_height: fb.state.screen_height,
                fullscreen: true,
                focused: true,
                start_time: None,
            }),
    {
        EguiStuff {
            monitor_width: fb.state.screen_width,
            monitor_height: fb.state.screen_height,
            fullscreen: true,
            focused: true,
            start_time: None,
        }
    }

    /// The time since the first call, which starts the clock and has no time
    /// to give.
    pub fn get_start_time(&mut self, now_ms: u64) -> (elapsed: Option<u64>)
        ensures
            old(self).start_time is None ==> elapsed is None && *final(self) == (EguiStuff {
                start_time: Some(now_ms),
                ..*old(self)
            }),
            old(self).start_time matches Some(start) ==> elapsed == Some(elapsed_ms(start, now_ms))
                && *final(self) == *old(self),
    {
        match self.start_time {
            Some(start) => {
                if now_ms >= start {
                    Some(now_ms - start)
                } else {
                    Some(0)
                }
            },
            None => {
                self.start_time = Some(now_ms);
                None
            },
        }
    }
}

} // verus!
