//! Integer scaling of the 160×144 screen inside a host window.
use vstd::prelude::*;
use crate::ppu::{SCREEN_HEIGHT, SCREEN_WIDTH};

verus! {

/// The largest integer scale at which the screen fits the window: the
/// smaller of the two axis ratios, and at least 1.
pub open spec fn fitting_scale(window_width: u32, window_height: u32) -> u32 {
    let x = window_width / 160;
    let y = window_height / 144;
    let m = if x < y { x } else { y };
    if m < 1 { 1 } else { m }
}

pub fn fit_scale(window_width: u32, window_height: u32) -> (scale: u32)
    ensures
        scale == fitting_scale(window_width, window_height),
        scale >= 1,
{
    let scale_x = window_width / (SCREEN_WIDTH as u32);
    let scale_y = window_height / (SCREEN_HEIGHT as u32);
    let m = if scale_x < scale_y { scale_x } else { scale_y };
    if m < 1 { 1 } else { m }
}

} // verus!
