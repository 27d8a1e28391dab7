//! The desktop shell's logic: palettes, framebuffer conversion, window
//! scaling, key mapping, the audio sink interface and the per-frame work of
//! an emulator session.  The window, the GPU surface, the event loop and the
//! audio device are the binary's business.
use vstd::prelude::*;

pub mod audio;
pub mod input;
pub mod palette;
pub mod renderer;
pub mod scaling;
pub mod session;

verus! {

/// Returned when a session ends so the caller can persist battery-backed
/// RAM.
#[derive(Debug, Clone)]
pub struct EmulatorResult {
    /// Battery-backed RAM contents, or `None` if the cartridge has no battery.
    pub save_data: Option<Vec<u8>>,
}

/// The window title for a cartridge title: `rgb`, or `rgb — <title>`.
pub open spec fn window_title_text(title: Seq<char>) -> Seq<char> {
    if title.len() == 0 {
        "rgb"@
    } else {
        "rgb — "@ + title
    }
}

pub fn window_title(title: &str) -> (text: String)
    ensures
        text@ == window_title_text(title@),
{
    if title.is_empty() {
        String::from_str("rgb")
    } else {
        let mut text = String::from_str("rgb — ");
        text.append(title);
        text
    }
}

} // verus!
