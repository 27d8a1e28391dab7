//! DMG palettes: the PPU produces shade indices 0–3 for each pixel and a
//! [`Palette`] maps them to RGBA colours.
use vstd::prelude::*;

verus! {

/// Four RGBA colours, one per shade index.  Index 0 is the lightest shade
/// (background/off), index 3 the darkest; alpha is always 0xFF.
#[derive(Clone, Copy, Debug)]
pub struct Palette {
    colors: [[u8; 4]; 4],
}

impl Palette {
    /// The colour of shade index `i` (0–3).
    pub closed spec fn color(&self, i: int) -> [u8; 4] {
        self.colors[i]
    }

    /// The RGBA bytes for a shade; only its low two bits count.
    pub fn rgba(&self, shade: u8) -> (color: [u8; 4])
        ensures
            color == self.color((shade & 3) as int),
    {
        let index = (shade & 0x03) as usize;
        proof {
            assert(shade & 3 < 4) by (bit_vector);
        }
        self.colors[index]
    }
}

/// The classic DMG green colours.
pub open spec fn is_classic_green(p: Palette) -> bool {
    &&& p.color(0) == [0xE0u8, 0xF8, 0xD0, 0xFF]
    &&& p.color(1) == [0x88u8, 0xC0, 0x70, 0xFF]
    &&& p.color(2) == [0x34u8, 0x68, 0x56, 0xFF]
    &&& p.color(3) == [0x08u8, 0x18, 0x20, 0xFF]
}

/// The grayscale colours.
pub open spec fn is_grayscale(p: Palette) -> bool {
    &&& p.color(0) == [0xFFu8, 0xFF, 0xFF, 0xFF]
    &&& p.color(1) == [0xAAu8, 0xAA, 0xAA, 0xFF]
    &&& p.color(2) == [0x55u8, 0x55, 0x55, 0xFF]
    &&& p.color(3) == [0x00u8, 0x00, 0x00, 0xFF]
}

/// Classic DMG green: the colours most people associate with the original
/// Game Boy screen.
pub fn classic_green() -> (p: Palette)
    ensures
        is_classic_green(p),
{
    Palette {
        colors: [
            [0xE0, 0xF8, 0xD0, 0xFF],
            [0x88, 0xC0, 0x70, 0xFF],
            [0x34, 0x68, 0x56, 0xFF],
            [0x08, 0x18, 0x20, 0xFF],
        ],
    }
}

/// Neutral grayscale, for debugging or as an accessibility option.
pub fn grayscale() -> (p: Palette)
    ensures
        is_grayscale(p),
{
    Palette {
        colors: [
            [0xFF, 0xFF, 0xFF, 0xFF],
            [0xAA, 0xAA, 0xAA, 0xFF],
            [0x55, 0x55, 0x55, 0xFF],
            [0x00, 0x00, 0x00, 0xFF],
        ],
    }
}

} // verus!
