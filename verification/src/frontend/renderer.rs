//! Conversion of the PPU's shade indices into an RGBA pixel buffer.
use vstd::prelude::*;
use crate::frontend::palette::Palette;

verus! {

/// Byte `k` of pixel `i` after conversion: channel `k % 4` of the colour of
/// shade `shades[i]`.
pub open spec fn rgba_byte(shades: Seq<u8>, palette: Palette, k: int) -> u8 {
    palette.color((shades[k / 4] & 3) as int)[k % 4]
}

/// Converts a framebuffer of shade indices (0–3) to RGBA bytes, four per
/// shade, written into the front of `rgba`; bytes past them are kept.
pub fn shade_to_rgba(shades: &[u8], palette: &Palette, rgba: &mut [u8])
    requires
        old(rgba)@.len() >= 4 * shades@.len(),
    ensures
        final(rgba)@.len() == old(rgba)@.len(),
        forall|k: int| 0 <= k < 4 * shades@.len() ==> #[trigger] final(rgba)@[k] == rgba_byte(shades@, *palette, k),
        forall|k: int| 4 * shades@.len() <= k < old(rgba)@.len() ==> #[trigger] final(rgba)@[k] == old(rgba)@[k],
{
    let total = rgba.len();
    let mut i: usize = 0;
    while i < shades.len()
        invariant
            total == rgba@.len(),
            i <= shades@.len(),
            rgba@.len() == old(rgba)@.len(),
            rgba@.len() >= 4 * shades@.len(),
            forall|k: int| 0 <= k < 4 * i ==> #[trigger] rgba@[k] == rgba_byte(shades@, *palette, k),
            forall|k: int| 4 * shades@.len() <= k < old(rgba)@.len() ==> #[trigger] rgba@[k] == old(rgba)@[k],
        decreases shades@.len() - i,
    {
        let color = palette.rgba(shades[i]);
        let offset = i * 4;
        let mut c: usize = 0;
        while c < 4
            invariant
                total == rgba@.len(),
                i < shades@.len(),
                offset == 4 * i,
                c <= 4,
                rgba@.len() == old(rgba)@.len(),
                rgba@.len() >= 4 * shades@.len(),
                color == palette.color((shades@[i as int] & 3) as int),
                forall|k: int| 0 <= k < offset + c ==> #[trigger] rgba@[k] == rgba_byte(shades@, *palette, k),
                forall|k: int| 4 * shades@.len() <= k < old(rgba)@.len() ==> #[trigger] rgba@[k] == old(rgba)@[k],
            decreases 4 - c,
        {
            rgba[offset + c] = color[c];
            proof {
                let k = offset + c;
                assert(k / 4 == i as int && k % 4 == c as int);
            }
            c = c + 1;
        }
        i = i + 1;
    }
}

} // verus!
