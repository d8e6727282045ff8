//! Items shared by every renderer: colors and the clipped pixel write.
use vstd::prelude::*;
use crate::canvas::Canvas;

verus! {

/// An RGB color, one byte per channel.
pub type Color = (u8, u8, u8);

/// Writes `color` at `(x, y)`, dropping the write when `(x, y)` lies outside
/// the canvas.
pub fn put_pixel_safe(image: &mut Canvas, x: u32, y: u32, color: Color)
    ensures
        final(image)@ == old(image)@.put(x as int, y as int, color),
{
    if x < image.width() && y < image.height() {
        image.put_pixel(x, y, color);
    }
}

} // verus!
