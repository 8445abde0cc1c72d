//! The gradient strip that fades the avatar's right edge into the text panel.

use vstd::prelude::*;

use crate::raster::{
    blank_image, fits_in_memory, fits_pixels, gradient_of, image_pixels, paint_horizontal_gradient,
    yields, Canvas, Picture,
};
use crate::ErrorKind;

verus! {

/// The strip's width: a third of the avatar's.
pub open spec fn strip_width_of(avatar_width: u32) -> u32 {
    avatar_width / 3
}

/// The strip's width for an avatar `avatar_width` pixels wide.
pub fn strip_width(avatar_width: u32) -> (r: u32)
    ensures
        r == strip_width_of(avatar_width),
{
    avatar_width / 3
}

/// Where the strip starts so that its right edge meets the avatar's.
pub fn strip_offset(avatar_width: u32) -> (r: u32)
    ensures
        r == avatar_width - strip_width_of(avatar_width),
        r + strip_width_of(avatar_width) == avatar_width,
{
    avatar_width - avatar_width / 3
}

/// A horizontal gradient, by default from transparent to opaque black, as tall
/// as the background and a third as wide as the avatar.
pub struct Transition {
    pub avatar_width: u32,
    pub bg_height: u32,
    pub starting_color: [u8; 4],
    pub ending_color: [u8; 4],
}

impl Transition {
    pub fn new(avatar_width: u32, bg_height: u32) -> (r: Transition)
        ensures
            r.avatar_width == avatar_width,
            r.bg_height == bg_height,
            r.starting_color == [0u8, 0u8, 0u8, 0u8],
            r.ending_color == [0u8, 0u8, 0u8, 255u8],
    {
        Transition {
            avatar_width,
            bg_height,
            starting_color: [0, 0, 0, 0],
            ending_color: [0, 0, 0, 255],
        }
    }

    /// The strip: every column one colour, each channel between the two
    /// colours, column 0 the starting colour and the last column the ending
    /// colour, exactly. A strip needs two columns; see `strip_outcome`.
    pub fn build(self) -> (r: Result<Canvas, ErrorKind>)
        ensures
            yields(r, strip_outcome(self.avatar_width, self.bg_height, self.starting_color, self.ending_color)),
            r matches Ok(img) ==> {
                let w = strip_width_of(self.avatar_width);
                &&& forall|x: u32, y: u32|
                    #![trigger image_pixels(img)[(x, y)]]
                    x < w && y < self.bg_height ==> {
                        &&& image_pixels(img)[(x, y)] == image_pixels(img)[(x, 0u32)]
                        &&& forall|c: int|
                            0 <= c < 4 ==> {
                                ||| self.starting_color[c] <= #[trigger] image_pixels(img)[(x, y)][c]
                                    <= self.ending_color[c]
                                ||| self.ending_color[c] <= image_pixels(img)[(x, y)][c]
                                    <= self.starting_color[c]
                            }
                    }
                &&& forall|y: u32|
                    y < self.bg_height ==> {
                        &&& #[trigger] image_pixels(img)[(0u32, y)] == self.starting_color
                        &&& image_pixels(img)[((w - 1) as u32, y)] == self.ending_color
                    }
            },
    {
        let w = strip_width(self.avatar_width);
        if w < 2 {
            return Err(ErrorKind::AvatarTooNarrow);
        }
        if !fits_pixels(w, self.bg_height) {
            return Err(ErrorKind::ImageTooLarge);
        }
        let mut overlay = blank_image(w, self.bg_height);
        paint_horizontal_gradient(&mut overlay, self.starting_color, self.ending_color);
        Ok(overlay)
    }
}

/// The strip for an avatar `avatar_width` wide on a background `bg_height`
/// tall: a third of the avatar's width, painted with the gradient.
pub open spec fn strip_outcome(avatar_width: u32, bg_height: u32, from: [u8; 4], to: [u8; 4]) -> Result<
    Picture,
    ErrorKind,
> {
    let size = (strip_width_of(avatar_width), bg_height);
    if size.0 < 2 {
        Err(ErrorKind::AvatarTooNarrow)
    } else if !fits_in_memory(size.0, size.1) {
        Err(ErrorKind::ImageTooLarge)
    } else {
        Ok(Picture { size, pixels: gradient_of(size, from, to) })
    }
}

} // verus!
