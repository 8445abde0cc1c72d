//! The plain canvas that everything else is laid onto.

use vstd::prelude::*;

use crate::raster::{filled, filled_image, fits_in_memory, grid, image_pixels, image_size, Canvas};

verus! {

pub const DEFAULT_WIDTH: u32 = 1920;

pub const DEFAULT_HEIGHT: u32 = 1080;

/// A canvas of one colour; opaque black, 1920 by 1080, unless told otherwise.
pub struct Background {
    pub color: [u8; 4],
    pub output_dimension: (u32, u32),
}

impl Background {
    pub fn new() -> (r: Background)
        ensures
            r.color == [0u8, 0u8, 0u8, 255u8],
            r.output_dimension == (DEFAULT_WIDTH, DEFAULT_HEIGHT),
    {
        Background { color: [0, 0, 0, 255], output_dimension: (DEFAULT_WIDTH, DEFAULT_HEIGHT) }
    }

    pub fn color(self, color: [u8; 4]) -> (r: Background)
        ensures
            r.color == color,
            r.output_dimension == self.output_dimension,
    {
        Background { color, ..self }
    }

    pub fn output_dimension(self, output_dimension: (u32, u32)) -> (r: Background)
        ensures
            r.color == self.color,
            r.output_dimension == output_dimension,
    {
        Background { output_dimension, ..self }
    }

    /// The canvas, every pixel of it in the background colour.
    pub fn build(self) -> (r: Canvas)
        requires
            fits_in_memory(self.output_dimension.0, self.output_dimension.1),
        ensures
            image_size(r) == self.output_dimension,
            image_pixels(r) == filled(self.output_dimension, self.color),
            image_pixels(r).dom() == grid(self.output_dimension),
    {
        let r = filled_image(self.output_dimension.0, self.output_dimension.1, self.color);
        assert(filled(self.output_dimension, self.color).dom() =~= grid(self.output_dimension));
        r
    }
}

} // verus!
