//! The avatar: a source picture scaled to the canvas height and cropped, or a
//! generated disc with an initial for an identity without a picture.

use vstd::prelude::*;

use crate::raster::{
    blank_image, cropped, dimensions, disc_drawn, draw_disc, draw_text, filled, fits_in_memory,
    fits_pixels, grid, image_pixels, image_size, layout_fits, picture, renders, resize_of, resized,
    text_drawn, text_extent, upper_of, uppercase, yields, Canvas, Picture, DRAW_BOUND,
};
use crate::text::{TextDrawInfo, TextStyleView};
use crate::ErrorKind;

verus! {

/// How a source `src_w` by `src_h` is fitted to `target_h`: the whole-number
/// aspect ratio scales the height into a width; the left quarter of that width
/// is then cut away.
pub open spec fn resized_width_of(src_w: u32, src_h: u32, target_h: u32) -> int {
    target_h * (src_w / src_h)
}

/// The resized width, the crop's left edge, and the width that is kept, for a
/// source `src_w` by `src_h` fitted to `target_h`. Fails when a size would be
/// zero or the resized image would not fit.
pub fn crop_plan(src_w: u32, src_h: u32, target_h: u32) -> (r: Result<(u32, u32, u32), ErrorKind>)
    ensures
        src_h == 0 || target_h == 0 || src_w < src_h ==> r matches Err(ErrorKind::EmptyImage),
        src_h > 0 && target_h > 0 && src_w >= src_h ==> {
            let w = resized_width_of(src_w, src_h, target_h);
            &&& w > u32::MAX || !fits_in_memory(w as u32, target_h) ==> (r matches Err(
                ErrorKind::ImageTooLarge,
            ))
            &&& w <= u32::MAX && fits_in_memory(w as u32, target_h) ==> r == Ok::<
                (u32, u32, u32),
                ErrorKind,
            >((w as u32, (w / 4) as u32, (w - w / 4) as u32))
        },
        r matches Ok(plan) ==> plan.0 >= 1,
{
    if src_h == 0 || target_h == 0 || src_w < src_h {
        return Err(ErrorKind::EmptyImage);
    }
    let ratio = src_w / src_h;
    assert(1 <= ratio <= u32::MAX) by (nonlinear_arith)
        requires
            ratio == src_w / src_h,
            src_w >= src_h > 0,
            src_w <= u32::MAX,
    ;
    assert(target_h * ratio <= u64::MAX) by (nonlinear_arith)
        requires
            ratio <= u32::MAX,
            target_h <= u32::MAX,
    ;
    let wide = (target_h as u64) * (ratio as u64);
    assert(wide == resized_width_of(src_w, src_h, target_h) && wide >= 1) by (nonlinear_arith)
        requires
            wide == target_h as u64 * ratio as u64,
            ratio == src_w / src_h,
            1 <= ratio <= u32::MAX,
            1 <= target_h <= u32::MAX,
    ;
    if wide > u32::MAX as u64 || !fits_pixels(wide as u32, target_h) {
        return Err(ErrorKind::ImageTooLarge);
    }
    let w = wide as u32;
    let crop = w / 4;
    Ok((w, crop, w - crop))
}

/// A source picture to be fitted to a canvas `bg_height` pixels tall.
pub struct Avatar {
    pub img_data: Canvas,
    pub bg_height: u32,
    pub enable_crop: bool,
}

impl Avatar {
    pub fn new(img_data: Canvas, bg_height: u32) -> (r: Avatar)
        ensures
            r.img_data == img_data,
            r.bg_height == bg_height,
            r.enable_crop,
    {
        Avatar { img_data, bg_height, enable_crop: true }
    }

    pub fn enable_crop(self, enable_crop: bool) -> (r: Avatar)
        ensures
            r.img_data == self.img_data,
            r.bg_height == self.bg_height,
            r.enable_crop == enable_crop,
    {
        Avatar { enable_crop, ..self }
    }

    /// With cropping off, the picture as it is. Otherwise the picture resized to
    /// the canvas height with its left quarter cut away; see `avatar_outcome`.
    pub fn build(self) -> (r: Result<Canvas, ErrorKind>)
        requires
            image_pixels(self.img_data).dom() == grid(image_size(self.img_data)),
        ensures
            !self.enable_crop ==> r == Ok::<Canvas, ErrorKind>(self.img_data),
            self.enable_crop ==> yields(r, avatar_outcome(picture(self.img_data), self.bg_height)),
    {
        if !self.enable_crop {
            return Ok(self.img_data);
        }
        let (w, h) = dimensions(&self.img_data);
        let (out_w, crop, kept) = match crop_plan(w, h, self.bg_height) {
            Ok(plan) => plan,
            Err(e) => return Err(e),
        };
        let buffer = resized(&self.img_data, out_w, self.bg_height);
        let img = cropped(&buffer, crop, 0, kept, self.bg_height);
        assert(image_pixels(img) =~= cropped_avatar(picture(self.img_data), self.bg_height).pixels);
        Ok(img)
    }
}

/// The source resized to `bg_h` tall by the whole-number aspect ratio, with the
/// left quarter of its width cut away.
pub open spec fn cropped_avatar(src: Picture, bg_h: u32) -> Picture {
    let rw = resized_width_of(src.size.0, src.size.1, bg_h);
    let crop = rw / 4;
    let size = ((rw - crop) as u32, bg_h);
    let resized = resize_of(src.size, src.pixels, rw as u32, bg_h);
    Picture {
        size,
        pixels: Map::new(
            |p: (u32, u32)| grid(size).contains(p),
            |p: (u32, u32)| resized[((p.0 + crop) as u32, p.1)],
        ),
    }
}

/// What fitting `src` to a canvas `bg_h` tall comes to; see `crop_plan`.
pub open spec fn avatar_outcome(src: Picture, bg_h: u32) -> Result<Picture, ErrorKind> {
    let (w, h) = src.size;
    if h == 0 || bg_h == 0 || w < h {
        Err(ErrorKind::EmptyImage)
    } else if resized_width_of(w, h, bg_h) > u32::MAX || !fits_in_memory(
        resized_width_of(w, h, bg_h) as u32,
        bg_h,
    ) {
        Err(ErrorKind::ImageTooLarge)
    } else {
        Ok(cropped_avatar(src, bg_h))
    }
}

/// The background colours of generated avatars.
pub open spec fn identity_palette() -> Seq<[u8; 4]> {
    seq![
        [255u8, 81u8, 106u8, 255u8],
        [255u8, 168u8, 92u8, 255u8],
        [214u8, 105u8, 237u8, 255u8],
        [84u8, 203u8, 104u8, 255u8],
        [40u8, 201u8, 183u8, 255u8],
        [42u8, 158u8, 241u8, 255u8],
        [255u8, 113u8, 154u8, 255u8],
    ]
}

/// The background colour for identity `id`: the palette entry at `id mod 7`.
pub fn identity_color(id: u64) -> (r: [u8; 4])
    ensures
        r == identity_palette()[(id % 7) as int],
{
    let palette: [[u8; 4]; 7] = [
        [255, 81, 106, 255],
        [255, 168, 92, 255],
        [214, 105, 237, 255],
        [84, 203, 104, 255],
        [40, 201, 183, 255],
        [42, 158, 241, 255],
        [255, 113, 154, 255],
    ];
    assert(palette@ == identity_palette());
    palette[(id % 7) as usize]
}

/// The disc on a `cv_w` by `cv_h` canvas: centred, with a twelfth of the
/// width left free on either side.
pub fn disc_geometry(cv_w: i32, cv_h: i32) -> (r: ((i32, i32), i32))
    requires
        cv_w >= 0,
        cv_h >= 0,
    ensures
        r.0.0 == cv_w / 2,
        r.0.1 == cv_h / 2,
        r.1 == cv_w / 2 - cv_w / 12,
{
    ((cv_w / 2, cv_h / 2), cv_w / 2 - cv_w / 12)
}

/// Where a letter of extent `size` is drawn to sit on `center`: half its width
/// to the left, and two thirds of its height up, which puts the glyph's ink
/// rather than its layout box in the middle.
pub fn letter_origin(center: (i32, i32), size: (i32, i32)) -> (r: (i32, i32))
    requires
        center.0 >= 0,
        center.1 >= 0,
        size.0 >= 0,
        size.1 >= 0,
    ensures
        r.0 == center.0 - size.0 / 2,
        r.1 == center.1 - (size.1 - size.1 / 3),
{
    (center.0 - size.0 / 2, center.1 - (size.1 - size.1 / 3))
}

/// A generated avatar for an identity without a picture: a coloured disc on a
/// canvas a third as wide as the background, with the label's first letter,
/// upper-cased, on it.
pub struct TgAvatar<'a> {
    pub id: u64,
    pub bg_dim: (u32, u32),
    pub info: TextDrawInfo<'a>,
}

impl<'a> TgAvatar<'a> {
    pub fn new(id: u64, bg_dim: (u32, u32), info: TextDrawInfo<'a>) -> (r: TgAvatar<'a>)
        ensures
            r.id == id,
            r.bg_dim == bg_dim,
            r.info == info,
    {
        TgAvatar { id, bg_dim, info }
    }

    /// The generated picture; see `identity_outcome`.
    pub fn build(self) -> (r: Result<Canvas, ErrorKind>)
        ensures
            yields(r, identity_outcome(self.id, self.bg_dim, self.info@)),
    {
        let (bg_w, bg_h) = self.bg_dim;
        let cv_w = bg_w / 3;
        if cv_w == 0 || bg_h == 0 {
            return Err(ErrorKind::EmptyImage);
        }
        if bg_h > i32::MAX as u32 || !fits_pixels(cv_w, bg_h) {
            return Err(ErrorKind::ImageTooLarge);
        }
        if self.info.text().unicode_len() == 0 {
            return Err(ErrorKind::EmptyName);
        }
        let letter = uppercase(self.info.text().substring_char(0, 1));
        if !self.info.font().renders(letter.as_str()) {
            return Err(ErrorKind::MissingGlyph);
        }
        if !self.info.font().layout_fits(self.info.scale(), letter.as_str()) {
            return Err(ErrorKind::LayoutOutOfRange);
        }
        let size = self.info.font().measure(self.info.scale(), letter.as_str());
        if size.0 > DRAW_BOUND || size.1 > DRAW_BOUND {
            return Err(ErrorKind::ImageTooLarge);
        }
        let mut canvas = blank_image(cv_w, bg_h);
        let (center, radius) = disc_geometry(cv_w as i32, bg_h as i32);
        draw_disc(&mut canvas, center, radius, identity_color(self.id));
        let (x, y) = letter_origin(center, size);
        draw_text(
            &mut canvas,
            self.info.color(),
            x,
            y,
            self.info.font(),
            self.info.scale(),
            letter.as_str(),
        );
        proof {
            let want = identity_picture(self.id, self.bg_dim, self.info@);
            assert(filled((cv_w, bg_h), [0u8, 0u8, 0u8, 0u8]).dom() =~= grid((cv_w, bg_h)));
            assert(center == ((cv_w / 2) as i32, (bg_h / 2) as i32));
            assert(image_size(canvas) == want.size);
            assert(image_pixels(canvas) == want.pixels);
        }
        Ok(canvas)
    }
}

/// The generated picture for identity `id` on a background `bg_dim`: a canvas
/// a third as wide, transparent, with a disc in the identity's colour and, on
/// it, the label's first character upper-cased, drawn in its style.
pub open spec fn identity_picture(id: u64, bg_dim: (u32, u32), label: TextStyleView) -> Picture {
    let size = (bg_dim.0 / 3, bg_dim.1);
    let cw = size.0 as int;
    let ch = size.1 as int;
    let center = ((cw / 2) as i32, (ch / 2) as i32);
    let radius = (cw / 2 - cw / 12) as i32;
    let letter = upper_of(label.text.subrange(0, 1));
    let extent = text_extent(label.font, label.scale, letter);
    let x = (center.0 - extent.0 / 2) as i32;
    let y = (center.1 - (extent.1 - extent.1 / 3)) as i32;
    let disc = disc_drawn(
        size,
        filled(size, [0u8, 0u8, 0u8, 0u8]),
        center,
        radius,
        identity_palette()[(id % 7) as int],
    );
    Picture {
        size,
        pixels: text_drawn(size, disc, label.color, x, y, label.font, label.scale, letter),
    }
}

/// What generating the avatar comes to: the picture, unless the canvas is empty
/// or too large for the pixel arithmetic, the label is empty, or the face
/// cannot draw the letter.
pub open spec fn identity_outcome(id: u64, bg_dim: (u32, u32), label: TextStyleView) -> Result<
    Picture,
    ErrorKind,
> {
    let letter = upper_of(label.text.subrange(0, 1));
    let extent = text_extent(label.font, label.scale, letter);
    if bg_dim.0 / 3 == 0 || bg_dim.1 == 0 {
        Err(ErrorKind::EmptyImage)
    } else if bg_dim.1 > i32::MAX || !fits_in_memory(bg_dim.0 / 3, bg_dim.1) {
        Err(ErrorKind::ImageTooLarge)
    } else if label.text.len() == 0 {
        Err(ErrorKind::EmptyName)
    } else if !renders(label.font, letter) {
        Err(ErrorKind::MissingGlyph)
    } else if !layout_fits(label.font, label.scale, letter) {
        Err(ErrorKind::LayoutOutOfRange)
    } else if extent.0 > DRAW_BOUND || extent.1 > DRAW_BOUND {
        Err(ErrorKind::ImageTooLarge)
    } else {
        Ok(identity_picture(id, bg_dim, label))
    }
}

} // verus!
