//! The calls into the font and image crates that the rest of the library makes.
//!
//! Everything in this module is taken on trust: each item names the outside
//! function it relies on, and its contract states what that function's source
//! shows. A result that the source fixes but that takes pages to state is given
//! a name; the name depends on the arguments alone.

use vstd::prelude::*;

verus! {

/// rusttype's parsed font face, carried through opaquely.
#[verifier::external_type_specification]
#[verifier::external_body]
pub struct ExFont<'a>(rusttype::Font<'a>);

/// The image crate's decoding and encoding error, carried through opaquely.
#[verifier::external_type_specification]
#[verifier::external_body]
pub struct ExImageError(image::ImageError);

/// A grid of RGBA pixels with 8-bit channels, held in the image crate's buffer.
///
/// The buffer type cannot be declared to Verus directly (its pixel parameter is
/// bound by an outside trait), so this struct hides it; `image_size` and
/// `image_pixels` name what it holds.
#[verifier::external_body]
pub struct Canvas {
    img: image::RgbaImage,
}

/// The width and height of a canvas, in pixels.
pub uninterp spec fn image_size(img: Canvas) -> (u32, u32);

/// The pixels of a canvas, keyed by `(x, y)`, each as red, green, blue, alpha.
pub uninterp spec fn image_pixels(img: Canvas) -> Map<(u32, u32), [u8; 4]>;

/// A canvas's size and pixels as plain values.
pub ghost struct Picture {
    pub size: (u32, u32),
    pub pixels: Map<(u32, u32), [u8; 4]>,
}

pub open spec fn picture(img: Canvas) -> Picture {
    Picture { size: image_size(img), pixels: image_pixels(img) }
}

/// Whether an outcome holding a canvas is the outcome `o` holding its picture.
pub open spec fn yields(r: Result<Canvas, crate::ErrorKind>, o: Result<Picture, crate::ErrorKind>) -> bool {
    match r {
        Ok(img) => o == Ok::<Picture, crate::ErrorKind>(picture(img)) && image_pixels(img).dom() == grid(
            image_size(img),
        ),
        Err(e) => o == Err::<Picture, crate::ErrorKind>(e),
    }
}

/// The positions of a `size.0` by `size.1` grid.
pub open spec fn grid(size: (u32, u32)) -> Set<(u32, u32)> {
    Set::new(|p: (u32, u32)| p.0 < size.0 && p.1 < size.1)
}

/// Every position of the grid, and no other, holds `color`.
pub open spec fn filled(size: (u32, u32), color: [u8; 4]) -> Map<(u32, u32), [u8; 4]> {
    Map::new(|p: (u32, u32)| grid(size).contains(p), |p: (u32, u32)| color)
}

/// The pixels of `img` resized to `w` by `h` with the Catmull-Rom filter.
pub uninterp spec fn resize_of(
    size: (u32, u32),
    pixels: Map<(u32, u32), [u8; 4]>,
    w: u32,
    h: u32,
) -> Map<(u32, u32), [u8; 4]>;

/// The pixels of a `size` grid painted with a horizontal gradient.
pub uninterp spec fn gradient_of(size: (u32, u32), from: [u8; 4], to: [u8; 4]) -> Map<
    (u32, u32),
    [u8; 4],
>;

/// The pixels after `top` is blended onto `bottom` at `(x, y)`.
pub uninterp spec fn overlaid(
    size: (u32, u32),
    pixels: Map<(u32, u32), [u8; 4]>,
    top_size: (u32, u32),
    top_pixels: Map<(u32, u32), [u8; 4]>,
    x: i64,
    y: i64,
) -> Map<(u32, u32), [u8; 4]>;

/// The pixels after `text` is drawn with the face parsed from `font` at
/// `scale`, its layout's origin at `(x, y)`.
pub uninterp spec fn text_drawn(
    size: (u32, u32),
    pixels: Map<(u32, u32), [u8; 4]>,
    color: [u8; 4],
    x: i32,
    y: i32,
    font: Seq<u8>,
    scale: u16,
    text: Seq<char>,
) -> Map<(u32, u32), [u8; 4]>;

/// The pixels after a disc of `radius` about `center` is filled.
pub uninterp spec fn disc_drawn(
    size: (u32, u32),
    pixels: Map<(u32, u32), [u8; 4]>,
    center: (i32, i32),
    radius: i32,
    color: [u8; 4],
) -> Map<(u32, u32), [u8; 4]>;

/// The size and pixels that the image data decodes to, if it decodes.
pub uninterp spec fn decoded_of(data: Seq<u8>) -> Option<((u32, u32), Map<(u32, u32), [u8; 4]>)>;

/// The JPEG encoding of a picture, if it can be encoded.
pub uninterp spec fn jpeg_of(size: (u32, u32), pixels: Map<(u32, u32), [u8; 4]>) -> Option<Seq<u8>>;

/// The text as `str::to_uppercase` gives it.
pub uninterp spec fn upper_of(text: Seq<char>) -> Seq<char>;

/// The glyph that the first face of `font` maps `c` to, if any.
pub uninterp spec fn glyph_index_of(font: Seq<u8>, c: char) -> Option<u16>;

/// The number of glyphs in the first face of `font`.
pub uninterp spec fn glyph_count_of(font: Seq<u8>) -> Option<u16>;

/// The horizontal advance of glyph `g`, if the face has one for it.
pub uninterp spec fn hor_advance_of(font: Seq<u8>, g: u16) -> Option<u16>;

/// The horizontal side bearing of glyph `g`, if the face has one for it.
pub uninterp spec fn hor_bearing_of(font: Seq<u8>, g: u16) -> Option<i16>;

/// The first face's ascender, in font units, if the data parses.
pub uninterp spec fn ascender_of(font: Seq<u8>) -> Option<i16>;

/// The first face's descender, in font units, if the data parses.
pub uninterp spec fn descender_of(font: Seq<u8>) -> Option<i16>;

/// The most that one character moves the layout's caret or reaches past it,
/// in font units: an advance (a `u16`) and a kerning (an `i16`).
pub const UNITS_PER_CHAR: u64 = 98304;

/// Whether laying `text` out at `scale` keeps every coordinate well within
/// `i32`. The font crate scales font units by `scale / (ascender - descender)`,
/// so that difference must be positive; the caret then moves at most
/// `UNITS_PER_CHAR` scaled units per character, a glyph box and the baseline
/// reach at most one more such step from it, and a factor four covers the
/// rounding of the floating-point caret.
pub open spec fn layout_fits(font: Seq<u8>, scale: u16, text: Seq<char>) -> bool {
    &&& ascender_of(font) is Some
    &&& descender_of(font) is Some
    &&& ascender_of(font).unwrap() > descender_of(font).unwrap()
    &&& (text.len() + 1) * UNITS_PER_CHAR * 4 * scale <= DRAW_BOUND * (ascender_of(font).unwrap()
        - descender_of(font).unwrap())
}

/// The glyph that laying out `c` uses: glyph 0 when the face has none for it.
pub open spec fn glyph_of(font: Seq<u8>, c: char) -> u16 {
    match glyph_index_of(font, c) {
        Some(g) => g,
        None => 0,
    }
}

/// Whether laying out `c` finds a glyph within the face, with horizontal
/// metrics; the font crate panics otherwise.
pub open spec fn char_renders(font: Seq<u8>, c: char) -> bool {
    let g = glyph_of(font, c);
    &&& glyph_count_of(font) is Some
    &&& g < glyph_count_of(font).unwrap()
    &&& hor_advance_of(font, g) is Some
    &&& hor_bearing_of(font, g) is Some
}

/// Whether every character of `text` can be laid out with the face.
pub open spec fn renders(font: Seq<u8>, text: Seq<char>) -> bool {
    forall|i: int| 0 <= i < text.len() ==> char_renders(font, #[trigger] text[i])
}

/// The bound on a drawing origin and on a text's extent under which the
/// drawing's pixel arithmetic stays within `i32`.
pub const DRAW_BOUND: i32 = 0x4000_0000;

pub open spec fn drawable(x: int, y: int, extent: (i32, i32)) -> bool {
    &&& -DRAW_BOUND <= x <= DRAW_BOUND
    &&& -DRAW_BOUND <= y <= DRAW_BOUND
    &&& extent.0 <= DRAW_BOUND
    &&& extent.1 <= DRAW_BOUND
}

/// Whether a `w` by `h` buffer of four-byte pixels has a length that fits in
/// `usize`.
pub open spec fn fits_in_memory(w: u32, h: u32) -> bool {
    4 * w * h <= usize::MAX
}

/// The extent, in pixels, that a text occupies when rendered with the font
/// parsed from `font_data` at `scale` pixels per em (a whole number, which the
/// font crate's floating-point scale holds exactly).
pub uninterp spec fn text_extent(font_data: Seq<u8>, scale: u16, text: Seq<char>) -> (i32, i32);

/// A font face parsed from its file data, which it keeps.
pub struct FontFace {
    font: rusttype::Font<'static>,
    data: Vec<u8>,
}

impl View for FontFace {
    type V = Seq<u8>;

    closed spec fn view(&self) -> Seq<u8> {
        self.data@
    }
}

/// Relies on rusttype::Font::try_from_vec: parses the data as the first face of
/// a font file with ttf_parser's Face::from_slice, or gives `None` when that
/// parse fails.
#[verifier::external_body]
fn parse_font(data: Vec<u8>) -> (r: Option<rusttype::Font<'static>>)
    ensures
        r is Some <==> glyph_count_of(data@) is Some,
{
    rusttype::Font::try_from_vec(data)
}

impl FontFace {
    /// Parses font file data; `None` when the data holds no usable face.
    pub fn from_bytes(data: Vec<u8>) -> (r: Option<FontFace>)
        ensures
            r is Some <==> glyph_count_of(data@) is Some,
            r matches Some(f) ==> f@ == data@,
    {
        let kept = data.clone();
        match parse_font(data) {
            Some(font) => Some(FontFace { font, data: kept }),
            None => None,
        }
    }

    /// The pixel extent of `text` at `scale` pixels per em.
    pub fn measure(&self, scale: u16, text: &str) -> (r: (i32, i32))
        requires
            renders(self@, text@),
            layout_fits(self@, scale, text@),
        ensures
            r == text_extent(self@, scale, text@),
            r.0 >= 0,
            r.1 >= 0,
            text@.len() == 0 ==> r == (0i32, 0i32),
    {
        measure_text(self, scale, text)
    }

    /// Whether laying `text` out at `scale` keeps within the pixel arithmetic;
    /// see `layout_fits`.
    pub fn layout_fits(&self, scale: u16, text: &str) -> (r: bool)
        ensures
            r == layout_fits(self@, scale, text@),
    {
        let (asc, desc) = match (ascender(&self.data), descender(&self.data)) {
            (Some(a), Some(d)) => (a, d),
            _ => return false,
        };
        if asc <= desc {
            return false;
        }
        let n = text.unicode_len() as u128;
        let span = (asc as i32 - desc as i32) as u128;
        assert(1 <= span <= 65535);
        let chars = n + 1;
        let units = chars * 393216;
        assert(units <= 0x1_0000_0000_0000_0000_0000u128 * 393216) by (nonlinear_arith)
            requires
                units == chars * 393216,
                chars <= 0x1_0000_0000_0000_0000u128,
        ;
        assert(units * scale <= 0x1_0000_0000_0000_0000_0000u128 * 393216 * 65535) by (nonlinear_arith)
            requires
                units <= 0x1_0000_0000_0000_0000_0000u128 * 393216,
                scale <= 65535,
        ;
        let need = units * (scale as u128);
        assert(need == (text@.len() + 1) * UNITS_PER_CHAR * 4 * scale);
        let bound = DRAW_BOUND as u128;
        assert(bound == 0x4000_0000);
        assert(bound * span <= 0x4000_0000 * 65535) by (nonlinear_arith)
            requires
                bound == 0x4000_0000,
                span <= 65535,
        ;
        need <= bound * span
    }

    /// Whether every character of `text` can be laid out with this face.
    pub fn renders(&self, text: &str) -> (r: bool)
        ensures
            r == renders(self@, text@),
    {
        let n = text.unicode_len();
        let count = glyph_count(&self.data);
        let mut i: usize = 0;
        while i < n
            invariant
                n == text@.len(),
                count == glyph_count_of(self@),
                forall|j: int| 0 <= j < i ==> char_renders(self@, #[trigger] text@[j]),
            decreases n - i,
        {
            let c = text.get_char(i);
            let g = match glyph_index(&self.data, c) {
                Some(g) => g,
                None => 0,
            };
            let ok = match count {
                Some(total) => g < total && hor_advance(&self.data, g).is_some() && hor_bearing(
                    &self.data,
                    g,
                ).is_some(),
                None => false,
            };
            if !ok {
                assert(!char_renders(self@, text@[i as int]));
                return false;
            }
            i = i + 1;
        }
        true
    }
}

/// Relies on ttf_parser's Face::from_slice and Face::glyph_index, the parse
/// and the lookup that rusttype makes for the same data.
#[verifier::external_body]
fn glyph_index(data: &Vec<u8>, c: char) -> (r: Option<u16>)
    ensures
        r == glyph_index_of(data@, c),
{
    owned_ttf_parser::Face::from_slice(data, 0).ok().and_then(|f| f.glyph_index(c)).map(|g| g.0)
}

/// Relies on ttf_parser's Face::from_slice and Face::ascender, which rusttype
/// reads for its vertical metrics and scale factor.
#[verifier::external_body]
fn ascender(data: &Vec<u8>) -> (r: Option<i16>)
    ensures
        r == ascender_of(data@),
{
    owned_ttf_parser::Face::from_slice(data, 0).ok().map(|f| f.ascender())
}

/// Relies on ttf_parser's Face::from_slice and Face::descender, which rusttype
/// reads for its vertical metrics and scale factor.
#[verifier::external_body]
fn descender(data: &Vec<u8>) -> (r: Option<i16>)
    ensures
        r == descender_of(data@),
{
    owned_ttf_parser::Face::from_slice(data, 0).ok().map(|f| f.descender())
}

/// Relies on ttf_parser's Face::from_slice and Face::number_of_glyphs.
#[verifier::external_body]
fn glyph_count(data: &Vec<u8>) -> (r: Option<u16>)
    ensures
        r == glyph_count_of(data@),
{
    owned_ttf_parser::Face::from_slice(data, 0).ok().map(|f| f.number_of_glyphs())
}

/// Relies on ttf_parser's Face::from_slice and Face::glyph_hor_advance, which
/// rusttype unwraps when it lays a glyph out.
#[verifier::external_body]
fn hor_advance(data: &Vec<u8>, g: u16) -> (r: Option<u16>)
    ensures
        r == hor_advance_of(data@, g),
{
    let g = owned_ttf_parser::GlyphId(g);
    owned_ttf_parser::Face::from_slice(data, 0).ok().and_then(|f| f.glyph_hor_advance(g))
}

/// Relies on ttf_parser's Face::from_slice and Face::glyph_hor_side_bearing,
/// which rusttype unwraps when it lays a glyph out.
#[verifier::external_body]
fn hor_bearing(data: &Vec<u8>, g: u16) -> (r: Option<i16>)
    ensures
        r == hor_bearing_of(data@, g),
{
    let g = owned_ttf_parser::GlyphId(g);
    owned_ttf_parser::Face::from_slice(data, 0).ok().and_then(|f| f.glyph_hor_side_bearing(g))
}

/// Relies on imageproc::drawing::text_size: the glyph layout's pixel extent,
/// which depends on the face, the scale and the text alone. Both sizes start at
/// zero and only grow, so they are never negative, and an empty text has none.
/// Laying out a character panics unless the face has a glyph with horizontal
/// metrics for it.
#[verifier::external_body]
fn measure_text(face: &FontFace, scale: u16, text: &str) -> (r: (i32, i32))
    requires
        renders(face@, text@),
        layout_fits(face@, scale, text@),
    ensures
        r == text_extent(face@, scale, text@),
        r.0 >= 0,
        r.1 >= 0,
        text@.len() == 0 ==> r == (0i32, 0i32),
{
    imageproc::drawing::text_size(rusttype::Scale::uniform(From::from(scale)), &face.font, text)
}

/// Whether a `w` by `h` canvas can be allocated; see `fits_in_memory`.
pub fn fits_pixels(w: u32, h: u32) -> (r: bool)
    ensures
        r == fits_in_memory(w, h),
{
    assert(w * h <= u64::MAX) by (nonlinear_arith)
        requires
            w <= u32::MAX,
            h <= u32::MAX,
    ;
    let area = (w as u64) * (h as u64);
    let cap = (usize::MAX / 4) as u64;
    assert(4 * w * h == 4 * area) by (nonlinear_arith)
        requires
            area == w * h,
    ;
    assert(area <= cap <==> 4 * area <= usize::MAX);
    area <= cap
}

/// Relies on image::ImageBuffer::new: a fully transparent black image of the
/// given size. It panics when the buffer length overflows `usize`.
#[verifier::external_body]
pub(crate) fn blank_image(w: u32, h: u32) -> (r: Canvas)
    requires
        fits_in_memory(w, h),
    ensures
        image_size(r) == (w, h),
        image_pixels(r) == filled((w, h), [0u8, 0u8, 0u8, 0u8]),
{
    Canvas { img: image::RgbaImage::new(w, h) }
}

/// Relies on image::ImageBuffer::from_pixel: an image of the given size whose
/// every pixel is `color`. It panics when the buffer length overflows `usize`.
#[verifier::external_body]
pub(crate) fn filled_image(w: u32, h: u32, color: [u8; 4]) -> (r: Canvas)
    requires
        fits_in_memory(w, h),
    ensures
        image_size(r) == (w, h),
        image_pixels(r) == filled((w, h), color),
{
    Canvas { img: image::RgbaImage::from_pixel(w, h, image::Rgba(color)) }
}

/// Relies on image::ImageBuffer::dimensions.
#[verifier::external_body]
pub(crate) fn dimensions(img: &Canvas) -> (r: (u32, u32))
    ensures
        r == image_size(*img),
{
    img.img.dimensions()
}

/// Relies on image::imageops::horizontal_gradient: it overwrites every pixel;
/// every column is one colour, each channel interpolated from `from` at column
/// 0 to `to` at the last column and so lying between the two; the ratio 0 gives
/// `from` and the ratio 1 gives `to` exactly. On a one-column image the ratio is
/// 0 / 0 and the conversion back to a channel panics.
#[verifier::external_body]
pub(crate) fn paint_horizontal_gradient(img: &mut Canvas, from: [u8; 4], to: [u8; 4])
    requires
        image_size(*old(img)).0 != 1,
    ensures
        image_size(*final(img)) == image_size(*old(img)),
        image_pixels(*final(img)) == gradient_of(image_size(*old(img)), from, to),
        image_pixels(*final(img)).dom() == grid(image_size(*old(img))),
        forall|x: u32, y: u32|
            #![trigger image_pixels(*final(img))[(x, y)]]
            x < image_size(*old(img)).0 && y < image_size(*old(img)).1 ==> {
                &&& image_pixels(*final(img))[(x, y)] == image_pixels(*final(img))[(x, 0u32)]
                &&& forall|c: int|
                    0 <= c < 4 ==> {
                        ||| from[c] <= #[trigger] image_pixels(*final(img))[(x, y)][c] <= to[c]
                        ||| to[c] <= image_pixels(*final(img))[(x, y)][c] <= from[c]
                    }
            },
        forall|y: u32|
            y < image_size(*old(img)).1 && image_size(*old(img)).0 >= 2 ==> {
                &&& #[trigger] image_pixels(*final(img))[(0u32, y)] == from
                &&& image_pixels(*final(img))[((image_size(*old(img)).0 - 1) as u32, y)] == to
            },
{
    image::imageops::horizontal_gradient(&mut img.img, &image::Rgba(from), &image::Rgba(to))
}

/// Relies on image::imageops::resize with the Catmull-Rom filter: an image of
/// exactly the asked size, whose pixels depend on the source's alone.
#[verifier::external_body]
pub(crate) fn resized(img: &Canvas, w: u32, h: u32) -> (r: Canvas)
    requires
        w >= 1,
        h >= 1,
        image_size(*img).0 >= 1,
        image_size(*img).1 >= 1,
        fits_in_memory(w, h),
    ensures
        image_size(r) == (w, h),
        image_pixels(r) == resize_of(image_size(*img), image_pixels(*img), w, h),
        image_pixels(r).dom() == grid((w, h)),
{
    Canvas { img: image::imageops::resize(&img.img, w, h, image::imageops::FilterType::CatmullRom) }
}

/// Relies on image::imageops::crop_imm, copied out by SubImage::to_image: the
/// `w` by `h` block whose top left corner is `(x, y)`. Within bounds the block
/// is taken as asked.
#[verifier::external_body]
pub(crate) fn cropped(img: &Canvas, x: u32, y: u32, w: u32, h: u32) -> (r: Canvas)
    requires
        x + w <= image_size(*img).0,
        y + h <= image_size(*img).1,
    ensures
        image_size(r) == (w, h),
        image_pixels(r).dom() == grid((w, h)),
        forall|i: u32, j: u32|
            i < w && j < h ==> #[trigger] image_pixels(r)[(i, j)] == image_pixels(*img)[(
                (x + i) as u32,
                (y + j) as u32,
            )],
{
    Canvas { img: image::imageops::crop_imm(&img.img, x, y, w, h).to_image() }
}

/// Relies on image::imageops::overlay: blends `top` onto `bottom` with its top
/// left corner at `(x, y)`, clipped to `bottom`, whose size stays. Outside the
/// placed `top` nothing changes; within it, a transparent pixel of `top` leaves
/// the pixel below and an opaque one replaces it (Rgba's blend).
#[verifier::external_body]
pub(crate) fn overlay(bottom: &mut Canvas, top: &Canvas, x: i64, y: i64)
    ensures
        image_size(*final(bottom)) == image_size(*old(bottom)),
        image_pixels(*final(bottom)) == overlaid(
            image_size(*old(bottom)),
            image_pixels(*old(bottom)),
            image_size(*top),
            image_pixels(*top),
            x,
            y,
        ),
        image_pixels(*final(bottom)).dom() == image_pixels(*old(bottom)).dom(),
        forall|p: (u32, u32)|
            #![trigger image_pixels(*final(bottom))[p]]
            grid(image_size(*old(bottom))).contains(p) ==> {
                let tp = ((p.0 - x) as u32, (p.1 - y) as u32);
                let inside = 0 <= p.0 - x < image_size(*top).0 && 0 <= p.1 - y < image_size(*top).1;
                &&& !inside ==> image_pixels(*final(bottom))[p] == image_pixels(*old(bottom))[p]
                &&& inside && image_pixels(*top)[tp][3] == 0 ==> image_pixels(*final(bottom))[p]
                    == image_pixels(*old(bottom))[p]
                &&& inside && image_pixels(*top)[tp][3] == 255 ==> image_pixels(*final(bottom))[p]
                    == image_pixels(*top)[tp]
            },
{
    image::imageops::overlay(&mut bottom.img, &top.img, x, y)
}

/// Relies on imageproc::drawing::draw_text_mut: draws `text` in place, with
/// the layout's origin at `(x, y)`, clipped to the canvas, whose size stays.
/// Laying out panics on a character without a glyph with horizontal metrics,
/// and its pixel arithmetic in `i32` overflows unless the layout fits; there
/// every glyph box lies within `DRAW_BOUND / 2` of the origin. Each glyph
/// pixel's offset is added to `x` and `y` in `i32`; the offsets
/// reach right and down no further than the text's extent.
#[verifier::external_body]
pub(crate) fn draw_text(
    canvas: &mut Canvas,
    color: [u8; 4],
    x: i32,
    y: i32,
    face: &FontFace,
    scale: u16,
    text: &str,
)
    requires
        renders(face@, text@),
        layout_fits(face@, scale, text@),
        text@.len() > 0 ==> drawable(x as int, y as int, text_extent(face@, scale, text@)),
    ensures
        image_size(*final(canvas)) == image_size(*old(canvas)),
        image_pixels(*final(canvas)) == text_drawn(
            image_size(*old(canvas)),
            image_pixels(*old(canvas)),
            color,
            x,
            y,
            face@,
            scale,
            text@,
        ),
        image_pixels(*final(canvas)).dom() == image_pixels(*old(canvas)).dom(),
{
    let scale = rusttype::Scale::uniform(From::from(scale));
    let color = image::Rgba(color);
    imageproc::drawing::draw_text_mut(&mut canvas.img, color, x, y, scale, &face.font, text)
}

/// Relies on imageproc::drawing::draw_filled_circle_mut: fills a disc in place,
/// clipped to the canvas, whose size stays. It adds the radius to the centre's
/// coordinates, and doubles the running offsets, in `i32`.
#[verifier::external_body]
pub(crate) fn draw_disc(canvas: &mut Canvas, center: (i32, i32), radius: i32, color: [u8; 4])
    requires
        0 <= radius < DRAW_BOUND,
        -DRAW_BOUND <= center.0 <= DRAW_BOUND,
        -DRAW_BOUND <= center.1 <= DRAW_BOUND,
        i32::MIN < center.0 - radius - 1,
        center.0 + radius + 1 < i32::MAX,
        i32::MIN < center.1 - radius - 1,
        center.1 + radius + 1 < i32::MAX,
    ensures
        image_size(*final(canvas)) == image_size(*old(canvas)),
        image_pixels(*final(canvas)) == disc_drawn(
            image_size(*old(canvas)),
            image_pixels(*old(canvas)),
            center,
            radius,
            color,
        ),
        image_pixels(*final(canvas)).dom() == image_pixels(*old(canvas)).dom(),
{
    imageproc::drawing::draw_filled_circle_mut(&mut canvas.img, center, radius, image::Rgba(color))
}

/// Relies on image::load_from_memory, whose result is taken as RGBA by
/// DynamicImage::into_rgba8: the format is guessed from the data, and the
/// outcome depends on the data alone.
#[verifier::external_body]
pub(crate) fn decode_image(data: &[u8]) -> (r: Result<Canvas, image::ImageError>)
    ensures
        r is Ok <==> decoded_of(data@) is Some,
        r matches Ok(img) ==> decoded_of(data@) == Some((image_size(img), image_pixels(img))),
        r matches Ok(img) ==> image_pixels(img).dom() == grid(image_size(img)),
{
    image::load_from_memory(data).map(|img| Canvas { img: img.into_rgba8() })
}

/// Relies on image::ImageBuffer::write_to with the JPEG format, into a buffer
/// in memory: the outcome depends on the picture alone.
#[verifier::external_body]
pub(crate) fn encode_jpeg(img: &Canvas) -> (r: Result<Vec<u8>, image::ImageError>)
    ensures
        r is Ok <==> jpeg_of(image_size(*img), image_pixels(*img)) is Some,
        r matches Ok(bytes) ==> jpeg_of(image_size(*img), image_pixels(*img)) == Some(bytes@),
{
    let mut out = std::io::Cursor::new(Vec::new());
    img.img.write_to(&mut out, image::ImageFormat::Jpeg).map(|_| out.into_inner())
}

/// Relies on str::to_uppercase: the result depends on the characters alone.
#[verifier::external_body]
pub(crate) fn uppercase(text: &str) -> (r: String)
    ensures
        r@ == upper_of(text@),
{
    text.to_uppercase()
}

/// Relies on image::ImageBuffer::get_pixel, which panics outside the image.
#[verifier::external_body]
fn pixel_of(img: &Canvas, x: u32, y: u32) -> (r: [u8; 4])
    requires
        x < image_size(*img).0,
        y < image_size(*img).1,
    ensures
        r == image_pixels(*img)[(x, y)],
{
    img.img.get_pixel(x, y).0
}

impl Canvas {
    /// Decodes image data in any format the image crate recognises.
    pub fn decode(data: &[u8]) -> (r: Result<Canvas, crate::ErrorKind>)
        ensures
            r is Err ==> r matches Err(crate::ErrorKind::ImgErr(_)),
            r is Ok <==> decoded_of(data@) is Some,
            r matches Ok(img) ==> decoded_of(data@) == Some((image_size(img), image_pixels(img))),
            r matches Ok(img) ==> image_pixels(img).dom() == grid(image_size(img)),
    {
        match decode_image(data) {
            Ok(img) => Ok(img),
            Err(e) => Err(crate::ErrorKind::ImgErr(e)),
        }
    }

    /// The width and height in pixels.
    pub fn dimensions(&self) -> (r: (u32, u32))
        ensures
            r == image_size(*self),
    {
        dimensions(self)
    }

    pub fn width(&self) -> (r: u32)
        ensures
            r == image_size(*self).0,
    {
        dimensions(self).0
    }

    pub fn height(&self) -> (r: u32)
        ensures
            r == image_size(*self).1,
    {
        dimensions(self).1
    }

    /// The pixel at column `x`, row `y`, or `None` outside the canvas.
    pub fn pixel(&self, x: u32, y: u32) -> (r: Option<[u8; 4]>)
        ensures
            x < image_size(*self).0 && y < image_size(*self).1 <==> r is Some,
            r matches Some(p) ==> p == image_pixels(*self)[(x, y)],
    {
        let (w, h) = dimensions(self);
        if x < w && y < h {
            Some(pixel_of(self, x, y))
        } else {
            None
        }
    }
}

} // verus!
