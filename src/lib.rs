//! Turns a short quote, an attribution and an avatar into one composed picture.
//!
//! The crate is organised leaf-first: `raster` holds the calls into the font and
//! image crates, `text` lays text out into lines, and the compositors build the
//! avatar, the gradient strip and the text panel that `QuoteProducer` stacks
//! onto one canvas.

use vstd::prelude::*;

pub mod raster;
pub mod text;
pub mod background;
pub mod transition;
pub mod avatar;
pub mod quotes;

use crate::avatar::{avatar_outcome, identity_outcome, Avatar, TgAvatar};
use crate::background::{Background, DEFAULT_HEIGHT, DEFAULT_WIDTH};
use crate::quotes::{panel_outcome, quote_limit, text_panel_width, Quotes, DEFAULT_GAP};
use crate::raster::{
    decode_image, decoded_of, encode_jpeg, filled, fits_in_memory, fits_pixels, glyph_count_of,
    jpeg_of, overlaid, overlay, picture, yields, Canvas, FontFace, Picture, DRAW_BOUND,
};
use crate::text::{TextDrawInfo, TextStyleView};
use crate::transition::{strip_offset, strip_outcome, strip_width_of, Transition};

verus! {

/// Why a picture could not be made.
#[derive(Debug)]
pub enum ErrorKind {
    /// The image crate could not decode the avatar or encode the result.
    ImgErr(image::ImageError),
    /// The font data holds no usable face.
    FontErr,
    /// A wrap limit was zero or negative.
    NonPositiveLimit,
    /// The laid-out lines are together taller than an `i32` can hold.
    TextTooTall,
    /// An image, or a size derived from one, has no pixels.
    EmptyImage,
    /// A size is beyond what the pixel arithmetic or memory can hold.
    ImageTooLarge,
    /// The avatar is too narrow to carry a gradient strip of two columns.
    AvatarTooNarrow,
    /// The avatar leaves no room for the text panel.
    NoTextRegion,
    /// A generated avatar was asked for with an empty display name.
    EmptyName,
    /// The face has no glyph with horizontal metrics for a character of a text.
    MissingGlyph,
    /// The face and scale would lay a text out beyond the pixel arithmetic's
    /// range, or the face's ascender is not above its descender.
    LayoutOutOfRange,
}

/// The quote's scale, in pixels per em, unless told otherwise.
pub const DEFAULT_FONT_SCALE: u16 = 120;

/// The attribution is drawn at the quote's scale divided by this.
pub const ATTRIBUTION_SCALE_DIVISOR: u16 = 3;

/// The scale of the initial on a generated avatar.
pub const LETTER_SCALE: u16 = 300;

/// The two weights that the picture is set in: bold for the quote and the
/// initial, light for the attribution.
pub struct FontSet {
    pub bold: FontFace,
    pub light: FontFace,
}

/// Where the avatar comes from: encoded image data in memory, or an identity
/// for which a disc with the display name's initial is drawn.
pub enum SpooledData<'data> {
    InMem(&'data [u8]),
    TgRandom { id: u64, name: String },
}

/// An avatar source as plain values.
pub enum SpooledView {
    InMem(Seq<u8>),
    TgRandom { id: u64, name: Seq<char> },
}

pub open spec fn spooled_view(source: SpooledData) -> SpooledView {
    match source {
        SpooledData::InMem(data) => SpooledView::InMem(data@),
        SpooledData::TgRandom { id, name } => SpooledView::TgRandom { id, name: name@ },
    }
}

/// A value that can stand as an avatar source.
pub trait AsSpooledData {
    /// The source that the value stands for.
    spec fn as_source(&self) -> SpooledView;

    fn as_spooled_data(&self) -> (r: SpooledData<'_>)
        ensures
            spooled_view(r) == self.as_source(),
    ;
}

/// Encoded image data stands for itself, held in memory.
impl AsSpooledData for [u8] {
    open spec fn as_source(&self) -> SpooledView {
        SpooledView::InMem(self@)
    }

    fn as_spooled_data(&self) -> (r: SpooledData<'_>) {
        SpooledData::InMem(self)
    }
}

/// A source stands for itself.
impl<'data> AsSpooledData for SpooledData<'data> {
    open spec fn as_source(&self) -> SpooledView {
        spooled_view(*self)
    }

    fn as_spooled_data(&self) -> (r: SpooledData<'_>) {
        match self {
            SpooledData::InMem(m) => SpooledData::InMem(m),
            SpooledData::TgRandom { id, name } => SpooledData::TgRandom {
                id: *id,
                name: name.clone(),
            },
        }
    }
}

/// What one picture shows.
pub struct ImgConfig<'a> {
    pub quote: String,
    pub username: String,
    pub avatar: SpooledData<'a>,
}

impl<'a> ImgConfig<'a> {
    pub fn new(quote: &str, username: &str, avatar: SpooledData<'a>) -> (r: ImgConfig<'a>)
        ensures
            r.quote@ == quote@,
            r.username@ == username@,
            r.avatar == avatar,
    {
        ImgConfig { quote: quote.to_owned(), username: username.to_owned(), avatar }
    }
}

/// Whether a canvas of `size` suits the pixel arithmetic: not empty, within
/// `DRAW_BOUND` on both axes, and allocatable.
pub open spec fn canvas_size_ok(size: (u32, u32)) -> bool {
    &&& size.0 >= 1
    &&& size.1 >= 1
    &&& size.0 <= DRAW_BOUND
    &&& size.1 <= DRAW_BOUND
    &&& fits_in_memory(size.0, size.1)
}

/// Makes pictures of a fixed size with a fixed pair of faces.
pub struct QuoteProducer {
    pub output_size: (u32, u32),
    pub font_scale: u16,
    pub font: FontSet,
}

impl QuoteProducer {
    /// A producer with the given bold and light font data, 1920 by 1080 and at
    /// scale 120. Fails when either data holds no usable face.
    pub fn new(bold: Vec<u8>, light: Vec<u8>) -> (r: Result<QuoteProducer, ErrorKind>)
        ensures
            r is Ok <==> glyph_count_of(bold@) is Some && glyph_count_of(light@) is Some,
            r is Err ==> r matches Err(ErrorKind::FontErr),
            r matches Ok(p) ==> {
                &&& p.output_size == (DEFAULT_WIDTH, DEFAULT_HEIGHT)
                &&& p.font_scale == DEFAULT_FONT_SCALE
                &&& p.font.bold@ == bold@
                &&& p.font.light@ == light@
            },
    {
        let bold = match FontFace::from_bytes(bold) {
            Some(f) => f,
            None => return Err(ErrorKind::FontErr),
        };
        let light = match FontFace::from_bytes(light) {
            Some(f) => f,
            None => return Err(ErrorKind::FontErr),
        };
        Ok(
            QuoteProducer {
                output_size: (DEFAULT_WIDTH, DEFAULT_HEIGHT),
                font_scale: DEFAULT_FONT_SCALE,
                font: FontSet { bold, light },
            },
        )
    }

    pub fn output_size(self, width: u32, height: u32) -> (r: QuoteProducer)
        ensures
            r.output_size == (width, height),
            r.font_scale == self.font_scale,
            r.font == self.font,
    {
        QuoteProducer { output_size: (width, height), ..self }
    }

    pub fn font_scale(self, font_scale: u16) -> (r: QuoteProducer)
        ensures
            r.output_size == self.output_size,
            r.font_scale == font_scale,
            r.font == self.font,
    {
        QuoteProducer { font_scale, ..self }
    }

    /// The style the quote is drawn in: white, bold, at the producer's scale.
    pub open spec fn quote_style(&self, quote: Seq<char>) -> TextStyleView {
        TextStyleView {
            text: quote,
            color: [255u8, 255u8, 255u8, 255u8],
            scale: self.font_scale,
            font: self.font.bold@,
        }
    }

    /// The style the attribution is drawn in: grey, light, at a third of the
    /// scale.
    pub open spec fn user_style(&self, user: Seq<char>) -> TextStyleView {
        TextStyleView {
            text: user,
            color: [147u8, 147u8, 147u8, 255u8],
            scale: (self.font_scale / ATTRIBUTION_SCALE_DIVISOR) as u16,
            font: self.font.light@,
        }
    }

    /// The style of a generated avatar's label, whose first character it
    /// draws: the display name, white, bold, at `LETTER_SCALE`.
    pub open spec fn letter_style(&self, name: Seq<char>) -> TextStyleView {
        TextStyleView {
            text: name,
            color: [255u8, 255u8, 255u8, 255u8],
            scale: LETTER_SCALE,
            font: self.font.bold@,
        }
    }

    /// What resolving `source` comes to; `None` when its data does not decode.
    pub open spec fn avatar_source_outcome(&self, source: SpooledData) -> Option<
        Result<Picture, ErrorKind>,
    > {
        match source {
            SpooledData::InMem(data) => match decoded_of(data@) {
                None => None,
                Some(d) => Some(avatar_outcome(Picture { size: d.0, pixels: d.1 }, self.output_size.1)),
            },
            SpooledData::TgRandom { id, name } => Some(
                if name@.len() == 0 {
                    Err(ErrorKind::EmptyName)
                } else {
                    identity_outcome(id, self.output_size, self.letter_style(name@))
                },
            ),
        }
    }

    /// What composing comes to: a background of the output size in opaque
    /// black, the avatar blended on at the origin, the gradient strip with its
    /// right edge on the avatar's, and the text panel right of the avatar.
    pub open spec fn compose_outcome(&self, quote: Seq<char>, user: Seq<char>, avatar: Picture) -> Result<
        Picture,
        ErrorKind,
    > {
        let size = self.output_size;
        let aw = avatar.size.0;
        let strip = strip_outcome(aw, size.1, [0u8, 0u8, 0u8, 0u8], [0u8, 0u8, 0u8, 255u8]);
        let panel = panel_outcome(
            aw,
            size,
            DEFAULT_GAP,
            self.quote_style(quote),
            self.user_style(user),
        );
        if size.0 == 0 || size.1 == 0 {
            Err(ErrorKind::EmptyImage)
        } else if !canvas_size_ok(size) {
            Err(ErrorKind::ImageTooLarge)
        } else if aw >= size.0 {
            Err(ErrorKind::NoTextRegion)
        } else if quote_limit(size.0 - aw, DEFAULT_GAP as int) <= 0 {
            Err(ErrorKind::NonPositiveLimit)
        } else if strip is Err {
            Err(strip.get_Err_0())
        } else if panel is Err {
            Err(panel.get_Err_0())
        } else {
            let s = strip.get_Ok_0();
            let p = panel.get_Ok_0();
            let p1 = overlaid(size, filled(size, [0u8, 0u8, 0u8, 255u8]), avatar.size, avatar.pixels, 0, 0);
            let p2 = overlaid(size, p1, s.size, s.pixels, (aw - strip_width_of(aw)) as i64, 0);
            Ok(Picture { size, pixels: overlaid(size, p2, p.size, p.pixels, aw as i64, 0) })
        }
    }

    /// What making the picture comes to before encoding; `None` when the
    /// avatar's data does not decode.
    pub open spec fn picture_outcome(&self, config: ImgConfig) -> Option<Result<Picture, ErrorKind>> {
        let size = self.output_size;
        if size.0 == 0 || size.1 == 0 {
            Some(Err(ErrorKind::EmptyImage))
        } else if !canvas_size_ok(size) {
            Some(Err(ErrorKind::ImageTooLarge))
        } else {
            match self.avatar_source_outcome(config.avatar) {
                None => None,
                Some(Err(e)) => Some(Err(e)),
                Some(Ok(a)) => Some(self.compose_outcome(config.quote@, config.username@, a)),
            }
        }
    }

    /// Checks the output size: empty is one error, too large another.
    fn check_size(&self) -> (r: Result<(), ErrorKind>)
        ensures
            r is Ok <==> canvas_size_ok(self.output_size),
            self.output_size.0 == 0 || self.output_size.1 == 0 ==> (r matches Err(
                ErrorKind::EmptyImage,
            )),
            r is Err && self.output_size.0 >= 1 && self.output_size.1 >= 1 ==> (r matches Err(
                ErrorKind::ImageTooLarge,
            )),
    {
        let (w, h) = self.output_size;
        if w == 0 || h == 0 {
            return Err(ErrorKind::EmptyImage);
        }
        if w > DRAW_BOUND as u32 || h > DRAW_BOUND as u32 || !fits_pixels(w, h) {
            return Err(ErrorKind::ImageTooLarge);
        }
        Ok(())
    }

    /// The canvas-ready avatar for `source`: decoded data resized and cropped,
    /// or a generated disc, which is not cropped; see `avatar_source_outcome`.
    pub fn resolve_avatar(&self, source: &SpooledData) -> (r: Result<Canvas, ErrorKind>)
        requires
            canvas_size_ok(self.output_size),
        ensures
            self.avatar_source_outcome(*source) is None ==> (r matches Err(ErrorKind::ImgErr(_))),
            self.avatar_source_outcome(*source) matches Some(o) ==> yields(r, o),
    {
        let (w, h) = self.output_size;
        match source {
            SpooledData::InMem(bytes) => {
                let img = match decode_image(bytes) {
                    Ok(img) => img,
                    Err(e) => return Err(ErrorKind::ImgErr(e)),
                };
                Avatar::new(img, h).build()
            },
            SpooledData::TgRandom { id, name } => {
                if name.as_str().unicode_len() == 0 {
                    return Err(ErrorKind::EmptyName);
                }
                let info = TextDrawInfo::new(
                    name.as_str(),
                    [255, 255, 255, 255],
                    LETTER_SCALE,
                    &self.font.bold,
                );
                let img = match TgAvatar::new(*id, (w, h), info).build() {
                    Ok(img) => img,
                    Err(e) => return Err(e),
                };
                Avatar::new(img, h).enable_crop(false).build()
            },
        }
    }

    /// Lays the avatar, the gradient strip and the text panel onto a fresh
    /// background, in that order; see `compose_outcome`.
    pub fn compose(&self, config: &ImgConfig, avatar: &Canvas) -> (r: Result<Canvas, ErrorKind>)
        ensures
            yields(r, self.compose_outcome(config.quote@, config.username@, picture(*avatar))),
    {
        match self.check_size() {
            Ok(()) => {},
            Err(e) => return Err(e),
        }
        let (w, h) = self.output_size;
        let avatar_width = avatar.width();
        let panel_w = match text_panel_width(w, avatar_width) {
            Ok(p) => p,
            Err(e) => return Err(e),
        };
        if panel_w <= 2 * DEFAULT_GAP {
            return Err(ErrorKind::NonPositiveLimit);
        }
        assert(4 * (avatar_width / 3) * h <= 4 * w * h && 4 * (w - avatar_width) * h <= 4 * w * h)
            by (nonlinear_arith)
            requires
                avatar_width < w,
                h >= 1,
        ;
        let mut background = Background::new().output_dimension((w, h)).build();
        overlay(&mut background, avatar, 0, 0);
        let gradient = match Transition::new(avatar_width, h).build() {
            Ok(g) => g,
            Err(e) => return Err(e),
        };
        overlay(&mut background, &gradient, strip_offset(avatar_width) as i64, 0);
        let quote_info = TextDrawInfo::new(
            config.quote.as_str(),
            [255, 255, 255, 255],
            self.font_scale,
            &self.font.bold,
        );
        let user_info = TextDrawInfo::new(
            config.username.as_str(),
            [147, 147, 147, 255],
            self.font_scale / ATTRIBUTION_SCALE_DIVISOR,
            &self.font.light,
        );
        let quotes = match Quotes::new(avatar_width, (w, h), quote_info, user_info).build() {
            Ok(q) => q,
            Err(e) => return Err(e),
        };
        overlay(&mut background, &quotes, avatar_width as i64, 0);
        Ok(background)
    }

    /// The finished picture, encoded as JPEG; see `picture_outcome`.
    pub fn make_image(&self, config: &ImgConfig) -> (r: Result<Vec<u8>, ErrorKind>)
        ensures
            self.picture_outcome(*config) is None ==> (r matches Err(ErrorKind::ImgErr(_))),
            self.picture_outcome(*config) matches Some(o) ==> encodes(r, o),
    {
        match self.check_size() {
            Ok(()) => {},
            Err(e) => return Err(e),
        }
        let avatar = match self.resolve_avatar(&config.avatar) {
            Ok(a) => a,
            Err(e) => return Err(e),
        };
        let picture = match self.compose(config, &avatar) {
            Ok(p) => p,
            Err(e) => return Err(e),
        };
        match encode_jpeg(&picture) {
            Ok(bytes) => Ok(bytes),
            Err(e) => Err(ErrorKind::ImgErr(e)),
        }
    }
}

/// Whether the encoded outcome `r` follows from the picture outcome `o`: an
/// error passes through, and a picture gives its JPEG encoding, or the image
/// crate's error when it cannot be encoded.
pub open spec fn encodes(r: Result<Vec<u8>, ErrorKind>, o: Result<Picture, ErrorKind>) -> bool {
    match o {
        Err(e) => r == Err::<Vec<u8>, ErrorKind>(e),
        Ok(p) => match r {
            Ok(bytes) => jpeg_of(p.size, p.pixels) == Some(bytes@),
            Err(e) => jpeg_of(p.size, p.pixels) is None && e is ImgErr,
        },
    }
}

} // verus!
