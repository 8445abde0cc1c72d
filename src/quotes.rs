//! The text panel right of the avatar: the quote, centred, and the attribution
//! below it.

use vstd::prelude::*;

use crate::raster::{
    blank_image, draw_text, drawable, filled, fits_in_memory, fits_pixels, grid, image_pixels,
    image_size, layout_fits, renders, text_drawn, text_extent, yields, Canvas, Picture, DRAW_BOUND,
};
use crate::text::{
    layout, lemma_sum_prefix, measured_line, sum_heights, Line, LineView, Lines, TextDrawInfo,
    TextStyleView,
};
use crate::ErrorKind;

verus! {

/// The inset, in pixels, kept free on either side of the panel's text.
pub const DEFAULT_GAP: u32 = 30;

/// Half of `v`, rounded toward zero as integer division in Rust does.
pub open spec fn half(v: int) -> int {
    if v >= 0 {
        v / 2
    } else {
        -((-v) / 2)
    }
}

//                                                          The X
// <--                 background width                    -->|
// <- - half width          ->|
// <-        + other factor    ->|
// <-    - w / 2  ->|
/// The left edge for a text `text_w` wide to be centred on a panel `bg_w`
/// wide, moved right by `other_factor`.
pub fn centered_text_x(bg_w: u32, text_w: i32, other_factor: u32) -> (r: i32)
    requires
        text_w >= 0,
        bg_w / 2 + other_factor <= i32::MAX,
    ensures
        r == bg_w / 2 + other_factor - half(text_w as int),
{
    (bg_w / 2) as i32 + (other_factor as i32) - (text_w / 2)
}

/// The left edge of a quote line: centred, then moved left by the width of its
/// first character to make up for that glyph's left bearing.
pub fn quote_line_x(panel_w: u32, line_w: i32, first_char_width: i32, gap: u32) -> (r: i64)
    requires
        line_w >= 0,
        panel_w / 2 + gap <= i32::MAX,
    ensures
        r == panel_w / 2 + gap - half(line_w as int) - first_char_width,
{
    centered_text_x(panel_w, line_w, gap) as i64 - first_char_width as i64
}

/// The top of the quote block: its whole height above the panel's middle.
pub fn quote_top(bg_h: u32, quote_height: i32) -> (r: i64)
    ensures
        r == bg_h / 2 - quote_height,
{
    (bg_h / 2) as i64 - quote_height as i64
}

/// The attribution's top edge: three quarters of the way down.
pub fn attribution_y(bg_h: u32) -> (r: u32)
    ensures
        r == bg_h - bg_h / 4,
{
    bg_h - bg_h / 4
}

/// The width left for the text panel beside an avatar `avatar_width` wide on a
/// canvas `canvas_width` wide; an avatar as wide as the canvas leaves none.
pub fn text_panel_width(canvas_width: u32, avatar_width: u32) -> (r: Result<u32, ErrorKind>)
    ensures
        avatar_width >= canvas_width <==> (r matches Err(ErrorKind::NoTextRegion)),
        avatar_width < canvas_width ==> r == Ok::<u32, ErrorKind>(
            (canvas_width - avatar_width) as u32,
        ),
{
    if avatar_width >= canvas_width {
        Err(ErrorKind::NoTextRegion)
    } else {
        Ok(canvas_width - avatar_width)
    }
}

/// Where line `k` of a quote block is drawn on a panel `panel_w` by `bg_h`:
/// centred with the first-character correction, the block's whole height above
/// the middle, each line below the ones before it.
pub open spec fn quote_origin(
    lines: Seq<LineView>,
    k: int,
    panel_w: u32,
    bg_h: u32,
    gap: u32,
) -> (int, int) {
    (
        panel_w / 2 + gap - half(lines[k].width as int) - lines[k].first_char_width,
        bg_h / 2 - sum_heights(lines) + sum_heights(lines.take(k)),
    )
}

/// The origin of each line of a quote block; see `quote_origin`.
pub fn quote_origins(lines: &Lines, panel_w: u32, bg_h: u32, gap: u32) -> (r: Vec<(i64, i64)>)
    requires
        lines.wf(),
        panel_w / 2 + gap <= i32::MAX,
    ensures
        r@.len() == lines.lines_view().len(),
        forall|k: int|
            0 <= k < r@.len() ==> (#[trigger] r@[k].0 as int, r@[k].1 as int) == quote_origin(
                lines.lines_view(),
                k,
                panel_w,
                bg_h,
                gap,
            ),
{
    let (_, quote_height) = lines.size();
    let ghost all = lines.lines_view();
    let data = lines.lines();
    let n = data.len();
    let top = quote_top(bg_h, quote_height);
    let mut y = top;
    let mut origins: Vec<(i64, i64)> = Vec::new();
    let mut i: usize = 0;
    while i < n
        invariant
            n == data@.len(),
            all == data@.map_values(|l: Line| l@),
            all == lines.lines_view(),
            quote_height == sum_heights(all),
            forall|j: int|
                0 <= j < all.len() ==> (#[trigger] all[j]).width >= 0 && all[j].height >= 0,
            0 <= i <= n,
            y == top + sum_heights(all.take(i as int)),
            top == bg_h / 2 - quote_height,
            panel_w / 2 + gap <= i32::MAX,
            origins@.len() == i,
            forall|k: int|
                0 <= k < i ==> (#[trigger] origins@[k].0 as int, origins@[k].1 as int)
                    == quote_origin(all, k, panel_w, bg_h, gap),
        decreases n - i,
    {
        let line = &data[i];
        proof {
            assert(all[i as int] == line@);
            lemma_sum_prefix(all, i as int);
            lemma_sum_prefix(all, i + 1);
            assert(all.take(i + 1).drop_last() == all.take(i as int));
            assert(all.take(i + 1).last() == all[i as int]);
        }
        let x = quote_line_x(panel_w, line.width, line.first_char_width, gap);
        origins.push((x, y));
        y = y + line.height as i64;
        i = i + 1;
    }
    origins
}

/// The wrap limit for the quote: the panel's width less the inset on both
/// sides.
pub open spec fn quote_limit(panel_w: int, gap: int) -> int {
    panel_w - 2 * gap
}

/// The text panel of a picture whose background is `bg_dim` and whose avatar
/// is `avatar_width` wide.
pub struct Quotes<'a> {
    pub gap: u32,
    pub avatar_width: u32,
    pub bg_dim: (u32, u32),
    pub quote_info: TextDrawInfo<'a>,
    pub user_info: TextDrawInfo<'a>,
}

impl<'a> Quotes<'a> {
    pub fn new(
        avatar_width: u32,
        bg_dim: (u32, u32),
        quote_info: TextDrawInfo<'a>,
        user_info: TextDrawInfo<'a>,
    ) -> (r: Quotes<'a>)
        ensures
            r.gap == DEFAULT_GAP,
            r.avatar_width == avatar_width,
            r.bg_dim == bg_dim,
            r.quote_info == quote_info,
            r.user_info == user_info,
    {
        Quotes { gap: DEFAULT_GAP, avatar_width, bg_dim, quote_info, user_info }
    }

    pub fn gap(self, gap: u32) -> (r: Quotes<'a>)
        ensures
            r == (Quotes { gap, ..self }),
    {
        Quotes { gap, ..self }
    }

    /// The panel, `bg_dim.0 - avatar_width` by `bg_dim.1`, with the quote laid
    /// out in lines no wider than the panel less its insets, and the
    /// attribution on one line below; see `panel_outcome`.
    pub fn build(self) -> (r: Result<Canvas, ErrorKind>)
        ensures
            yields(
                r,
                panel_outcome(
                    self.avatar_width,
                    self.bg_dim,
                    self.gap,
                    self.quote_info@,
                    self.user_info@,
                ),
            ),
    {
        let ghost quote = self.quote_info@;
        let ghost user = self.user_info@;
        let (bg_w, bg_h) = self.bg_dim;
        let panel_w = match text_panel_width(bg_w, self.avatar_width) {
            Ok(w) => w,
            Err(e) => return Err(e),
        };
        if bg_w > DRAW_BOUND as u32 || bg_h > DRAW_BOUND as u32 || !fits_pixels(panel_w, bg_h) {
            return Err(ErrorKind::ImageTooLarge);
        }
        let limit = panel_w as i64 - 2 * (self.gap as i64);
        if limit <= 0 {
            return Err(ErrorKind::NonPositiveLimit);
        }
        let lines = match Lines::new(&self.quote_info, limit as i32) {
            Ok(lines) => lines,
            Err(e) => return Err(e),
        };
        if !self.user_info.font().renders(self.user_info.text()) {
            return Err(ErrorKind::MissingGlyph);
        }
        if !self.user_info.font().layout_fits(self.user_info.scale(), self.user_info.text()) {
            return Err(ErrorKind::LayoutOutOfRange);
        }
        let ghost size = (panel_w, bg_h);
        let ghost all = lines.lines_view();
        let mut canvas = blank_image(panel_w, bg_h);
        assert(filled(size, [0u8, 0u8, 0u8, 0u8]).dom() =~= grid(size));
        let origins = quote_origins(&lines, panel_w, bg_h, self.gap);
        let data = lines.lines();
        let n = data.len();
        let mut i: usize = 0;
        while i < n
            invariant
                n == data@.len(),
                n == origins@.len(),
                all == data@.map_values(|l: Line| l@),
                n == all.len(),
                forall|k: int|
                    0 <= k < n ==> (#[trigger] origins@[k].0 as int, origins@[k].1 as int)
                        == quote_origin(all, k, panel_w, bg_h, self.gap),
                forall|k: int|
                    0 <= k < all.len() ==> {
                        &&& measured_line(quote.font, quote.scale, #[trigger] all[k])
                        &&& renders(quote.font, all[k].text)
                        &&& layout_fits(quote.font, quote.scale, all[k].text)
                    },
                quote == self.quote_info@,
                size == (panel_w, bg_h),
                0 <= i <= n,
                image_size(canvas) == size,
                image_pixels(canvas).dom() == grid(size),
                image_pixels(canvas) == quote_lines_drawn(
                    filled(size, [0u8, 0u8, 0u8, 0u8]),
                    size,
                    all,
                    i as nat,
                    panel_w,
                    bg_h,
                    self.gap,
                    quote,
                ),
            decreases n - i,
        {
            let (x, y) = origins[i];
            let line = &data[i];
            assert(all[i as int] == line@);
            if -(DRAW_BOUND as i64) <= x && x <= DRAW_BOUND as i64 && -(DRAW_BOUND as i64) <= y && y
                <= DRAW_BOUND as i64 && line.width <= DRAW_BOUND && line.height <= DRAW_BOUND {
                draw_text(
                    &mut canvas,
                    self.quote_info.color(),
                    x as i32,
                    y as i32,
                    self.quote_info.font(),
                    self.quote_info.scale(),
                    line.text.as_str(),
                );
            }
            i = i + 1;
        }
        let extent = self.user_info.font().measure(self.user_info.scale(), self.user_info.text());
        let x = centered_text_x(panel_w, extent.0, self.gap);
        let y = attribution_y(bg_h);
        if -DRAW_BOUND <= x && x <= DRAW_BOUND && y <= DRAW_BOUND as u32 && extent.0 <= DRAW_BOUND
            && extent.1 <= DRAW_BOUND {
            draw_text(
                &mut canvas,
                self.user_info.color(),
                x,
                y as i32,
                self.user_info.font(),
                self.user_info.scale(),
                self.user_info.text(),
            );
        }
        Ok(canvas)
    }
}

/// The pixels after the first `k` quote lines are drawn in `style`, each at
/// its `quote_origin`. A line is drawn when its origin and extent are within
/// `DRAW_BOUND`; a panel is no wider or taller than that bound, so a line whose
/// origin lies beyond it would fall wholly off the panel.
pub open spec fn quote_lines_drawn(
    pixels: Map<(u32, u32), [u8; 4]>,
    size: (u32, u32),
    lines: Seq<LineView>,
    k: nat,
    panel_w: u32,
    bg_h: u32,
    gap: u32,
    style: TextStyleView,
) -> Map<(u32, u32), [u8; 4]>
    decreases k,
{
    if k == 0 {
        pixels
    } else {
        let before = quote_lines_drawn(pixels, size, lines, (k - 1) as nat, panel_w, bg_h, gap, style);
        let o = quote_origin(lines, k - 1, panel_w, bg_h, gap);
        let l = lines[k - 1];
        if drawable(o.0, o.1, (l.width, l.height)) {
            text_drawn(size, before, style.color, o.0 as i32, o.1 as i32, style.font, style.scale, l.text)
        } else {
            before
        }
    }
}

/// What building the text panel comes to: the errors in the order they are
/// checked, else a transparent panel with the quote's lines drawn and the
/// attribution drawn centred at `attribution_y`.
pub open spec fn panel_outcome(
    avatar_width: u32,
    bg_dim: (u32, u32),
    gap: u32,
    quote: TextStyleView,
    user: TextStyleView,
) -> Result<Picture, ErrorKind> {
    let (bg_w, bg_h) = bg_dim;
    let panel_w = (bg_w - avatar_width) as u32;
    let size = (panel_w, bg_h);
    let limit = quote_limit(panel_w as int, gap as int);
    let lines = layout(quote.font, quote.scale, quote.text, limit);
    if avatar_width >= bg_w {
        Err(ErrorKind::NoTextRegion)
    } else if bg_w > DRAW_BOUND || bg_h > DRAW_BOUND || !fits_in_memory(panel_w, bg_h) {
        Err(ErrorKind::ImageTooLarge)
    } else if limit <= 0 {
        Err(ErrorKind::NonPositiveLimit)
    } else if !renders(quote.font, quote.text) {
        Err(ErrorKind::MissingGlyph)
    } else if !layout_fits(quote.font, quote.scale, quote.text) {
        Err(ErrorKind::LayoutOutOfRange)
    } else if sum_heights(lines) > i32::MAX {
        Err(ErrorKind::TextTooTall)
    } else if !renders(user.font, user.text) {
        Err(ErrorKind::MissingGlyph)
    } else if !layout_fits(user.font, user.scale, user.text) {
        Err(ErrorKind::LayoutOutOfRange)
    } else {
        let base = quote_lines_drawn(
            filled(size, [0u8, 0u8, 0u8, 0u8]),
            size,
            lines,
            lines.len(),
            panel_w,
            bg_h,
            gap,
            quote,
        );
        let extent = text_extent(user.font, user.scale, user.text);
        let x = panel_w / 2 + gap - half(extent.0 as int);
        let y = bg_h - bg_h / 4;
        let pixels = if drawable(x, y, extent) {
            text_drawn(size, base, user.color, x as i32, y as i32, user.font, user.scale, user.text)
        } else {
            base
        };
        Ok(Picture { size, pixels })
    }
}

} // verus!
