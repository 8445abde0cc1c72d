//! Greedy line breaking of a text against a pixel width budget.
//!
//! A pass walks the text one character at a time. The open line is always a
//! slice `text[start..pos]`; each step is told the extent of that slice grown by
//! the next character and the extent of the character alone, and decides
//! whether the line grows, is committed, or is closed by an explicit break.

use vstd::prelude::*;

use crate::raster::{layout_fits, renders, text_extent, FontFace};
use crate::ErrorKind;

verus! {

/// One laid-out line.
pub struct Line {
    pub text: String,
    pub width: i32,
    pub height: i32,
    /// The width of the first character alone, used to correct the centering
    /// of lines whose first glyph carries a left bearing.
    pub first_char_width: i32,
    /// Whether an explicit line break, which the line does not hold, ended it.
    pub hard_break: bool,
}

pub ghost struct LineView {
    pub text: Seq<char>,
    pub width: i32,
    pub height: i32,
    pub first_char_width: i32,
    pub hard_break: bool,
}

impl View for Line {
    type V = LineView;

    open spec fn view(&self) -> LineView {
        LineView {
            text: self.text@,
            width: self.width,
            height: self.height,
            first_char_width: self.first_char_width,
            hard_break: self.hard_break,
        }
    }
}

/// Where a pass stands: the committed lines, and the open line
/// `text[start..pos]` with its extent and the width of its first character.
pub ghost struct WrapState {
    pub lines: Seq<LineView>,
    pub start: int,
    pub pos: int,
    pub width: i32,
    pub height: i32,
    pub first_char_width: i32,
}

pub open spec fn initial_state() -> WrapState {
    WrapState { lines: seq![], start: 0, pos: 0, width: 0, height: 0, first_char_width: 0 }
}

/// The open line of `s`, closed as it stands.
pub open spec fn open_line(text: Seq<char>, s: WrapState, hard_break: bool) -> LineView {
    LineView {
        text: text.subrange(s.start, s.pos),
        width: s.width,
        height: s.height,
        first_char_width: s.first_char_width,
        hard_break,
    }
}

/// One step over `text[s.pos]`. `extended` is the extent of the open line grown
/// by that character, `alone` the extent of the character by itself.
///
/// An explicit break closes the open line and consumes the break. A character
/// that brings a non-empty line to the limit starts the next line. Otherwise the
/// line grows; a lone character wider than the limit still makes a line.
pub open spec fn step(
    text: Seq<char>,
    limit: int,
    s: WrapState,
    extended: (i32, i32),
    alone: (i32, i32),
) -> WrapState {
    if text[s.pos] == '\n' {
        WrapState {
            lines: s.lines.push(open_line(text, s, true)),
            start: s.pos + 1,
            pos: s.pos + 1,
            width: 0,
            height: 0,
            first_char_width: 0,
        }
    } else if extended.0 >= limit && s.start < s.pos {
        WrapState {
            lines: s.lines.push(open_line(text, s, false)),
            start: s.pos,
            pos: s.pos + 1,
            width: alone.0,
            height: alone.1,
            first_char_width: alone.0,
        }
    } else {
        WrapState {
            lines: s.lines,
            start: s.start,
            pos: s.pos + 1,
            width: extended.0,
            height: extended.1,
            first_char_width: if s.start == s.pos {
                alone.0
            } else {
                s.first_char_width
            },
        }
    }
}

/// The lines of a finished pass: the open line is always committed, so an empty
/// text, or one that ends in a break, ends in an empty line.
pub open spec fn finish(text: Seq<char>, s: WrapState) -> Seq<LineView> {
    s.lines.push(open_line(text, s, false))
}

/// The state after `k` steps when every extent is measured with the face whose
/// data is `font`, at `scale` pixels per em.
pub open spec fn measured_run(
    font: Seq<u8>,
    scale: u16,
    text: Seq<char>,
    limit: int,
    k: nat,
) -> WrapState
    decreases k,
{
    if k == 0 {
        initial_state()
    } else {
        let s = measured_run(font, scale, text, limit, (k - 1) as nat);
        step(
            text,
            limit,
            s,
            text_extent(font, scale, text.subrange(s.start, s.pos + 1)),
            text_extent(font, scale, text.subrange(s.pos, s.pos + 1)),
        )
    }
}

/// The lines that `text` wraps into under `limit` with the given face and scale.
pub open spec fn layout(font: Seq<u8>, scale: u16, text: Seq<char>, limit: int) -> Seq<LineView> {
    finish(text, measured_run(font, scale, text, limit, text.len()))
}

/// The lines' texts joined, each followed by the break that ended it, if any.
pub open spec fn rejoin(lines: Seq<LineView>) -> Seq<char>
    decreases lines.len(),
{
    if lines.len() == 0 {
        seq![]
    } else {
        let l = lines.last();
        rejoin(lines.drop_last()) + l.text + if l.hard_break {
            seq!['\n']
        } else {
            seq![]
        }
    }
}

pub open spec fn sum_heights(lines: Seq<LineView>) -> int
    decreases lines.len(),
{
    if lines.len() == 0 {
        0
    } else {
        sum_heights(lines.drop_last()) + lines.last().height
    }
}

pub open spec fn max_width(lines: Seq<LineView>) -> int
    decreases lines.len(),
{
    if lines.len() == 0 {
        0
    } else {
        let w = max_width(lines.drop_last());
        if lines.last().width > w {
            lines.last().width as int
        } else {
            w
        }
    }
}

/// A line keeps within the limit unless it is a single character.
pub open spec fn within_limit(l: LineView, limit: int) -> bool {
    l.text.len() != 1 ==> l.width < limit
}

/// The text holds no line break.
pub open spec fn no_break(t: Seq<char>) -> bool {
    forall|j: int| 0 <= j < t.len() ==> t[j] != '\n'
}

/// What holds of every state that a pass reaches, whatever the extents were.
pub open spec fn wrap_inv(text: Seq<char>, limit: int, s: WrapState) -> bool {
    &&& limit > 0
    &&& 0 <= s.start <= s.pos <= text.len()
    &&& forall|i: int| 0 <= i < s.lines.len() ==> no_break(#[trigger] s.lines[i].text)
    &&& no_break(text.subrange(s.start, s.pos))
    &&& rejoin(s.lines) + text.subrange(s.start, s.pos) == text.subrange(0, s.pos)
    &&& forall|i: int| 0 <= i < s.lines.len() ==> within_limit(#[trigger] s.lines[i], limit)
    &&& s.pos - s.start != 1 ==> s.width < limit
    &&& s.start == s.pos ==> s.width == 0
}

/// No size in the state is negative.
pub open spec fn sizes_nonneg(s: WrapState) -> bool {
    &&& forall|i: int|
        0 <= i < s.lines.len() ==> #[trigger] s.lines[i].width >= 0 && s.lines[i].height >= 0
    &&& s.width >= 0
    &&& s.height >= 0
    &&& s.first_char_width >= 0
}

proof fn lemma_rejoin_push(lines: Seq<LineView>, l: LineView)
    ensures
        rejoin(lines.push(l)) == rejoin(lines) + l.text + if l.hard_break {
            seq!['\n']
        } else {
            seq![]
        },
{
    assert(lines.push(l).drop_last() == lines);
}

proof fn lemma_step_inv(
    text: Seq<char>,
    limit: int,
    s: WrapState,
    extended: (i32, i32),
    alone: (i32, i32),
)
    requires
        wrap_inv(text, limit, s),
        s.pos < text.len(),
    ensures
        wrap_inv(text, limit, step(text, limit, s, extended, alone)),
        step(text, limit, s, extended, alone).pos == s.pos + 1,
        sizes_nonneg(s) && extended.0 >= 0 && extended.1 >= 0 && alone.0 >= 0 && alone.1 >= 0
            ==> sizes_nonneg(step(text, limit, s, extended, alone)),
{
    let t = step(text, limit, s, extended, alone);
    let c = text[s.pos];
    assert(text.subrange(0, s.pos + 1) == text.subrange(0, s.pos).push(c));
    if c == '\n' || (extended.0 >= limit && s.start < s.pos) {
        let l = open_line(text, s, c == '\n');
        lemma_rejoin_push(s.lines, l);
        assert(text.subrange(s.pos, s.pos + 1) == seq![c]);
        assert(rejoin(t.lines) + text.subrange(t.start, t.pos) == text.subrange(0, t.pos));
        assert forall|i: int| 0 <= i < t.lines.len() implies within_limit(
            #[trigger] t.lines[i],
            limit,
        ) by {
            if i < s.lines.len() {
                assert(t.lines[i] == s.lines[i]);
            }
        }
        if sizes_nonneg(s) {
            assert forall|i: int| 0 <= i < t.lines.len() implies #[trigger] t.lines[i].width >= 0
                && t.lines[i].height >= 0 by {
                if i < s.lines.len() {
                    assert(t.lines[i] == s.lines[i]);
                }
            }
        }
    } else {
        assert(text.subrange(s.start, s.pos + 1) == text.subrange(s.start, s.pos).push(c));
        assert(rejoin(t.lines) + text.subrange(t.start, t.pos) == text.subrange(0, t.pos));
    }
}

proof fn lemma_finish(text: Seq<char>, limit: int, s: WrapState)
    requires
        wrap_inv(text, limit, s),
        s.pos == text.len(),
    ensures
        rejoin(finish(text, s)) == text,
        forall|i: int| 0 <= i < finish(text, s).len() ==> no_break(#[trigger] finish(text, s)[i].text),
        forall|i: int|
            0 <= i < finish(text, s).len() ==> within_limit(#[trigger] finish(text, s)[i], limit),
        sizes_nonneg(s) ==> forall|i: int|
            0 <= i < finish(text, s).len() ==> (#[trigger] finish(text, s)[i]).width >= 0
                && finish(text, s)[i].height >= 0,
{
    let l = open_line(text, s, false);
    lemma_rejoin_push(s.lines, l);
    assert(text.subrange(0, s.pos) == text);
    let f = finish(text, s);
    assert forall|i: int| 0 <= i < f.len() implies within_limit(#[trigger] f[i], limit) by {
        if i < s.lines.len() {
            assert(f[i] == s.lines[i]);
        }
    }
    if sizes_nonneg(s) {
        assert forall|i: int| 0 <= i < f.len() implies (#[trigger] f[i]).width >= 0 && f[i].height
            >= 0 by {
            if i < s.lines.len() {
                assert(f[i] == s.lines[i]);
            }
        }
    }
}

/// A line's sizes are its text's measured extent, and its first character's
/// measured width; an empty line has no size at all.
pub open spec fn measured_line(font: Seq<u8>, scale: u16, l: LineView) -> bool {
    if l.text.len() == 0 {
        l.width == 0 && l.height == 0 && l.first_char_width == 0
    } else {
        &&& (l.width, l.height) == text_extent(font, scale, l.text)
        &&& l.first_char_width == text_extent(font, scale, l.text.subrange(0, 1)).0
    }
}

/// Every line of a measured state, the open one included, is measured.
pub open spec fn measured_state(font: Seq<u8>, scale: u16, text: Seq<char>, s: WrapState) -> bool {
    &&& forall|i: int| 0 <= i < s.lines.len() ==> measured_line(font, scale, #[trigger] s.lines[i])
    &&& measured_line(font, scale, open_line(text, s, false))
}

proof fn lemma_measured_step(font: Seq<u8>, scale: u16, text: Seq<char>, limit: int, s: WrapState)
    requires
        wrap_inv(text, limit, s),
        s.pos < text.len(),
        measured_state(font, scale, text, s),
    ensures
        measured_state(
            font,
            scale,
            text,
            step(
                text,
                limit,
                s,
                text_extent(font, scale, text.subrange(s.start, s.pos + 1)),
                text_extent(font, scale, text.subrange(s.pos, s.pos + 1)),
            ),
        ),
{
    let ext = text_extent(font, scale, text.subrange(s.start, s.pos + 1));
    let alone = text_extent(font, scale, text.subrange(s.pos, s.pos + 1));
    let t = step(text, limit, s, ext, alone);
    let open = open_line(text, s, false);
    assert(measured_line(font, scale, open_line(text, s, true)) == measured_line(
        font,
        scale,
        open,
    ));
    assert forall|i: int| 0 <= i < t.lines.len() implies measured_line(
        font,
        scale,
        #[trigger] t.lines[i],
    ) by {
        if i < s.lines.len() {
            assert(t.lines[i] == s.lines[i]);
        }
    }
    let grown = text.subrange(s.start, s.pos + 1);
    assert(grown.subrange(0, 1) == text.subrange(s.start, s.start + 1));
    if s.start < s.pos {
        assert(open.text.subrange(0, 1) == text.subrange(s.start, s.start + 1));
    }
    assert(text.subrange(s.pos, s.pos + 1).subrange(0, 1) == text.subrange(s.pos, s.pos + 1));
    assert(text.subrange(t.start, t.pos).len() == t.pos - t.start);
}

proof fn lemma_measured_run(font: Seq<u8>, scale: u16, text: Seq<char>, limit: int, k: nat)
    requires
        limit > 0,
        k <= text.len(),
    ensures
        wrap_inv(text, limit, measured_run(font, scale, text, limit, k)),
        measured_state(font, scale, text, measured_run(font, scale, text, limit, k)),
        measured_run(font, scale, text, limit, k).pos == k,
    decreases k,
{
    if k == 0 {
        assert(text.subrange(0, 0).len() == 0);
    } else {
        lemma_measured_run(font, scale, text, limit, (k - 1) as nat);
        let s = measured_run(font, scale, text, limit, (k - 1) as nat);
        lemma_measured_step(font, scale, text, limit, s);
        lemma_step_inv(
            text,
            limit,
            s,
            text_extent(font, scale, text.subrange(s.start, s.pos + 1)),
            text_extent(font, scale, text.subrange(s.pos, s.pos + 1)),
        );
    }
}

/// Wrapping loses and invents no character: the lines, each followed by the
/// break that ended it, spell the text.
pub proof fn wrap_keeps_text(font: Seq<u8>, scale: u16, text: Seq<char>, limit: int)
    requires
        limit > 0,
    ensures
        rejoin(layout(font, scale, text, limit)) == text,
{
    lemma_measured_run(font, scale, text, limit, text.len());
    lemma_finish(text, limit, measured_run(font, scale, text, limit, text.len()));
}

/// No line holds a line break: every break was consumed as a separator, so the
/// lines with the breaks put back spell the text (see `wrap_keeps_text`).
pub proof fn wrap_lines_hold_no_break(font: Seq<u8>, scale: u16, text: Seq<char>, limit: int)
    requires
        limit > 0,
    ensures
        forall|i: int|
            0 <= i < layout(font, scale, text, limit).len() ==> no_break(
                #[trigger] layout(font, scale, text, limit)[i].text,
            ),
{
    lemma_measured_run(font, scale, text, limit, text.len());
    lemma_finish(text, limit, measured_run(font, scale, text, limit, text.len()));
}

/// Every line's width and height are the measured extent of its own text, and
/// its first character's width is that character's measured width.
pub proof fn wrap_measures_lines(font: Seq<u8>, scale: u16, text: Seq<char>, limit: int)
    requires
        limit > 0,
    ensures
        forall|i: int|
            0 <= i < layout(font, scale, text, limit).len() ==> measured_line(
                font,
                scale,
                #[trigger] layout(font, scale, text, limit)[i],
            ),
{
    lemma_measured_run(font, scale, text, limit, text.len());
    let s = measured_run(font, scale, text, limit, text.len());
    let f = finish(text, s);
    assert forall|i: int| 0 <= i < f.len() implies measured_line(font, scale, #[trigger] f[i]) by {
        if i < s.lines.len() {
            assert(f[i] == s.lines[i]);
        }
    }
}

/// Wrapping is a function of its inputs: two layouts of the same text, face,
/// scale and limit hold the same lines.
pub proof fn wrap_is_deterministic(
    font: Seq<u8>,
    scale: u16,
    text: Seq<char>,
    limit: int,
    a: Lines,
    b: Lines,
)
    requires
        a.lines_view() == layout(font, scale, text, limit),
        b.lines_view() == layout(font, scale, text, limit),
    ensures
        a.lines_view() == b.lines_view(),
{
}

/// Every line is narrower than the limit, but a line of one character.
pub proof fn wrap_within_limit(font: Seq<u8>, scale: u16, text: Seq<char>, limit: int)
    requires
        limit > 0,
    ensures
        forall|i: int|
            0 <= i < layout(font, scale, text, limit).len() ==> within_limit(
                #[trigger] layout(font, scale, text, limit)[i],
                limit,
            ),
{
    lemma_measured_run(font, scale, text, limit, text.len());
    lemma_finish(text, limit, measured_run(font, scale, text, limit, text.len()));
}

proof fn lemma_renders_subrange(font: Seq<u8>, text: Seq<char>, a: int, b: int)
    requires
        renders(font, text),
        0 <= a <= b <= text.len(),
    ensures
        renders(font, text.subrange(a, b)),
{
    let t = text.subrange(a, b);
    assert forall|i: int| 0 <= i < t.len() implies crate::raster::char_renders(
        font,
        #[trigger] t[i],
    ) by {
        assert(t[i] == text[a + i]);
    }
}

proof fn lemma_renders_rejoin(font: Seq<u8>, lines: Seq<LineView>)
    requires
        renders(font, rejoin(lines)),
    ensures
        forall|i: int|
            0 <= i < lines.len() ==> renders(font, #[trigger] lines[i].text) && lines[i].text.len()
                <= rejoin(lines).len(),
    decreases lines.len(),
{
    if lines.len() > 0 {
        let d = lines.drop_last();
        let l = lines.last();
        let all = rejoin(lines);
        let head = rejoin(d);
        assert(all == head + l.text + if l.hard_break {
            seq!['\n']
        } else {
            seq![]
        });
        assert(head == all.subrange(0, head.len() as int));
        assert(l.text == all.subrange(head.len() as int, (head.len() + l.text.len()) as int));
        lemma_renders_subrange(font, all, 0, head.len() as int);
        lemma_renders_subrange(font, all, head.len() as int, (head.len() + l.text.len()) as int);
        lemma_renders_rejoin(font, d);
        assert forall|i: int| 0 <= i < lines.len() implies renders(font, #[trigger] lines[i].text)
            && lines[i].text.len() <= all.len() by {
            if i < d.len() {
                assert(lines[i] == d[i]);
            }
        }
    }
}

proof fn lemma_fits_shorter(font: Seq<u8>, scale: u16, text: Seq<char>, shorter: Seq<char>)
    requires
        layout_fits(font, scale, text),
        shorter.len() <= text.len(),
    ensures
        layout_fits(font, scale, shorter),
{
    let a = shorter.len() as int;
    let b = text.len() as int;
    let c = scale as int;
    assert((a + 1) * 98304 * 4 * c <= (b + 1) * 98304 * 4 * c) by (nonlinear_arith)
        requires
            a <= b,
            c >= 0,
    ;
}

/// With no negative height, a prefix of the lines is no taller than all of them.
pub proof fn lemma_sum_prefix(lines: Seq<LineView>, i: int)
    requires
        0 <= i <= lines.len(),
        forall|j: int| 0 <= j < lines.len() ==> (#[trigger] lines[j]).height >= 0,
    ensures
        0 <= sum_heights(lines.take(i)) <= sum_heights(lines),
    decreases lines.len() - i,
{
    let p = lines.take(i);
    assert forall|j: int| 0 <= j < p.len() implies (#[trigger] p[j]).height >= 0 by {
        assert(p[j] == lines[j]);
    }
    lemma_sum_nonneg(p);
    if i < lines.len() {
        lemma_sum_prefix(lines, i + 1);
        assert(lines.take(i + 1).drop_last() == p);
        assert(lines.take(i + 1).last() == lines[i]);
    } else {
        assert(p == lines);
    }
}

proof fn lemma_sum_nonneg(lines: Seq<LineView>)
    requires
        forall|j: int| 0 <= j < lines.len() ==> (#[trigger] lines[j]).height >= 0,
    ensures
        sum_heights(lines) >= 0,
    decreases lines.len(),
{
    if lines.len() > 0 {
        let d = lines.drop_last();
        assert forall|j: int| 0 <= j < d.len() implies (#[trigger] d[j]).height >= 0 by {
            assert(d[j] == lines[j]);
        }
        lemma_sum_nonneg(d);
        assert(lines.last() == lines[lines.len() - 1]);
    }
}

/// The lines of a laid-out text with their bounding size: the widest line's
/// width and the lines' summed height.
pub struct Lines {
    data: Vec<Line>,
    size: (i32, i32),
}

impl Lines {
    pub closed spec fn lines_view(&self) -> Seq<LineView> {
        self.data@.map_values(|l: Line| l@)
    }

    /// The size is the bounding box of the lines.
    pub closed spec fn wf(&self) -> bool {
        &&& self.size.0 == max_width(self.lines_view())
        &&& self.size.1 == sum_heights(self.lines_view())
        &&& forall|j: int|
            0 <= j < self.lines_view().len() ==> (#[trigger] self.lines_view()[j]).width >= 0
                && self.lines_view()[j].height >= 0
    }

    /// The width of the widest line and the summed height of all lines.
    pub fn size(&self) -> (r: (i32, i32))
        requires
            self.wf(),
        ensures
            r.0 == max_width(self.lines_view()),
            r.1 == sum_heights(self.lines_view()),
            forall|j: int|
                0 <= j < self.lines_view().len() ==> (#[trigger] self.lines_view()[j]).width >= 0
                    && self.lines_view()[j].height >= 0,
    {
        self.size
    }

    /// The lines, top to bottom.
    pub fn lines(&self) -> (r: &Vec<Line>)
        ensures
            r@.map_values(|l: Line| l@) == self.lines_view(),
    {
        &self.data
    }

    /// Lays `info`'s text out in lines no wider than `limit` pixels, measuring
    /// with its face and scale; see `layout`.
    pub fn new(info: &TextDrawInfo<'_>, limit: i32) -> (r: Result<Lines, ErrorKind>)
        ensures
            limit <= 0 ==> r matches Err(ErrorKind::NonPositiveLimit),
            limit > 0 && !renders(info@.font, info@.text) ==> (r matches Err(
                ErrorKind::MissingGlyph,
            )),
            limit > 0 && renders(info@.font, info@.text) && !layout_fits(
                info@.font,
                info@.scale,
                info@.text,
            ) ==> (r matches Err(ErrorKind::LayoutOutOfRange)),
            limit > 0 && renders(info@.font, info@.text) && layout_fits(
                info@.font,
                info@.scale,
                info@.text,
            ) ==> (r is Ok <==> sum_heights(
                layout(info@.font, info@.scale, info@.text, limit as int),
            ) <= i32::MAX),
            limit > 0 && renders(info@.font, info@.text) && layout_fits(
                info@.font,
                info@.scale,
                info@.text,
            ) && r is Err ==> (r matches Err(ErrorKind::TextTooTall)),
            r matches Ok(lines) ==> lines.wf() && lines.lines_view() == layout(
                info@.font,
                info@.scale,
                info@.text,
                limit as int,
            ),
            r matches Ok(lines) ==> forall|i: int|
                0 <= i < lines.lines_view().len() ==> {
                    &&& measured_line(info@.font, info@.scale, #[trigger] lines.lines_view()[i])
                    &&& renders(info@.font, lines.lines_view()[i].text)
                    &&& layout_fits(info@.font, info@.scale, lines.lines_view()[i].text)
                },
    {
        if limit <= 0 {
            return Err(ErrorKind::NonPositiveLimit);
        }
        if !info.font.renders(info.text) {
            return Err(ErrorKind::MissingGlyph);
        }
        if !info.font.layout_fits(info.scale, info.text) {
            return Err(ErrorKind::LayoutOutOfRange);
        }
        proof {
            wrap_keeps_text(info@.font, info@.scale, info@.text, limit as int);
            let lines = layout(info@.font, info@.scale, info@.text, limit as int);
            assert forall|i: int| 0 <= i < lines.len() implies layout_fits(
                info@.font,
                info@.scale,
                #[trigger] lines[i].text,
            ) by {
                lemma_renders_rejoin(info@.font, lines);
                lemma_fits_shorter(info@.font, info@.scale, info@.text, lines[i].text);
            }
            wrap_measures_lines(info@.font, info@.scale, info@.text, limit as int);
            lemma_renders_rejoin(info@.font, layout(info@.font, info@.scale, info@.text, limit as int));
        }
        let mut wrap = match LineWrap::new(info.text, limit) {
            Ok(w) => w,
            Err(e) => return Err(e),
        };
        let ghost font = info@.font;
        let ghost scale = info@.scale;
        let ghost text = info@.text;
        while !wrap.is_done()
            invariant
                text == info@.text,
                font == info@.font,
                scale == info@.scale,
                renders(font, text),
                layout_fits(font, scale, text),
                wrap.wf(),
                wrap.text() == text,
                wrap.limit() == limit as int,
                wrap.state() == measured_run(
                    font,
                    scale,
                    text,
                    limit as int,
                    wrap.state().pos as nat,
                ),
            decreases text.len() - wrap.state().pos,
        {
            let (start, pos) = wrap.pending();
            proof {
                lemma_renders_subrange(font, text, start as int, pos + 1);
                lemma_renders_subrange(font, text, pos as int, pos + 1);
                lemma_fits_shorter(font, scale, text, text.subrange(start as int, pos + 1));
                lemma_fits_shorter(font, scale, text, text.subrange(pos as int, pos + 1));
            }
            let extended = info.font.measure(info.scale, info.text.substring_char(start, pos + 1));
            let alone = info.font.measure(info.scale, info.text.substring_char(pos, pos + 1));
            wrap.step(extended, alone);
        }
        wrap.finish()
    }
}

/// A line-breaking pass over a text, driven one character at a time by the
/// extents that its caller measures.
pub struct LineWrap<'a> {
    text: &'a str,
    len: usize,
    limit: i32,
    lines: Vec<Line>,
    start: usize,
    pos: usize,
    width: i32,
    height: i32,
    first_char_width: i32,
}

impl<'a> LineWrap<'a> {
    pub closed spec fn text(&self) -> Seq<char> {
        self.text@
    }

    pub closed spec fn limit(&self) -> int {
        self.limit as int
    }

    pub closed spec fn state(&self) -> WrapState {
        WrapState {
            lines: self.lines@.map_values(|l: Line| l@),
            start: self.start as int,
            pos: self.pos as int,
            width: self.width,
            height: self.height,
            first_char_width: self.first_char_width,
        }
    }

    pub closed spec fn wf(&self) -> bool {
        &&& self.len == self.text@.len()
        &&& wrap_inv(self.text(), self.limit(), self.state())
        &&& sizes_nonneg(self.state())
    }

    /// Starts a pass over `text`; a limit must be positive.
    pub fn new(text: &'a str, limit: i32) -> (r: Result<LineWrap<'a>, ErrorKind>)
        ensures
            limit <= 0 <==> r is Err,
            r is Err ==> r matches Err(ErrorKind::NonPositiveLimit),
            r matches Ok(w) ==> {
                &&& w.wf()
                &&& w.text() == text@
                &&& w.limit() == limit as int
                &&& w.state() == initial_state()
            },
    {
        if limit <= 0 {
            return Err(ErrorKind::NonPositiveLimit);
        }
        let w = LineWrap {
            text,
            len: text.unicode_len(),
            limit,
            lines: Vec::new(),
            start: 0,
            pos: 0,
            width: 0,
            height: 0,
            first_char_width: 0,
        };
        assert(w.state().lines =~= seq![]);
        assert(text@.subrange(0, 0) =~= seq![]);
        assert(rejoin(seq![]) == Seq::<char>::empty());
        Ok(w)
    }

    /// Whether every character has been taken in.
    pub fn is_done(&self) -> (r: bool)
        requires
            self.wf(),
        ensures
            r == (self.state().pos == self.text().len()),
    {
        self.pos == self.len
    }

    /// The open line's bounds `(start, pos)` in characters. The next step wants
    /// the extents of `text[start..pos + 1]` and of `text[pos..pos + 1]`.
    pub fn pending(&self) -> (r: (usize, usize))
        requires
            self.wf(),
        ensures
            r.0 <= r.1 <= self.text().len(),
            r.0 == self.state().start,
            r.1 == self.state().pos,
    {
        (self.start, self.pos)
    }

    /// Takes in the next character; see `step`.
    pub fn step(&mut self, extended: (i32, i32), alone: (i32, i32))
        requires
            old(self).wf(),
            old(self).state().pos < old(self).text().len(),
            extended.0 >= 0,
            extended.1 >= 0,
            alone.0 >= 0,
            alone.1 >= 0,
        ensures
            final(self).wf(),
            final(self).text() == old(self).text(),
            final(self).limit() == old(self).limit(),
            final(self).state() == step(
                old(self).text(),
                old(self).limit(),
                old(self).state(),
                extended,
                alone,
            ),
    {
        proof {
            lemma_step_inv(self.text(), self.limit(), self.state(), extended, alone);
        }
        let c = self.text.get_char(self.pos);
        if c == '\n' {
            self.commit(true);
            self.start = self.pos + 1;
            self.pos = self.pos + 1;
            self.width = 0;
            self.height = 0;
            self.first_char_width = 0;
        } else if extended.0 >= self.limit && self.start < self.pos {
            self.commit(false);
            self.start = self.pos;
            self.pos = self.pos + 1;
            self.width = alone.0;
            self.height = alone.1;
            self.first_char_width = alone.0;
        } else {
            if self.start == self.pos {
                self.first_char_width = alone.0;
            }
            self.pos = self.pos + 1;
            self.width = extended.0;
            self.height = extended.1;
        }
    }

    fn commit(&mut self, hard_break: bool)
        requires
            old(self).wf(),
        ensures
            final(self).text == old(self).text,
            final(self).len == old(self).len,
            final(self).limit == old(self).limit,
            final(self).start == old(self).start,
            final(self).pos == old(self).pos,
            final(self).width == old(self).width,
            final(self).height == old(self).height,
            final(self).first_char_width == old(self).first_char_width,
            final(self).state().lines == old(self).state().lines.push(
                open_line(old(self).text(), old(self).state(), hard_break),
            ),
    {
        let text = self.text.substring_char(self.start, self.pos).to_owned();
        let line = Line {
            text,
            width: self.width,
            height: self.height,
            first_char_width: self.first_char_width,
            hard_break,
        };
        let ghost before = self.lines@;
        self.lines.push(line);
        assert(self.lines@.map_values(|l: Line| l@) =~= before.map_values(|l: Line| l@).push(
            line@,
        ));
    }

    /// Ends the pass: commits the open line and sums the sizes. Fails when the
    /// lines are together taller than an `i32` can hold.
    pub fn finish(self) -> (r: Result<Lines, ErrorKind>)
        requires
            self.wf(),
            self.state().pos == self.text().len(),
        ensures
            r is Ok <==> sum_heights(finish(self.text(), self.state())) <= i32::MAX,
            r is Err ==> r matches Err(ErrorKind::TextTooTall),
            r matches Ok(lines) ==> lines.wf() && lines.lines_view() == finish(
                self.text(),
                self.state(),
            ),
            r matches Ok(lines) ==> rejoin(lines.lines_view()) == self.text(),
            r matches Ok(lines) ==> forall|i: int|
                0 <= i < lines.lines_view().len() ==> within_limit(
                    #[trigger] lines.lines_view()[i],
                    self.limit(),
                ),
    {
        let ghost text = self.text();
        let ghost state = self.state();
        let ghost limit = self.limit();
        proof {
            lemma_finish(text, limit, state);
        }
        let mut this = self;
        this.commit(false);
        let ghost all = this.lines@.map_values(|l: Line| l@);
        assert(all == finish(text, state));
        let n = this.lines.len();
        let mut width: i32 = 0;
        let mut height: i32 = 0;
        let mut i: usize = 0;
        while i < n
            invariant
                text == self.text(),
                state == self.state(),
                n == this.lines@.len(),
                all == this.lines@.map_values(|l: Line| l@),
                all == finish(text, state),
                forall|j: int|
                    0 <= j < all.len() ==> (#[trigger] all[j]).width >= 0 && all[j].height >= 0,
                0 <= i <= n,
                width == max_width(all.take(i as int)),
                height == sum_heights(all.take(i as int)),
            decreases n - i,
        {
            let line = &this.lines[i];
            assert(all.take(i + 1).drop_last() == all.take(i as int));
            assert(all.take(i + 1).last() == all[i as int]);
            assert(all[i as int] == line@);
            proof {
                lemma_sum_prefix(all, i as int);
            }
            if height > i32::MAX - line.height {
                proof {
                    lemma_sum_prefix(all, i + 1);
                    assert(sum_heights(all.take(i + 1)) == height + line.height);
                }
                return Err(ErrorKind::TextTooTall);
            }
            height = height + line.height;
            if line.width > width {
                width = line.width;
            }
            i = i + 1;
        }
        assert(all.take(n as int) == all);
        Ok(Lines { data: this.lines, size: (width, height) })
    }
}

/// A text with what it is drawn with: a colour, a scale in pixels per em, and a
/// face.
pub struct TextDrawInfo<'a> {
    text: &'a str,
    rgba: [u8; 4],
    scale: u16,
    font: &'a FontFace,
}

pub ghost struct TextStyleView {
    pub text: Seq<char>,
    pub color: [u8; 4],
    pub scale: u16,
    pub font: Seq<u8>,
}

impl<'a> View for TextDrawInfo<'a> {
    type V = TextStyleView;

    closed spec fn view(&self) -> TextStyleView {
        TextStyleView { text: self.text@, color: self.rgba, scale: self.scale, font: self.font@ }
    }
}

impl<'a> TextDrawInfo<'a> {
    pub fn new(
        text: &'a str,
        rgba: [u8; 4],
        scale: u16,
        font: &'a FontFace,
    ) -> (r: TextDrawInfo<'a>)
        ensures
            r@ == (TextStyleView { text: text@, color: rgba, scale, font: font@ }),
    {
        TextDrawInfo { text, rgba, scale, font }
    }

    /// The scale in pixels per em.
    pub fn raw_scale_factor(&self) -> (r: u16)
        ensures
            r == self@.scale,
    {
        self.scale
    }

    pub fn text(&self) -> (r: &'a str)
        ensures
            r@ == self@.text,
    {
        self.text
    }

    pub fn color(&self) -> (r: [u8; 4])
        ensures
            r == self@.color,
    {
        self.rgba
    }

    pub fn scale(&self) -> (r: u16)
        ensures
            r == self@.scale,
    {
        self.scale
    }

    pub fn font(&self) -> (r: &'a FontFace)
        ensures
            r@ == self@.font,
    {
        self.font
    }
}

} // verus!
