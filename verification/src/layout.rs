//! Layout engine: from measured candidates to window geometry.
//!
//! The geometry is defined once, over mathematical integers, by the spec
//! functions of this module. [`Layout::arrange`] computes it in machine
//! integers, and [`fits`] tells beforehand whether it can be represented.

use crate::global::CANDI_NUM;
use vstd::prelude::*;

verus! {

/// Width of the accent bar at the left edge of the window.
pub const CLIP_WIDTH: i32 = 3;

/// Padding above the tallest glyph of a row.
pub const LABEL_PADDING_TOP: i32 = 2;

/// Padding below the tallest glyph of a row.
pub const LABEL_PADDING_BOTTOM: i32 = 2;

/// Padding to the left of an index label.
pub const LABEL_PADDING_LEFT: i32 = 3;

/// Padding to the right of a candidate text.
pub const LABEL_PADDING_RIGHT: i32 = 4;

/// Inset added on every side of the window body.
pub const BORDER_WIDTH: i32 = 0;

/// How the candidates are laid out: side by side in one row, or one per row.
#[derive(Clone, Copy, Debug, PartialEq, Eq, Structural)]
pub enum LayoutMode {
    Horizontal,
    Vertical,
}

impl Default for LayoutMode {
    /// One row is the default.
    fn default() -> (mode: Self)
        ensures
            mode == LayoutMode::Horizontal,
    {
        LayoutMode::Horizontal
    }
}

/// Pixel size of a run of text in the overlay's font.
#[derive(Clone, Copy, Debug, PartialEq, Eq)]
pub struct Extent {
    pub cx: i32,
    pub cy: i32,
}

/// One candidate, ready for display: the glyphs of its index label and of its
/// text as UTF-16 code units, and what each of them measures.
#[derive(Clone, Debug, PartialEq, Eq)]
pub struct Candidate {
    pub label: Vec<u16>,
    pub text: Vec<u16>,
    pub label_extent: Extent,
    pub text_extent: Extent,
}

/// The larger of two numbers.
pub open spec fn larger(a: int, b: int) -> int {
    if a >= b {
        a
    } else {
        b
    }
}

/// Height of a row of glyphs: the tallest label or text, and never below zero.
pub open spec fn row_height(cells: Seq<Candidate>) -> int
    decreases cells.len(),
{
    if cells.len() == 0 {
        0
    } else {
        larger(
            larger(row_height(cells.drop_last()), cells.last().label_extent.cy as int),
            cells.last().text_extent.cy as int,
        )
    }
}

/// Width of the index column: the widest label, and never below zero.
pub open spec fn index_width(cells: Seq<Candidate>) -> int
    decreases cells.len(),
{
    if cells.len() == 0 {
        0
    } else {
        larger(index_width(cells.drop_last()), cells.last().label_extent.cx as int)
    }
}

/// Width of the widest candidate text, and never below zero.
pub open spec fn widest_text(cells: Seq<Candidate>) -> int
    decreases cells.len(),
{
    if cells.len() == 0 {
        0
    } else {
        larger(widest_text(cells.drop_last()), cells.last().text_extent.cx as int)
    }
}

/// Full width of one cell of a row: both paddings, the index column and the
/// candidate's own text.
pub open spec fn cell_width(index_w: int, text_w: int) -> int {
    LABEL_PADDING_LEFT + LABEL_PADDING_RIGHT + index_w + text_w
}

/// Width of the given cells placed side by side, each with an index column of
/// width `index_w`.
pub open spec fn strip_width(cells: Seq<Candidate>, index_w: int) -> int
    decreases cells.len(),
{
    if cells.len() == 0 {
        0
    } else {
        strip_width(cells.drop_last(), index_w) + cell_width(
            index_w,
            cells.last().text_extent.cx as int,
        )
    }
}

/// Height of one row with its paddings.
pub open spec fn label_height(cells: Seq<Candidate>) -> int {
    LABEL_PADDING_TOP + row_height(cells) + LABEL_PADDING_BOTTOM
}

/// In vertical mode the window is at least four fifths as wide as its body is
/// high.
pub open spec fn width_floor(body_height: int) -> int {
    body_height * 4 / 5
}

/// Height of the window body, without the border.
pub open spec fn body_height(mode: LayoutMode, cells: Seq<Candidate>) -> int {
    match mode {
        LayoutMode::Horizontal => label_height(cells),
        LayoutMode::Vertical => cells.len() * label_height(cells),
    }
}

/// Width of the window body, without the border.
pub open spec fn body_width(mode: LayoutMode, cells: Seq<Candidate>) -> int {
    match mode {
        LayoutMode::Horizontal => CLIP_WIDTH + strip_width(cells, index_width(cells)),
        LayoutMode::Vertical => larger(
            CLIP_WIDTH + LABEL_PADDING_LEFT + index_width(cells) + widest_text(cells)
                + LABEL_PADDING_RIGHT,
            width_floor(body_height(mode, cells)),
        ),
    }
}

/// Width of the window: its body and the border on both sides.
pub open spec fn window_width(mode: LayoutMode, cells: Seq<Candidate>) -> int {
    body_width(mode, cells) + BORDER_WIDTH * 2
}

/// Height of the window: its body and the border above and below.
pub open spec fn window_height(mode: LayoutMode, cells: Seq<Candidate>) -> int {
    body_height(mode, cells) + BORDER_WIDTH * 2
}

/// Width of the text of the first candidate; zero where there is none.
pub open spec fn first_text_width(cells: Seq<Candidate>) -> int {
    if cells.len() > 0 {
        cells[0].text_extent.cx as int
    } else {
        0
    }
}

/// Width of the strip behind the first candidate. In a row it is that
/// candidate's cell, in a column the whole body beside the accent bar.
pub open spec fn highlight_width(mode: LayoutMode, cells: Seq<Candidate>) -> int {
    match mode {
        LayoutMode::Horizontal => cell_width(index_width(cells), first_text_width(cells)),
        LayoutMode::Vertical => window_width(mode, cells) - CLIP_WIDTH - BORDER_WIDTH * 2,
    }
}

/// Left edge of the index label of candidate `i`.
pub open spec fn pen_x(mode: LayoutMode, cells: Seq<Candidate>, i: int) -> int {
    match mode {
        LayoutMode::Horizontal => BORDER_WIDTH + CLIP_WIDTH + LABEL_PADDING_LEFT + strip_width(
            cells.take(i),
            index_width(cells),
        ),
        LayoutMode::Vertical => BORDER_WIDTH + CLIP_WIDTH + LABEL_PADDING_LEFT,
    }
}

/// Left edge of the text of candidate `i`, right of the index column.
pub open spec fn text_x(mode: LayoutMode, cells: Seq<Candidate>, i: int) -> int {
    BORDER_WIDTH + pen_x(mode, cells, i) + index_width(cells)
}

/// Top edge of the glyphs of candidate `i`.
pub open spec fn pen_y(mode: LayoutMode, cells: Seq<Candidate>, i: int) -> int {
    match mode {
        LayoutMode::Horizontal => BORDER_WIDTH + LABEL_PADDING_TOP,
        LayoutMode::Vertical => BORDER_WIDTH + LABEL_PADDING_TOP + i * label_height(cells),
    }
}

/// Whether a coordinate can be handed to the window system.
pub open spec fn in_range(v: int) -> bool {
    i32::MIN <= v <= i32::MAX
}

/// Whether candidate `i` can be drawn: all three of its pen coordinates are
/// in range.
pub open spec fn pen_in_range(mode: LayoutMode, cells: Seq<Candidate>, i: int) -> bool {
    &&& in_range(pen_x(mode, cells, i))
    &&& in_range(text_x(mode, cells, i))
    &&& in_range(pen_y(mode, cells, i))
}

/// Whether a list can be laid out: it holds no more than [`CANDI_NUM`]
/// candidates, and every size and every coordinate of its layout is in range.
pub open spec fn representable(mode: LayoutMode, cells: Seq<Candidate>) -> bool {
    &&& cells.len() <= CANDI_NUM
    &&& in_range(label_height(cells))
    &&& in_range(BORDER_WIDTH + label_height(cells))
    &&& in_range(window_width(mode, cells))
    &&& in_range(window_height(mode, cells))
    &&& in_range(highlight_width(mode, cells))
    &&& in_range(BORDER_WIDTH + CLIP_WIDTH + highlight_width(mode, cells))
    &&& forall|i: int| 0 <= i < cells.len() ==> #[trigger] pen_in_range(mode, cells, i)
}

/// Where the glyphs of one candidate are drawn.
#[derive(Clone, Copy, Debug, PartialEq, Eq)]
pub struct Pen {
    /// Left edge of the index label.
    pub x: i32,
    /// Left edge of the candidate text.
    pub text_x: i32,
    /// Top edge of both.
    pub y: i32,
}

/// Pen positions of one candidate, before they are narrowed to coordinates.
struct WidePen {
    x: i64,
    text_x: i64,
    y: i64,
}

/// The geometry of a list in wide integers, which hold it whatever was
/// measured.
struct Geometry {
    label_height: i64,
    index_width: i64,
    width: i64,
    height: i64,
    highlight: i64,
    pens: Vec<WidePen>,
}

/// Computes [`larger`].
fn wider(a: i64, b: i64) -> (r: i64)
    ensures
        r == larger(a as int, b as int),
{
    if a >= b {
        a
    } else {
        b
    }
}

/// Computes [`in_range`].
fn within(v: i64) -> (ok: bool)
    ensures
        ok == in_range(v as int),
{
    -0x8000_0000 <= v && v <= 0x7fff_ffff
}

proof fn lemma_take_next(cells: Seq<Candidate>, k: int)
    requires
        0 <= k < cells.len(),
    ensures
        cells.take(k + 1).drop_last() == cells.take(k),
        cells.take(k + 1).last() == cells[k],
        cells.take(k + 1).len() == k + 1,
{
    assert(cells.take(k + 1).drop_last() =~= cells.take(k));
}

/// The three maxima of a list: row height, index column, widest text.
fn survey(cells: &Vec<Candidate>) -> (r: (i64, i64, i64))
    ensures
        r.0 == row_height(cells@),
        r.1 == index_width(cells@),
        r.2 == widest_text(cells@),
        0 <= r.0 <= i32::MAX,
        0 <= r.1 <= i32::MAX,
        0 <= r.2 <= i32::MAX,
{
    let mut row: i64 = 0;
    let mut index: i64 = 0;
    let mut widest: i64 = 0;
    let mut k: usize = 0;
    while k < cells.len()
        invariant
            k <= cells.len(),
            row == row_height(cells@.take(k as int)),
            index == index_width(cells@.take(k as int)),
            widest == widest_text(cells@.take(k as int)),
            0 <= row <= i32::MAX,
            0 <= index <= i32::MAX,
            0 <= widest <= i32::MAX,
        decreases cells.len() - k,
    {
        proof {
            lemma_take_next(cells@, k as int);
        }
        let cell = &cells[k];
        row = wider(wider(row, cell.label_extent.cy as i64), cell.text_extent.cy as i64);
        index = wider(index, cell.label_extent.cx as i64);
        widest = wider(widest, cell.text_extent.cx as i64);
        k += 1;
    }
    proof {
        assert(cells@.take(k as int) =~= cells@);
    }
    (row, index, widest)
}

/// The pen positions of every candidate, and the width of the whole strip.
fn trace(mode: LayoutMode, cells: &Vec<Candidate>, index: i64, label: i64) -> (r: (Vec<WidePen>, i64))
    requires
        cells.len() <= CANDI_NUM,
        index == index_width(cells@),
        label == label_height(cells@),
        0 <= index <= i32::MAX,
        0 <= label <= i32::MAX + 4,
    ensures
        r.0.len() == cells.len(),
        forall|i: int|
            0 <= i < cells.len() ==> {
                &&& (#[trigger] r.0[i]).x == pen_x(mode, cells@, i)
                &&& r.0[i].text_x == text_x(mode, cells@, i)
                &&& r.0[i].y == pen_y(mode, cells@, i)
            },
        r.1 == strip_width(cells@, index as int),
        -0x4_0000_0000 <= r.1 <= 0x10_0000_0000,
{
    let mut pens: Vec<WidePen> = Vec::new();
    let mut strip: i64 = 0;
    let mut drop: i64 = 0;
    let mut k: usize = 0;
    while k < cells.len()
        invariant
            k <= cells.len() <= CANDI_NUM,
            index == index_width(cells@),
            label == label_height(cells@),
            0 <= index <= i32::MAX,
            0 <= label <= i32::MAX + 4,
            strip == strip_width(cells@.take(k as int), index as int),
            -(k as int) * 0x8000_0000 <= strip <= (k as int) * 0x2_0000_0000,
            drop == (k as int) * label,
            0 <= drop <= (k as int) * 0x8000_0004,
            pens.len() == k,
            forall|i: int|
                0 <= i < k ==> {
                    &&& (#[trigger] pens[i]).x == pen_x(mode, cells@, i)
                    &&& pens[i].text_x == text_x(mode, cells@, i)
                    &&& pens[i].y == pen_y(mode, cells@, i)
                },
        decreases cells.len() - k,
    {
        proof {
            lemma_take_next(cells@, k as int);
            assert((k as int + 1) * label == (k as int) * label + label) by (nonlinear_arith);
        }
        let base: i64 = (BORDER_WIDTH + CLIP_WIDTH + LABEL_PADDING_LEFT) as i64;
        let top: i64 = (BORDER_WIDTH + LABEL_PADDING_TOP) as i64;
        let x: i64 = match mode {
            LayoutMode::Horizontal => base + strip,
            LayoutMode::Vertical => base,
        };
        let y: i64 = match mode {
            LayoutMode::Horizontal => top,
            LayoutMode::Vertical => top + drop,
        };
        pens.push(WidePen { x, text_x: BORDER_WIDTH as i64 + x + index, y });
        strip = strip + (LABEL_PADDING_LEFT + LABEL_PADDING_RIGHT) as i64 + index
            + cells[k].text_extent.cx as i64;
        drop = drop + label;
        k += 1;
    }
    proof {
        assert(cells@.take(k as int) =~= cells@);
    }
    (pens, strip)
}

/// The whole geometry of a list of at most [`CANDI_NUM`] candidates.
fn measure(mode: LayoutMode, cells: &Vec<Candidate>) -> (g: Geometry)
    requires
        cells.len() <= CANDI_NUM,
    ensures
        g.label_height == label_height(cells@),
        g.index_width == index_width(cells@),
        g.width == window_width(mode, cells@),
        g.height == window_height(mode, cells@),
        g.highlight == highlight_width(mode, cells@),
        g.pens.len() == cells.len(),
        forall|i: int|
            0 <= i < cells.len() ==> {
                &&& (#[trigger] g.pens[i]).x == pen_x(mode, cells@, i)
                &&& g.pens[i].text_x == text_x(mode, cells@, i)
                &&& g.pens[i].y == pen_y(mode, cells@, i)
            },
        0 <= g.label_height <= i32::MAX + 4,
        0 <= g.index_width <= i32::MAX,
        -0x40_0000_0000 <= g.highlight <= 0x40_0000_0000,
{
    let (row, index, widest) = survey(cells);
    let label: i64 = LABEL_PADDING_TOP as i64 + row + LABEL_PADDING_BOTTOM as i64;
    let (pens, strip) = trace(mode, cells, index, label);
    let border: i64 = BORDER_WIDTH as i64 * 2;
    match mode {
        LayoutMode::Horizontal => {
            let first: i64 = if cells.len() > 0 {
                cells[0].text_extent.cx as i64
            } else {
                0
            };
            Geometry {
                label_height: label,
                index_width: index,
                width: CLIP_WIDTH as i64 + strip + border,
                height: label + border,
                highlight: (LABEL_PADDING_LEFT + LABEL_PADDING_RIGHT) as i64 + index + first,
                pens,
            }
        },
        LayoutMode::Vertical => {
            let count: i64 = cells.len() as i64;
            proof {
                assert(0 <= count * label <= 5 * label) by (nonlinear_arith)
                    requires
                        0 <= count <= 5,
                        0 <= label,
                ;
            }
            let body: i64 = count * label;
            let natural: i64 = (CLIP_WIDTH + LABEL_PADDING_LEFT) as i64 + index + widest
                + LABEL_PADDING_RIGHT as i64;
            let width: i64 = wider(natural, body * 4 / 5) + border;
            Geometry {
                label_height: label,
                index_width: index,
                width,
                height: body + border,
                highlight: width - CLIP_WIDTH as i64 - border,
                pens,
            }
        },
    }
}

/// Tells whether a list can be laid out. [`Layout::arrange`] asks this of
/// its callers, and so does whatever shows a list.
pub fn fits(mode: LayoutMode, cells: &Vec<Candidate>) -> (ok: bool)
    ensures
        ok == representable(mode, cells@),
{
    if cells.len() > CANDI_NUM {
        return false;
    }
    let g = measure(mode, cells);
    let sizes = within(g.label_height) && within(BORDER_WIDTH as i64 + g.label_height) && within(
        g.width,
    ) && within(g.height) && within(g.highlight) && within(
        (BORDER_WIDTH + CLIP_WIDTH) as i64 + g.highlight,
    );
    if !sizes {
        return false;
    }
    let mut k: usize = 0;
    while k < cells.len()
        invariant
            k <= cells.len(),
            g.pens.len() == cells.len(),
            forall|i: int|
                0 <= i < cells.len() ==> {
                    &&& (#[trigger] g.pens[i]).x == pen_x(mode, cells@, i)
                    &&& g.pens[i].text_x == text_x(mode, cells@, i)
                    &&& g.pens[i].y == pen_y(mode, cells@, i)
                },
            forall|i: int| 0 <= i < k ==> #[trigger] pen_in_range(mode, cells@, i),
        decreases cells.len() - k,
    {
        let pen = &g.pens[k];
        if !(within(pen.x) && within(pen.text_x) && within(pen.y)) {
            proof {
                assert(!pen_in_range(mode, cells@, k as int));
            }
            return false;
        }
        k += 1;
    }
    true
}

/// The geometry of one candidate list, as the repaint needs it. A value of
/// this type always holds the layout of its own candidates, and that layout
/// is always representable.
pub struct Layout {
    mode: LayoutMode,
    font: isize,
    cells: Vec<Candidate>,
    wnd_width: i32,
    wnd_height: i32,
    highlight_width: i32,
    label_height: i32,
    index_width: i32,
}

/// What a layout was computed from. Everything else it holds is a function
/// of these three.
pub struct LayoutView {
    pub mode: LayoutMode,
    pub font: isize,
    pub cells: Seq<Candidate>,
}

impl View for Layout {
    type V = LayoutView;

    closed spec fn view(&self) -> LayoutView {
        LayoutView { mode: self.mode, font: self.font, cells: self.cells@ }
    }
}

impl Layout {
    #[verifier::type_invariant]
    spec fn consistent(self) -> bool {
        &&& representable(self.mode, self.cells@)
        &&& self.wnd_width == window_width(self.mode, self.cells@)
        &&& self.wnd_height == window_height(self.mode, self.cells@)
        &&& self.highlight_width == highlight_width(self.mode, self.cells@)
        &&& self.label_height == label_height(self.cells@)
        &&& self.index_width == index_width(self.cells@)
    }

    /// Lays out a list of candidates for the given font.
    pub fn arrange(mode: LayoutMode, font: isize, cells: Vec<Candidate>) -> (layout: Layout)
        requires
            representable(mode, cells@),
        ensures
            layout@ == (LayoutView { mode, font, cells: cells@ }),
    {
        let g = measure(mode, &cells);
        Layout {
            mode,
            font,
            wnd_width: g.width as i32,
            wnd_height: g.height as i32,
            highlight_width: g.highlight as i32,
            label_height: g.label_height as i32,
            index_width: g.index_width as i32,
            cells,
        }
    }

    /// Where each candidate is drawn, in the order of the list.
    pub fn pens(&self) -> (pens: Vec<Pen>)
        ensures
            representable(self@.mode, self@.cells),
            pens.len() == self@.cells.len(),
            forall|i: int|
                0 <= i < pens.len() ==> {
                    &&& (#[trigger] pens[i]).x == pen_x(self@.mode, self@.cells, i)
                    &&& pens[i].text_x == text_x(self@.mode, self@.cells, i)
                    &&& pens[i].y == pen_y(self@.mode, self@.cells, i)
                },
    {
        proof {
            use_type_invariant(self);
        }
        let g = measure(self.mode, &self.cells);
        let mut pens: Vec<Pen> = Vec::new();
        let mut k: usize = 0;
        while k < g.pens.len()
            invariant
                k <= g.pens.len() == self.cells.len(),
                representable(self.mode, self.cells@),
                forall|i: int|
                    0 <= i < self.cells.len() ==> {
                        &&& (#[trigger] g.pens[i]).x == pen_x(self.mode, self.cells@, i)
                        &&& g.pens[i].text_x == text_x(self.mode, self.cells@, i)
                        &&& g.pens[i].y == pen_y(self.mode, self.cells@, i)
                    },
                pens.len() == k,
                forall|i: int|
                    0 <= i < k ==> {
                        &&& (#[trigger] pens[i]).x == pen_x(self.mode, self.cells@, i)
                        &&& pens[i].text_x == text_x(self.mode, self.cells@, i)
                        &&& pens[i].y == pen_y(self.mode, self.cells@, i)
                    },
            decreases g.pens.len() - k,
        {
            let wide = &g.pens[k];
            proof {
                assert(pen_in_range(self.mode, self.cells@, k as int));
            }
            pens.push(Pen { x: wide.x as i32, text_x: wide.text_x as i32, y: wide.y as i32 });
            k += 1;
        }
        pens
    }

    /// The mode the list was laid out in.
    pub fn mode(&self) -> (mode: LayoutMode)
        ensures
            mode == self@.mode,
    {
        self.mode
    }

    /// The font the list was measured in.
    pub fn font(&self) -> (font: isize)
        ensures
            font == self@.font,
    {
        self.font
    }

    /// The candidates of the list, with their glyphs.
    pub fn candidates(&self) -> (cells: &Vec<Candidate>)
        ensures
            cells@ == self@.cells,
            cells.len() <= CANDI_NUM,
    {
        proof {
            use_type_invariant(self);
        }
        &self.cells
    }

    /// Width of the window.
    pub fn wnd_width(&self) -> (width: i32)
        ensures
            width == window_width(self@.mode, self@.cells),
    {
        proof {
            use_type_invariant(self);
        }
        self.wnd_width
    }

    /// Height of the window.
    pub fn wnd_height(&self) -> (height: i32)
        ensures
            height == window_height(self@.mode, self@.cells),
    {
        proof {
            use_type_invariant(self);
        }
        self.wnd_height
    }

    /// Width of the strip behind the first candidate.
    pub fn highlight_width(&self) -> (width: i32)
        ensures
            width == highlight_width(self@.mode, self@.cells),
            in_range(BORDER_WIDTH + CLIP_WIDTH + width),
    {
        proof {
            use_type_invariant(self);
        }
        self.highlight_width
    }

    /// Height of one row with its paddings.
    pub fn label_height(&self) -> (height: i32)
        ensures
            height == label_height(self@.cells),
            in_range(BORDER_WIDTH + height),
    {
        proof {
            use_type_invariant(self);
        }
        self.label_height
    }

    /// Width of the index column.
    pub fn index_width(&self) -> (width: i32)
        ensures
            width == index_width(self@.cells),
    {
        proof {
            use_type_invariant(self);
        }
        self.index_width
    }
}

/// Whether `b` measures at least what `a` measures: the lists are equally
/// long, and no label and no text of `b` is narrower or lower than its
/// counterpart in `a`.
pub open spec fn grown(a: Seq<Candidate>, b: Seq<Candidate>) -> bool {
    &&& a.len() == b.len()
    &&& forall|i: int|
        0 <= i < a.len() ==> {
            &&& (#[trigger] a[i]).label_extent.cx <= b[i].label_extent.cx
            &&& a[i].label_extent.cy <= b[i].label_extent.cy
            &&& a[i].text_extent.cx <= b[i].text_extent.cx
            &&& a[i].text_extent.cy <= b[i].text_extent.cy
        }
}

proof fn lemma_grown_without_last(a: Seq<Candidate>, b: Seq<Candidate>)
    requires
        grown(a, b),
        a.len() > 0,
    ensures
        grown(a.drop_last(), b.drop_last()),
        a.last().label_extent.cx <= b.last().label_extent.cx,
        a.last().label_extent.cy <= b.last().label_extent.cy,
        a.last().text_extent.cx <= b.last().text_extent.cx,
        a.last().text_extent.cy <= b.last().text_extent.cy,
{
    assert(a[a.len() - 1].text_extent.cx <= b[a.len() - 1].text_extent.cx);
    assert forall|i: int| 0 <= i < a.drop_last().len() implies {
        &&& (#[trigger] a.drop_last()[i]).label_extent.cx <= b.drop_last()[i].label_extent.cx
        &&& a.drop_last()[i].label_extent.cy <= b.drop_last()[i].label_extent.cy
        &&& a.drop_last()[i].text_extent.cx <= b.drop_last()[i].text_extent.cx
        &&& a.drop_last()[i].text_extent.cy <= b.drop_last()[i].text_extent.cy
    } by {
        assert(a[i].text_extent.cx <= b[i].text_extent.cx);
    }
}

proof fn lemma_maxima_monotonic(a: Seq<Candidate>, b: Seq<Candidate>)
    requires
        grown(a, b),
    ensures
        row_height(a) <= row_height(b),
        index_width(a) <= index_width(b),
        widest_text(a) <= widest_text(b),
    decreases a.len(),
{
    if a.len() > 0 {
        lemma_grown_without_last(a, b);
        lemma_maxima_monotonic(a.drop_last(), b.drop_last());
    }
}

proof fn lemma_strip_monotonic(a: Seq<Candidate>, b: Seq<Candidate>, wa: int, wb: int)
    requires
        grown(a, b),
        wa <= wb,
    ensures
        strip_width(a, wa) <= strip_width(b, wb),
    decreases a.len(),
{
    if a.len() > 0 {
        lemma_grown_without_last(a, b);
        lemma_strip_monotonic(a.drop_last(), b.drop_last(), wa, wb);
    }
}

/// The window never shrinks when text grows: if every label and every text
/// of a list `b` measures at least what its counterpart in a list `a` of the
/// same length measures, the window of `b` is at least as wide and at least
/// as high as that of `a`, in either mode.
pub proof fn lemma_window_monotonic(mode: LayoutMode, a: Seq<Candidate>, b: Seq<Candidate>)
    requires
        grown(a, b),
    ensures
        window_width(mode, a) <= window_width(mode, b),
        window_height(mode, a) <= window_height(mode, b),
{
    lemma_maxima_monotonic(a, b);
    lemma_strip_monotonic(a, b, index_width(a), index_width(b));
    let n = a.len() as int;
    let ha = label_height(a);
    let hb = label_height(b);
    assert(n * ha <= n * hb) by (nonlinear_arith)
        requires
            0 <= n,
            ha <= hb,
    ;
}

/// In a row the highlight is the first candidate's whole cell: both paddings,
/// the index column and the width of the first text.
pub proof fn lemma_highlight_is_first_cell(cells: Seq<Candidate>)
    requires
        cells.len() >= 1,
    ensures
        highlight_width(LayoutMode::Horizontal, cells) == LABEL_PADDING_LEFT + index_width(cells)
            + cells[0].text_extent.cx + LABEL_PADDING_RIGHT,
{
}

/// In a row the highlight does not depend on how many candidates follow the
/// first: two lists whose first texts are equally wide and whose index
/// columns are equally wide have the same highlight, whatever their lengths.
pub proof fn lemma_highlight_ignores_count(a: Seq<Candidate>, b: Seq<Candidate>)
    requires
        a.len() >= 1,
        b.len() >= 1,
        a[0].text_extent.cx == b[0].text_extent.cx,
        index_width(a) == index_width(b),
    ensures
        highlight_width(LayoutMode::Horizontal, a) == highlight_width(LayoutMode::Horizontal, b),
{
}

} // verus!
