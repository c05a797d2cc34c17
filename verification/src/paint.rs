//! Paint pipeline: what one repaint of the candidate window draws.
//!
//! A repaint takes the layout that waits for its window and turns it into a
//! list of drawing operations, back to front. Performing them is left to the
//! caller, which owns the device context.

use crate::layout::{
    highlight_width, in_range, label_height, pen_x, pen_y, representable, text_x, window_height,
    window_width, Layout, LayoutView, BORDER_WIDTH, CLIP_WIDTH,
};
use crate::mailbox::Mailbox;
use vstd::prelude::*;

verus! {

/// Colour of a candidate's text, as 0xRRGGBB.
pub const TEXT_COLOR: u32 = 0x000000;

/// Colour of the first candidate's text.
pub const TEXT_HIGHLIGHT_COLOR: u32 = 0x000000;

/// Colour of the index labels.
pub const TEXT_INDEX_COLOR: u32 = 0xA0A0A0;

/// Colour of the accent bar.
pub const CLIP_COLOR: u32 = 0x0078D7;

/// Colour of the window.
pub const WND_COLOR: u32 = 0xFAFAFA;

/// Colour of the strip behind the first candidate.
pub const HIGHLIGHT_COLOR: u32 = 0xE8E8FF;

/// One drawing operation. Coordinates are pixels from the window's top left
/// corner.
#[derive(Clone, Copy, Debug, PartialEq, Eq)]
pub enum DrawOp {
    /// Fills a rectangle, `right` and `bottom` excluded.
    Fill { left: i32, top: i32, right: i32, bottom: i32, color: u32 },
    /// Selects the font of the glyphs drawn after it.
    SelectFont { font: isize },
    /// Lets what was filled show through the glyphs drawn after it.
    TransparentText,
    /// Draws the index label of the candidate at position `cell`.
    Label { x: i32, y: i32, cell: usize, color: u32 },
    /// Draws the text of the candidate at position `cell`.
    Text { x: i32, y: i32, cell: usize, color: u32 },
}

/// The fill of the whole window.
pub open spec fn background(v: LayoutView) -> DrawOp {
    DrawOp::Fill {
        left: 0,
        top: 0,
        right: window_width(v.mode, v.cells) as i32,
        bottom: window_height(v.mode, v.cells) as i32,
        color: WND_COLOR,
    }
}

/// The accent bar at the left edge, one row high.
pub open spec fn clip_bar(v: LayoutView) -> DrawOp {
    DrawOp::Fill {
        left: BORDER_WIDTH,
        top: BORDER_WIDTH,
        right: (BORDER_WIDTH + CLIP_WIDTH) as i32,
        bottom: (BORDER_WIDTH + label_height(v.cells)) as i32,
        color: CLIP_COLOR,
    }
}

/// The strip behind the first candidate, right of the accent bar.
pub open spec fn highlight(v: LayoutView) -> DrawOp {
    DrawOp::Fill {
        left: (BORDER_WIDTH + CLIP_WIDTH) as i32,
        top: BORDER_WIDTH,
        right: (BORDER_WIDTH + CLIP_WIDTH + highlight_width(v.mode, v.cells)) as i32,
        bottom: (BORDER_WIDTH + label_height(v.cells)) as i32,
        color: HIGHLIGHT_COLOR,
    }
}

/// The index label of candidate `i`.
pub open spec fn label_op(v: LayoutView, i: int) -> DrawOp {
    DrawOp::Label {
        x: pen_x(v.mode, v.cells, i) as i32,
        y: pen_y(v.mode, v.cells, i) as i32,
        cell: i as usize,
        color: TEXT_INDEX_COLOR,
    }
}

/// The text of candidate `i`; the first one in the highlighted colour.
pub open spec fn text_op(v: LayoutView, i: int) -> DrawOp {
    DrawOp::Text {
        x: text_x(v.mode, v.cells, i) as i32,
        y: pen_y(v.mode, v.cells, i) as i32,
        cell: i as usize,
        color: if i == 0 {
            TEXT_HIGHLIGHT_COLOR
        } else {
            TEXT_COLOR
        },
    }
}

/// Label and text of every candidate, in the order of the list.
pub open spec fn glyph_ops(v: LayoutView) -> Seq<DrawOp> {
    Seq::new(
        2 * v.cells.len(),
        |k: int|
            if k % 2 == 0 {
                label_op(v, k / 2)
            } else {
                text_op(v, k / 2)
            },
    )
}

/// What is drawn before the glyphs of a list that is not empty: the fills,
/// then the font and the background mode of the text.
pub open spec fn backdrop(v: LayoutView) -> Seq<DrawOp> {
    seq![
        background(v),
        clip_bar(v),
        highlight(v),
        DrawOp::SelectFont { font: v.font },
        DrawOp::TransparentText,
    ]
}

/// Everything one repaint draws, back to front. Where the coordinates are
/// in range (see [`representable`]), none of the narrowings in it loses
/// anything. For an empty list only the window and the accent bar are
/// filled.
pub open spec fn paint_plan(v: LayoutView) -> Seq<DrawOp> {
    if v.cells.len() == 0 {
        seq![background(v), clip_bar(v)]
    } else {
        backdrop(v) + glyph_ops(v)
    }
}

/// The fill of the rectangle that starts at (`x`, `y`) and has the given
/// size.
fn fill_rect(x: i32, y: i32, width: i32, height: i32, color: u32) -> (op: DrawOp)
    requires
        in_range(x + width),
        in_range(y + height),
    ensures
        op == (DrawOp::Fill { left: x, top: y, right: (x + width) as i32, bottom: (y + height) as i32, color }),
{
    DrawOp::Fill { left: x, top: y, right: x + width, bottom: y + height, color }
}

/// The drawing operations of one layout.
pub fn plan(layout: &Layout) -> (ops: Vec<DrawOp>)
    ensures
        representable(layout@.mode, layout@.cells),
        ops@ == paint_plan(layout@),
{
    let pens = layout.pens();
    let label_height = layout.label_height();
    let mut ops: Vec<DrawOp> = Vec::new();
    ops.push(fill_rect(0, 0, layout.wnd_width(), layout.wnd_height(), WND_COLOR));
    ops.push(fill_rect(BORDER_WIDTH, BORDER_WIDTH, CLIP_WIDTH, label_height, CLIP_COLOR));
    if pens.len() == 0 {
        proof {
            assert(ops@ =~= paint_plan(layout@));
        }
        return ops;
    }
    ops.push(
        fill_rect(
            BORDER_WIDTH + CLIP_WIDTH,
            BORDER_WIDTH,
            layout.highlight_width(),
            label_height,
            HIGHLIGHT_COLOR,
        ),
    );
    ops.push(DrawOp::SelectFont { font: layout.font() });
    ops.push(DrawOp::TransparentText);
    let ghost head = ops@;
    assert(head =~= backdrop(layout@));
    let mut k: usize = 0;
    while k < pens.len()
        invariant
            k <= pens.len() == layout@.cells.len(),
            head == backdrop(layout@),
            forall|i: int|
                0 <= i < pens.len() ==> {
                    &&& (#[trigger] pens[i]).x == pen_x(layout@.mode, layout@.cells, i)
                    &&& pens[i].text_x == text_x(layout@.mode, layout@.cells, i)
                    &&& pens[i].y == pen_y(layout@.mode, layout@.cells, i)
                },
            ops@.len() == head.len() + 2 * k,
            ops@.subrange(0, head.len() as int) == head,
            forall|j: int|
                0 <= j < 2 * k ==> #[trigger] ops@[head.len() + j] == glyph_ops(layout@)[j],
        decreases pens.len() - k,
    {
        let pen = pens[k];
        let color = if k == 0 {
            TEXT_HIGHLIGHT_COLOR
        } else {
            TEXT_COLOR
        };
        ops.push(DrawOp::Label { x: pen.x, y: pen.y, cell: k, color: TEXT_INDEX_COLOR });
        ops.push(DrawOp::Text { x: pen.text_x, y: pen.y, cell: k, color });
        proof {
            assert(ops@.subrange(0, head.len() as int) =~= head);
            assert(glyph_ops(layout@)[2 * k] == label_op(layout@, k as int));
            assert(glyph_ops(layout@)[2 * k + 1] == text_op(layout@, k as int));
        }
        k += 1;
    }
    proof {
        let target = paint_plan(layout@);
        assert forall|i: int| 0 <= i < ops@.len() implies ops@[i] == target[i] by {
            if i < head.len() {
                assert(ops@.subrange(0, head.len() as int)[i] == head[i]);
            } else {
                assert(ops@[head.len() + (i - head.len())] == glyph_ops(layout@)[i - head.len()]);
            }
        }
        assert(ops@ =~= target);
    }
    ops
}

/// What a repaint found waiting: the layout, which holds the glyphs, and the
/// operations that draw it.
pub struct Frame {
    pub layout: Layout,
    pub ops: Vec<DrawOp>,
}

/// One repaint of a window. It takes the layout that waits for the window
/// and plans its drawing; nothing waits for the window afterwards. Where
/// nothing waited, nothing is drawn.
pub fn paint(mailbox: &mut Mailbox, window: isize) -> (frame: Option<Frame>)
    ensures
        final(mailbox)@ == old(mailbox)@.remove(window),
        match frame {
            Some(frame) => {
                &&& old(mailbox)@.contains_key(window)
                &&& frame.layout == old(mailbox)@[window]
                &&& frame.ops@ == paint_plan(frame.layout@)
                &&& representable(frame.layout@.mode, frame.layout@.cells)
            },
            None => !old(mailbox)@.contains_key(window),
        },
{
    match mailbox.take(window) {
        Some(layout) => {
            let ops = plan(&layout);
            Some(Frame { layout, ops })
        },
        None => None,
    }
}

} // verus!
