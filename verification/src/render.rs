//! The render pass: painting the navigation state into the virtual
//! terminal's pending frame and flushing it.
//!
//! Row 0 shows the current path behind a fixed caption; rows `1..height`
//! show the children the windowing policy picks, the selected row
//! highlighted. A row whose windowing slot is blank is left untouched, so it
//! keeps the blank content every pending frame starts from.

use vstd::prelude::*;
use vstd::string::StrSliceExecFns;

use crate::nav::NavState;
use crate::terminal::{blank_grid, has_write_at, CellWrite, Color, VirtCell, VirtTerminal};
use crate::windowing::{child_index_for_row, lemma_window_containment, window_index};

verus! {

/// The header line's text: a fixed caption followed by the current path.
pub open spec fn header_text(path: Seq<char>) -> Seq<char> {
    "current path: "@ + path
}

/// The background color of a row: highlighted exactly when it is selected.
pub open spec fn row_color(selected: bool) -> Color {
    if selected {
        Color::DarkGrey
    } else {
        Color::Reset
    }
}

/// The cell at column `c` of a row showing `text`: the column's character,
/// or a space beyond the text's end.
pub open spec fn padded_cell(text: Seq<char>, fg: Color, bg: Color, c: int) -> VirtCell {
    VirtCell {
        content: if c < text.len() {
            text[c]
        } else {
            ' '
        },
        fg,
        bg,
    }
}

/// A full row of `w` cells showing `text`, padded with spaces on the right
/// and cut at the right edge.
pub open spec fn padded_line(text: Seq<char>, fg: Color, bg: Color, w: int) -> Seq<VirtCell> {
    Seq::new(w as nat, |c: int| padded_cell(text, fg, bg, c))
}

/// The frame one render pass paints over `before`: the header on row 0,
/// each visible child on its row, and rows with a blank windowing slot kept
/// as they were.
pub open spec fn drawn_frame(
    nav: NavState,
    before: Seq<Seq<VirtCell>>,
    w: int,
    h: int,
) -> Seq<Seq<VirtCell>> {
    Seq::new(
        before.len(),
        |r: int|
            if r == 0 {
                padded_line(
                    header_text(nav.current_path@),
                    Color::Reset,
                    row_color(nav.current_position == 0),
                    w,
                )
            } else if 1 <= r < h {
                match window_index(
                    nav.current_position as int,
                    nav.children@.len() as int,
                    h,
                    r,
                ) {
                    Some(i) => padded_line(
                        nav.children@[i]@,
                        Color::Reset,
                        row_color(nav.current_position as int == i + 1),
                        w,
                    ),
                    None => before[r],
                }
            } else {
                before[r]
            },
    )
}

/// Writes `text` into one row of the pending frame, one character per
/// column, padded with spaces to the full width and cut at the right edge.
pub fn line_with_text(term: &mut VirtTerminal, text: &str, row: usize, fg: Color, bg: Color)
    requires
        old(term).wf(),
        row < old(term).height,
    ensures
        final(term).wf(),
        final(term).width == old(term).width,
        final(term).height == old(term).height,
        final(term).forced() == old(term).forced(),
        final(term).prev() == old(term).prev(),
        final(term).pend().len() == old(term).pend().len(),
        forall|r: int|
            0 <= r < old(term).pend().len() && r != row ==> final(term).pend()[r] == old(
                term,
            ).pend()[r],
        final(term).pend()[row as int] == padded_line(text@, fg, bg, old(term).width as int),
{
    let len = text.unicode_len();
    let mut col: usize = 0;
    while col < term.width
        invariant
            term.wf(),
            term.width == old(term).width,
            term.height == old(term).height,
            term.forced() == old(term).forced(),
            term.prev() == old(term).prev(),
            term.pend().len() == old(term).pend().len(),
            row < term.height,
            col <= term.width,
            len as nat == text@.len(),
            forall|r: int|
                0 <= r < old(term).pend().len() && r != row ==> term.pend()[r] == old(
                    term,
                ).pend()[r],
            forall|c: int|
                0 <= c < col ==> term.pend()[row as int][c] == padded_line(
                    text@,
                    fg,
                    bg,
                    old(term).width as int,
                )[c],
        decreases term.width - col,
    {
        let content = if col < len {
            text.get_char(col)
        } else {
            ' '
        };
        let ghost before = term.pend();
        term.change_cell(row, col, content, fg, bg);
        proof {
            let cell = VirtCell { content, fg, bg };
            assert(term.pend()[row as int] == before[row as int].update(col as int, cell));
            assert forall|c: int| 0 <= c < col + 1 implies term.pend()[row as int][c]
                == padded_line(text@, fg, bg, old(term).width as int)[c] by {
                if c < col {
                    assert(term.pend()[row as int][c] == before[row as int][c]);
                } else {
                    assert(term.pend()[row as int][c] == cell);
                }
            }
        }
        col = col + 1;
    }
    proof {
        assert(term.pend()[row as int] =~= padded_line(text@, fg, bg, old(term).width as int));
    }
}

/// Renders the header row: the caption and the current path, highlighted
/// exactly when the header row itself is the selection.
pub fn render_current_path(nav: &NavState, term: &mut VirtTerminal)
    requires
        old(term).wf(),
        old(term).height >= 1,
    ensures
        final(term).wf(),
        final(term).width == old(term).width,
        final(term).height == old(term).height,
        final(term).forced() == old(term).forced(),
        final(term).prev() == old(term).prev(),
        final(term).pend().len() == old(term).pend().len(),
        forall|r: int|
            1 <= r < old(term).pend().len() ==> final(term).pend()[r] == old(term).pend()[r],
        final(term).pend()[0] == padded_line(
            header_text(nav.current_path@),
            Color::Reset,
            row_color(nav.current_position == 0),
            old(term).width as int,
        ),
{
    let caption = "current path: ";
    let plen = caption.unicode_len();
    let tlen = nav.current_path.as_str().unicode_len();
    let bg = if nav.current_position == 0 {
        Color::DarkGrey
    } else {
        Color::Reset
    };
    let ghost target = padded_line(
        header_text(nav.current_path@),
        Color::Reset,
        row_color(nav.current_position == 0),
        old(term).width as int,
    );
    let mut col: usize = 0;
    while col < term.width
        invariant
            term.wf(),
            term.width == old(term).width,
            term.height == old(term).height,
            term.forced() == old(term).forced(),
            term.prev() == old(term).prev(),
            term.pend().len() == old(term).pend().len(),
            term.height >= 1,
            col <= term.width,
            plen as nat == caption@.len(),
            tlen as nat == nav.current_path@.len(),
            caption@ == "current path: "@,
            bg == row_color(nav.current_position == 0),
            target == padded_line(
                header_text(nav.current_path@),
                Color::Reset,
                row_color(nav.current_position == 0),
                old(term).width as int,
            ),
            forall|r: int|
                1 <= r < old(term).pend().len() ==> term.pend()[r] == old(term).pend()[r],
            forall|c: int| 0 <= c < col ==> term.pend()[0][c] == target[c],
        decreases term.width - col,
    {
        let content = if col < plen {
            caption.get_char(col)
        } else if col - plen < tlen {
            nav.current_path.as_str().get_char(col - plen)
        } else {
            ' '
        };
        let ghost before = term.pend();
        term.change_cell(0, col, content, Color::Reset, bg);
        proof {
            let cell = VirtCell { content, fg: Color::Reset, bg };
            assert(term.pend()[0] == before[0].update(col as int, cell));
            assert forall|c: int| 0 <= c < col + 1 implies term.pend()[0][c] == target[c] by {
                if c < col {
                    assert(term.pend()[0][c] == before[0][c]);
                } else {
                    assert(term.pend()[0][c] == cell);
                    assert(header_text(nav.current_path@).len() == plen + tlen);
                    if c < plen + tlen {
                        if c < plen {
                            assert(header_text(nav.current_path@)[c] == caption@[c]);
                        } else {
                            assert(header_text(nav.current_path@)[c] == nav.current_path@[c
                                - plen]);
                        }
                    }
                }
            }
        }
        col = col + 1;
    }
    proof {
        assert(term.pend()[0] =~= target);
    }
}

/// Renders one child row: the child the windowing policy assigns to `row`,
/// highlighted exactly when it is the selected child; a row with a blank
/// windowing slot is left untouched.
pub fn render_child(nav: &NavState, term: &mut VirtTerminal, row: usize)
    requires
        old(term).wf(),
        nav.wf(),
        1 <= row < old(term).height,
    ensures
        final(term).wf(),
        final(term).width == old(term).width,
        final(term).height == old(term).height,
        final(term).forced() == old(term).forced(),
        final(term).prev() == old(term).prev(),
        final(term).pend().len() == old(term).pend().len(),
        forall|r: int|
            0 <= r < old(term).pend().len() && r != row ==> final(term).pend()[r] == old(
                term,
            ).pend()[r],
        final(term).pend()[row as int] == (match window_index(
            nav.current_position as int,
            nav.children@.len() as int,
            old(term).height as int,
            row as int,
        ) {
            Some(i) => padded_line(
                nav.children@[i]@,
                Color::Reset,
                row_color(nav.current_position as int == i + 1),
                old(term).width as int,
            ),
            None => old(term).pend()[row as int],
        }),
{
    match child_index_for_row(nav.current_position, nav.children.len(), term.height, row) {
        Some(child_index) => {
            proof {
                lemma_window_containment(
                    nav.current_position as int,
                    nav.children@.len() as int,
                    term.height as int,
                    row as int,
                );
            }
            let color = if nav.current_position == child_index + 1 {
                Color::DarkGrey
            } else {
                Color::Reset
            };
            let child = &nav.children[child_index];
            line_with_text(term, child.as_str(), row, Color::Reset, color);
        },
        None => {},
    }
}

/// One render pass: paints the header and every child row into the pending
/// frame, flushes, and returns the draw instructions for the physical
/// terminal — one per cell that changed since the previous flush (every
/// cell, after a resize), each cell at most once.
pub fn render(nav: &NavState, term: &mut VirtTerminal) -> (writes: Vec<CellWrite>)
    requires
        old(term).wf(),
        nav.wf(),
        old(term).height >= 1,
    ensures
        final(term).wf(),
        final(term).width == old(term).width,
        final(term).height == old(term).height,
        final(term).prev() == drawn_frame(
            *nav,
            old(term).pend(),
            old(term).width as int,
            old(term).height as int,
        ),
        final(term).pend() == blank_grid(old(term).width as int, old(term).height as int),
        !final(term).forced(),
        ({
            let drawn = drawn_frame(
                *nav,
                old(term).pend(),
                old(term).width as int,
                old(term).height as int,
            );
            &&& forall|k: int|
                0 <= k < writes@.len() ==> {
                    let w = #[trigger] writes@[k];
                    &&& w.row < old(term).height
                    &&& w.col < old(term).width
                    &&& (old(term).forced() || old(term).prev()[w.row as int][w.col as int]
                        != drawn[w.row as int][w.col as int])
                    &&& w.cell == drawn[w.row as int][w.col as int]
                }
            &&& forall|r: int, c: int|
                0 <= r < old(term).height && 0 <= c < old(term).width && (old(term).forced()
                    || old(term).prev()[r][c] != drawn[r][c]) ==> has_write_at(writes@, r, c)
            &&& forall|k1: int, k2: int|
                0 <= k1 < k2 < writes@.len() ==> !((#[trigger] writes@[k1]).row == (
                #[trigger] writes@[k2]).row && writes@[k1].col == writes@[k2].col)
        }),
{
    let ghost drawn = drawn_frame(
        *nav,
        old(term).pend(),
        old(term).width as int,
        old(term).height as int,
    );
    render_current_path(nav, term);
    let mut row: usize = 1;
    while row < term.height
        invariant
            term.wf(),
            nav.wf(),
            term.width == old(term).width,
            term.height == old(term).height,
            term.forced() == old(term).forced(),
            term.prev() == old(term).prev(),
            term.pend().len() == old(term).pend().len(),
            term.height >= 1,
            1 <= row <= term.height,
            drawn == drawn_frame(
                *nav,
                old(term).pend(),
                old(term).width as int,
                old(term).height as int,
            ),
            term.pend()[0] == drawn[0],
            forall|r: int| 1 <= r < row ==> term.pend()[r] == drawn[r],
            forall|r: int|
                row <= r < old(term).pend().len() ==> term.pend()[r] == old(term).pend()[r],
        decreases term.height - row,
    {
        render_child(nav, term, row);
        row = row + 1;
    }
    proof {
        assert(term.pend() =~= drawn);
    }
    term.flush()
}

} // verus!
