//! Double-buffered virtual terminal.
//!
//! A `VirtTerminal` owns two frames: `prev`, the last frame physically
//! written to the terminal, and `pend`, the frame being assembled for the
//! next flush. `flush` returns one draw instruction per cell whose pending
//! content differs from the previous frame (or for every cell after a
//! resize), so unchanged cells cost no terminal I/O. The caller performs the
//! actual device writes.

use vstd::prelude::*;

verus! {

/// The two cell colors the browser uses: the terminal's default, and the
/// highlight for the selected row.
#[derive(Clone, Copy, Debug, PartialEq, Eq, Structural)]
pub enum Color {
    Reset,
    DarkGrey,
}

/// One screen cell: a character with foreground and background colors.
#[derive(Clone, Copy, Debug, PartialEq, Eq, Structural)]
pub struct VirtCell {
    pub content: char,
    pub fg: Color,
    pub bg: Color,
}

impl VirtCell {
    /// The blank cell every frame starts from.
    pub open spec fn blank() -> VirtCell {
        VirtCell { content: ' ', fg: Color::Reset, bg: Color::Reset }
    }
}

impl Default for VirtCell {
    fn default() -> (r: Self)
        ensures
            r == VirtCell::blank(),
    {
        VirtCell { content: ' ', fg: Color::Reset, bg: Color::Reset }
    }
}

/// One cursor-move-and-draw instruction for the physical terminal.
#[derive(Clone, Copy, Debug, PartialEq, Eq, Structural)]
pub struct CellWrite {
    pub row: usize,
    pub col: usize,
    pub cell: VirtCell,
}

/// An `h`-row by `w`-column grid of blank cells.
pub open spec fn blank_grid(w: int, h: int) -> Seq<Seq<VirtCell>> {
    Seq::new(h as nat, |i: int| Seq::new(w as nat, |j: int| VirtCell::blank()))
}

/// The grid is rectangular: `h` rows of `w` cells each.
pub open spec fn grid_wf(g: Seq<Seq<VirtCell>>, w: int, h: int) -> bool {
    g.len() == h && forall|i: int| 0 <= i < h ==> (#[trigger] g[i]).len() == w
}

/// The mathematical view of a grid held as a vector of rows.
pub open spec fn grid_of(cells: Vec<Vec<VirtCell>>) -> Seq<Seq<VirtCell>> {
    Seq::new(cells@.len(), |i: int| cells@[i]@)
}

/// `w` stands strictly before row `r`, column `c` in row-major order.
spec fn write_before(w: CellWrite, r: int, c: int) -> bool {
    w.row < r || (w.row == r && w.col < c)
}

/// Some instruction in `ws` addresses row `r`, column `c`.
pub open spec fn has_write_at(ws: Seq<CellWrite>, r: int, c: int) -> bool {
    exists|k: int| 0 <= k < ws.len() && (#[trigger] ws[k]).row == r && ws[k].col == c
}

proof fn lemma_has_write_push(ws: Seq<CellWrite>, w: CellWrite, r: int, c: int)
    requires
        has_write_at(ws, r, c),
    ensures
        has_write_at(ws.push(w), r, c),
{
    let k = choose|k: int| 0 <= k < ws.len() && (#[trigger] ws[k]).row == r && ws[k].col == c;
    assert(ws.push(w)[k].row == r && ws.push(w)[k].col == c);
}

fn blank_cells(width: usize, height: usize) -> (r: Vec<Vec<VirtCell>>)
    ensures
        grid_of(r) == blank_grid(width as int, height as int),
{
    let mut rows: Vec<Vec<VirtCell>> = Vec::new();
    let mut i: usize = 0;
    while i < height
        invariant
            i <= height,
            rows@.len() == i,
            forall|k: int| 0 <= k < i ==> (#[trigger] rows@[k])@ == Seq::new(
                width as nat,
                |j: int| VirtCell::blank(),
            ),
        decreases height - i,
    {
        let mut row: Vec<VirtCell> = Vec::new();
        let mut j: usize = 0;
        while j < width
            invariant
                j <= width,
                row@.len() == j,
                forall|k: int| 0 <= k < j ==> #[trigger] row@[k] == VirtCell::blank(),
            decreases width - j,
        {
            row.push(VirtCell::default());
            j = j + 1;
        }
        proof {
            assert(row@ =~= Seq::new(width as nat, |j: int| VirtCell::blank()));
        }
        rows.push(row);
        i = i + 1;
    }
    proof {
        assert(grid_of(rows) =~= blank_grid(width as int, height as int));
    }
    rows
}

/// The virtual screen: the previously flushed frame, the frame in progress,
/// and the advertised dimensions.
pub struct VirtTerminal {
    pub old_cells: Vec<Vec<VirtCell>>,
    pub new_cells: Vec<Vec<VirtCell>>,
    pub redraw_all: bool,
    pub width: usize,
    pub height: usize,
}

impl VirtTerminal {
    /// The frame last flushed to the physical terminal.
    pub open spec fn prev(self) -> Seq<Seq<VirtCell>> {
        grid_of(self.old_cells)
    }

    /// The frame being assembled for the next flush.
    pub open spec fn pend(self) -> Seq<Seq<VirtCell>> {
        grid_of(self.new_cells)
    }

    /// Whether the next flush must treat every cell as changed; set by
    /// `resize`, cleared by `flush`.
    pub open spec fn forced(self) -> bool {
        self.redraw_all
    }

    /// Both frames are rectangular with the advertised dimensions.
    pub open spec fn wf(self) -> bool {
        &&& grid_wf(self.prev(), self.width as int, self.height as int)
        &&& grid_wf(self.pend(), self.width as int, self.height as int)
    }

    /// Whether the next `flush` will emit a write for the cell at row `r`,
    /// column `c`: only where the pending frame differs from the previous
    /// one, or everywhere after a resize.
    pub open spec fn emits_at(self, r: int, c: int) -> bool {
        self.forced() || self.prev()[r][c] != self.pend()[r][c]
    }

    pub fn new(width: usize, height: usize) -> (t: Self)
        ensures
            t.wf(),
            t.width == width,
            t.height == height,
            t.prev() == blank_grid(width as int, height as int),
            t.pend() == blank_grid(width as int, height as int),
            !t.forced(),
    {
        let old_cells = blank_cells(width, height);
        let new_cells = blank_cells(width, height);
        Self { old_cells, new_cells, redraw_all: false, width, height }
    }

    /// Writes one cell of the pending frame; the physical terminal is not
    /// touched. Writing out of bounds is a caller error, excluded here.
    pub fn change_cell(&mut self, row: usize, col: usize, content: char, fg: Color, bg: Color)
        requires
            old(self).wf(),
            row < old(self).height,
            col < old(self).width,
        ensures
            final(self).wf(),
            final(self).width == old(self).width,
            final(self).height == old(self).height,
            final(self).forced() == old(self).forced(),
            final(self).prev() == old(self).prev(),
            final(self).pend() == old(self).pend().update(
                row as int,
                old(self).pend()[row as int].update(
                    col as int,
                    VirtCell { content, fg, bg },
                ),
            ),
    {
        proof {
            assert(self.new_cells@.len() == self.pend().len());
            assert(self.new_cells@[row as int]@ == self.pend()[row as int]);
            assert(self.pend()[row as int].len() == self.width as int);
        }
        self.new_cells[row][col] = VirtCell { content, fg, bg };
        proof {
            assert(self.pend() =~~= old(self).pend().update(
                row as int,
                old(self).pend()[row as int].update(col as int, VirtCell { content, fg, bg }),
            ));
        }
    }

    /// Diffs the pending frame against the previous one and returns exactly
    /// one draw instruction per cell that must be redrawn: the cells where
    /// the two frames differ, or every cell when a resize forced a full
    /// redraw. Afterwards the pending frame becomes the previous one and a
    /// blank pending frame is started.
    pub fn flush(&mut self) -> (writes: Vec<CellWrite>)
        requires
            old(self).wf(),
        ensures
            final(self).wf(),
            final(self).width == old(self).width,
            final(self).height == old(self).height,
            final(self).prev() == old(self).pend(),
            final(self).pend() == blank_grid(old(self).width as int, old(self).height as int),
            !final(self).forced(),
            forall|k: int|
                0 <= k < writes@.len() ==> {
                    let w = #[trigger] writes@[k];
                    &&& w.row < old(self).height
                    &&& w.col < old(self).width
                    &&& old(self).emits_at(w.row as int, w.col as int)
                    &&& w.cell == old(self).pend()[w.row as int][w.col as int]
                },
            forall|r: int, c: int|
                0 <= r < old(self).height && 0 <= c < old(self).width && old(self).emits_at(r, c)
                    ==> has_write_at(writes@, r, c),
            forall|k1: int, k2: int|
                0 <= k1 < k2 < writes@.len() ==> !((#[trigger] writes@[k1]).row == (
                #[trigger] writes@[k2]).row && writes@[k1].col == writes@[k2].col),
    {
        let mut writes: Vec<CellWrite> = Vec::new();
        let mut i: usize = 0;
        while i < self.height
            invariant
                *self == *old(self),
                self.wf(),
                i <= self.height,
                forall|k: int|
                    0 <= k < writes@.len() ==> {
                        let w = #[trigger] writes@[k];
                        &&& w.row < self.height
                        &&& w.col < self.width
                        &&& self.emits_at(w.row as int, w.col as int)
                        &&& w.cell == self.pend()[w.row as int][w.col as int]
                    },
                forall|k: int|
                    0 <= k < writes@.len() ==> write_before(#[trigger] writes@[k], i as int, 0),
                forall|k1: int, k2: int|
                    0 <= k1 < k2 < writes@.len() ==> write_before(
                        #[trigger] writes@[k1],
                        (#[trigger] writes@[k2]).row as int,
                        writes@[k2].col as int,
                    ),
                forall|r: int, c: int|
                    0 <= r < i && 0 <= c < self.width && self.emits_at(r, c) ==> has_write_at(
                        writes@,
                        r,
                        c,
                    ),
            decreases self.height - i,
        {
            let mut j: usize = 0;
            while j < self.width
                invariant
                    *self == *old(self),
                    self.wf(),
                    i < self.height,
                    j <= self.width,
                    forall|k: int|
                        0 <= k < writes@.len() ==> {
                            let w = #[trigger] writes@[k];
                            &&& w.row < self.height
                            &&& w.col < self.width
                            &&& self.emits_at(w.row as int, w.col as int)
                            &&& w.cell == self.pend()[w.row as int][w.col as int]
                        },
                    forall|k: int|
                        0 <= k < writes@.len() ==> write_before(
                            #[trigger] writes@[k],
                            i as int,
                            j as int,
                        ),
                    forall|k1: int, k2: int|
                        0 <= k1 < k2 < writes@.len() ==> write_before(
                            #[trigger] writes@[k1],
                            (#[trigger] writes@[k2]).row as int,
                            writes@[k2].col as int,
                        ),
                    forall|r: int, c: int|
                        0 <= r < i && 0 <= c < self.width && self.emits_at(r, c) ==> has_write_at(
                            writes@,
                            r,
                            c,
                        ),
                    forall|c: int|
                        0 <= c < j && self.emits_at(i as int, c) ==> has_write_at(
                            writes@,
                            i as int,
                            c,
                        ),
                decreases self.width - j,
            {
                proof {
                    assert(self.old_cells@.len() == self.prev().len());
                    assert(self.old_cells@[i as int]@ == self.prev()[i as int]);
                    assert(self.prev()[i as int].len() == self.width as int);
                    assert(self.new_cells@.len() == self.pend().len());
                    assert(self.new_cells@[i as int]@ == self.pend()[i as int]);
                    assert(self.pend()[i as int].len() == self.width as int);
                }
                let oc = self.old_cells[i][j];
                let nc = self.new_cells[i][j];
                if self.redraw_all || oc != nc {
                    let w = CellWrite { row: i, col: j, cell: nc };
                    proof {
                        assert(forall|r: int, c: int|
                            has_write_at(writes@, r, c) ==> has_write_at(
                                writes@.push(w),
                                r,
                                c,
                            )) by {
                            assert forall|r: int, c: int|
                                has_write_at(writes@, r, c) implies has_write_at(
                                writes@.push(w),
                                r,
                                c,
                            ) by {
                                lemma_has_write_push(writes@, w, r, c);
                            }
                        }
                    }
                    writes.push(w);
                    proof {
                        assert(writes@[writes@.len() - 1].row == i as int);
                        assert(has_write_at(writes@, i as int, j as int));
                    }
                }
                j = j + 1;
            }
            i = i + 1;
        }
        let mut blank = blank_cells(self.width, self.height);
        std::mem::swap(&mut self.old_cells, &mut self.new_cells);
        std::mem::swap(&mut self.new_cells, &mut blank);
        self.redraw_all = false;
        proof {
            assert(self.prev() =~~= old(self).pend());
        }
        writes
    }

    /// Reallocates both frames blank at the new dimensions and forces the
    /// next flush to redraw every cell: the physical terminal's content is
    /// invalid after a resize, so no diff is carried across it.
    pub fn resize(&mut self, width: usize, height: usize)
        ensures
            final(self).wf(),
            final(self).width == width,
            final(self).height == height,
            final(self).prev() == blank_grid(width as int, height as int),
            final(self).pend() == blank_grid(width as int, height as int),
            final(self).forced(),
    {
        self.old_cells = blank_cells(width, height);
        self.new_cells = blank_cells(width, height);
        self.width = width;
        self.height = height;
        self.redraw_all = true;
    }
}

/// Diff minimality: in a terminal that has just flushed a frame `a` and
/// whose pending frame holds exactly `b`, the coming flush emits a write at
/// a cell precisely when `a` and `b` differ there; in particular, flushing
/// identical content twice emits nothing the second time.
pub proof fn lemma_diff_minimality(t: VirtTerminal, a: Seq<Seq<VirtCell>>, b: Seq<Seq<VirtCell>>)
    requires
        t.wf(),
        !t.forced(),
        t.prev() == a,
        t.pend() == b,
    ensures
        forall|r: int, c: int|
            0 <= r < t.height && 0 <= c < t.width ==> (#[trigger] t.emits_at(r, c) <==> a[r][c]
                != b[r][c]),
        a == b ==> forall|r: int, c: int|
            0 <= r < t.height && 0 <= c < t.width ==> !(#[trigger] t.emits_at(r, c)),
{
}

/// Resize invalidation: after a resize the terminal is in forced-redraw
/// state, so the immediately following flush emits a write for every one of
/// the `width * height` cells, regardless of prior content.
pub proof fn lemma_resize_invalidation(t: VirtTerminal, r: int, c: int)
    requires
        t.forced(),
        0 <= r < t.height,
        0 <= c < t.width,
    ensures
        t.emits_at(r, c),
{
}

} // verus!
