//! Viewport windowing: which child index each screen row shows.
//!
//! Row 0 of the viewport is reserved for the path header; rows `1..height`
//! display children. The policy is "centered follow, clamped at edges": the
//! window is pinned to the start of the list while the selection is near the
//! top, pinned to the end once the selection is near the bottom (or the list
//! is short relative to the viewport), and otherwise scrolls so that the
//! selection stays at a fixed distance from the vertical midpoint.

use vstd::prelude::*;

verus! {

/// The vertical midpoint of the child area for a viewport of `h` rows.
pub open spec fn window_mid(h: int) -> int {
    h / 2
}

/// The child index shown at screen row `row` (with `1 <= row < h`), for a
/// list of `n` children and selection index `sel`; `None` means the row is
/// blank because the computed index falls outside the list.
pub open spec fn window_index(sel: int, n: int, h: int, row: int) -> Option<int> {
    let mid = window_mid(h);
    let idx = if sel < mid {
        row - 1
    } else if sel >= n - mid {
        if n < h - 1 {
            row - 1
        } else {
            n + row - h
        }
    } else {
        sel + row - mid
    };
    if 0 <= idx && idx < n {
        Some(idx)
    } else {
        None
    }
}

/// Computes `window_index` on machine integers, free of under- and overflow.
pub fn child_index_for_row(selection: usize, len: usize, height: usize, row: usize) -> (r: Option<
    usize,
>)
    requires
        1 <= row < height,
        selection <= len,
    ensures
        r is Some <==> window_index(
            selection as int,
            len as int,
            height as int,
            row as int,
        ) is Some,
        r matches Some(i) ==> window_index(selection as int, len as int, height as int, row as int)
            == Some(i as int),
{
    let mid: usize = height / 2;
    let idx: usize = if selection < mid {
        row - 1
    } else if len - selection <= mid {
        // selection >= len - mid: the window is pinned to the end of the list
        if len < height - 1 {
            row - 1
        } else {
            len - (height - row)
        }
    } else {
        // interior: the selection keeps its distance `mid` from the top row
        assert(row <= 2 * mid);
        if row >= mid {
            selection + (row - mid)
        } else {
            selection - (mid - row)
        }
    };
    if idx < len {
        Some(idx)
    } else {
        None
    }
}

/// Containment: every index the windowing policy produces points at an
/// existing child; rows whose computed index falls outside the list are
/// blank instead.
pub proof fn lemma_window_containment(sel: int, n: int, h: int, row: int)
    requires
        h >= 1,
        1 <= row < h,
        0 <= sel <= n,
    ensures
        window_index(sel, n, h, row) matches Some(i) ==> 0 <= i < n,
{
}

/// Contiguity: within one frame the visible rows show consecutive children
/// in increasing order, so no child is duplicated or skipped; in particular
/// two distinct rows never show the same child.
pub proof fn lemma_window_contiguous(sel: int, n: int, h: int, r1: int, r2: int)
    requires
        h >= 1,
        1 <= r1 < h,
        1 <= r2 < h,
        0 <= sel <= n,
        window_index(sel, n, h, r1) is Some,
        window_index(sel, n, h, r2) is Some,
    ensures
        window_index(sel, n, h, r2)->0 - window_index(sel, n, h, r1)->0 == r2 - r1,
{
}

/// Centered follow: in the interior regime the midpoint row of the child
/// area shows the child at index `sel`, and the selected child (index
/// `sel - 1`) sits on the row just above the midpoint.
pub proof fn lemma_window_centering(sel: int, n: int, h: int)
    requires
        2 <= h,
        n > h,
        window_mid(h) <= sel < n - window_mid(h),
    ensures
        window_index(sel, n, h, window_mid(h)) == Some(sel),
        window_mid(h) >= 2 ==> window_index(sel, n, h, window_mid(h) - 1) == Some(sel - 1),
{
}

/// Clamping when the list fits on screen (`n <= h - 1`): whatever the
/// selection, row `r` shows child `r - 1` for `1 <= r <= n` and is blank
/// below the list's end, so the view never scrolls.
pub proof fn lemma_window_list_fits(sel: int, n: int, h: int, row: int)
    requires
        h >= 1,
        1 <= row < h,
        0 <= sel <= n,
        n <= h - 1,
    ensures
        row <= n ==> window_index(sel, n, h, row) == Some(row - 1),
        row > n ==> window_index(sel, n, h, row) is None,
{
    assert(2 * window_mid(h) >= h - 1);
}

} // verus!
