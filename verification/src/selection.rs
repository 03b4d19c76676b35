//! The selected row of a list: how it moves and where it stops.

use vstd::prelude::*;

verus! {

/// The height of one row of a list, in pixels.
pub const ROW_HEIGHT: usize = 28;

/// The row of a list of `count` rows that is nearest to an index; 0 where the
/// list is empty.
pub open spec fn nearest_row(index: int, count: int) -> int {
    if index < 0 || count <= 0 {
        0
    } else if index >= count {
        count - 1
    } else {
        index
    }
}

/// Keeps a selection within a list of `row_count` rows.
pub fn clamp_selected_index(selected_index: usize, row_count: usize) -> (index: usize)
    ensures
        index == nearest_row(selected_index as int, row_count as int),
{
    if row_count == 0 {
        0
    } else if selected_index >= row_count {
        row_count - 1
    } else {
        selected_index
    }
}

/// Moves a selection by a number of rows and stops at the edges of the list.
pub fn move_selection(selected_index: usize, row_count: usize, delta: isize) -> (index: usize)
    ensures
        index == nearest_row(selected_index + delta, row_count as int),
{
    if row_count == 0 {
        return 0;
    }
    if delta >= 0 {
        let step: usize = delta as usize;
        if selected_index >= row_count || step >= row_count - selected_index {
            row_count - 1
        } else {
            selected_index + step
        }
    } else if delta == isize::MIN {
        let half: usize = isize::MAX as usize;
        if selected_index <= half {
            0
        } else {
            clamp_selected_index(selected_index - half - 1, row_count)
        }
    } else {
        let step: usize = (-delta) as usize;
        if step >= selected_index {
            0
        } else {
            clamp_selected_index(selected_index - step, row_count)
        }
    }
}

/// The number of rows in half a viewport of the given height in whole pixels,
/// and 1 where it shows fewer than four rows.
pub open spec fn half_page(viewport_height: nat) -> nat {
    let rows = viewport_height / ROW_HEIGHT as nat / 2;
    if rows < 1 {
        1
    } else {
        rows
    }
}

/// The number of rows that a half-page jump covers.
pub fn half_page_rows(viewport_height: usize) -> (rows: usize)
    ensures
        rows == half_page(viewport_height as nat),
        1 <= rows <= isize::MAX,
{
    let rows = viewport_height / ROW_HEIGHT / 2;
    if rows < 1 {
        1
    } else {
        rows
    }
}

/// A moved selection is a row of the list, wherever it came from and however
/// far it was sent.
pub proof fn moved_selection_is_a_row(index: int, count: int)
    requires
        count > 0,
    ensures
        0 <= nearest_row(index, count) < count,
{
}

/// A step that did not stop at an edge is undone by the opposite step.
pub proof fn opposite_step_returns(index: int, count: int, delta: int)
    requires
        0 <= index < count,
        0 <= index + delta < count,
    ensures
        nearest_row(nearest_row(index + delta, count) - delta, count) == index,
{
}

/// At an edge, stepping outwards changes nothing.
pub proof fn edges_hold(count: int, delta: int)
    requires
        count > 0,
        delta >= 0,
    ensures
        nearest_row(0 - delta, count) == 0,
        nearest_row(count - 1 + delta, count) == count - 1,
{
}

/// A row of the list is its own nearest row; what is before the first row is nearest to
/// it, and what is behind the last row to that.
pub proof fn rows_are_nearest_to_themselves(index: int, count: int)
    ensures
        0 <= index < count ==> nearest_row(index, count) == index,
        index < 0 ==> nearest_row(index, count) == 0,
        0 < count <= index ==> nearest_row(index, count) == count - 1,
        count <= 0 ==> nearest_row(index, count) == 0,
{
}

/// A half-page jump covers as many rows as fit into the viewport twice, and one row where
/// not even one does.
pub proof fn half_pages_fit_the_viewport(viewport_height: nat)
    ensures
        viewport_height >= 56 ==> half_page(viewport_height) * 56 <= viewport_height < (half_page(
            viewport_height,
        ) + 1) * 56,
        viewport_height < 56 ==> half_page(viewport_height) == 1,
{
}

} // verus!
