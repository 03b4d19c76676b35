//! What the priority-queue panel promises over several operations.

use crate::display::LoadView;
use crate::paths::{components, same_path};
use crate::priority_queue::rendering::marks_floor;
use crate::priority_queue::{
    has_unsaved_changes, lemma_place_from, lemma_selection_holds, open_items, place_from,
    projection_view, stepped, ChangeView, OpenItem, PriorityChange, QueueProjection,
    QueueProjectionRow, QueueRow, QueueState, QueueView,
};
use crate::text::owned_text;
use vstd::prelude::*;

verus! {

/// Whatever is projected, the selection is on a row, or at 0 where there is none.
pub proof fn refresh_keeps_a_selection(state: QueueState, projection: QueueView)
    requires
        state.selection_holds(),
    ensures
        state.showing(projection).selection_holds(),
{
    lemma_selection_holds(state.selected_id(), state.selected, projection.rows);
}

/// Where the selected row is still there in a new projection, it stays selected,
/// wherever the queue has put it.
pub proof fn selection_follows_its_row(state: QueueState, projection: QueueView, place: int)
    requires
        state.selected_id() is Some,
        0 <= place < projection.rows.len(),
        projection.rows[place].id == state.selected_id()->0,
    ensures
        state.showing(projection).selected_id() == state.selected_id(),
{
    lemma_place_from(projection.rows, state.selected_id()->0, 0);
}

/// The panel shows the rows in the order in which they were projected.
pub proof fn projected_order_is_kept(state: QueueState, projection: QueueView)
    ensures
        state.refreshed(Ok(projection)).0.rows() == projection.rows,
{
}

/// A failed refresh changes nothing but what is said of the loading.
pub proof fn failure_keeps_the_rows(state: QueueState, message: Seq<char>)
    ensures
        state.refreshed(Err(message)).0 == (QueueState { load: LoadView::Error(message), ..state }),
{
}

/// A stepped priority is from 1 to 100, and as far from the old one as was asked
/// unless it stopped there.
pub proof fn stepped_priority_is_bounded(rounded: int, delta: int)
    ensures
        1 <= stepped(rounded, delta) <= 100,
        1 <= rounded + delta <= 100 ==> stepped(rounded, delta) == rounded + delta,
{
}

/// A step that did not stop at a bound is undone by the opposite step.
pub proof fn opposite_step_returns(rounded: int, delta: int)
    requires
        1 <= rounded <= 100,
        1 <= rounded + delta <= 100,
    ensures
        stepped(stepped(rounded, delta), -delta) == rounded,
{
}

/// A request for another priority is for the selected row as it was projected,
/// names a priority from 1 to 100 that differs from the row's own, and is never
/// made over unsaved changes.
pub proof fn requests_are_warranted(state: QueueState, delta: int, items: Option<Seq<OpenItem>>)
    requires
        state.repricing(delta, items).1 is Requested,
    ensures
        ({
            let row = state.row_at(state.selected)->0;
            &&& state.row_at(state.selected) is Some
            &&& items is Some
            &&& !has_unsaved_changes(items->0, row.path)
            &&& state.repricing(delta, items).1->id == row.id
            &&& state.repricing(delta, items).1->fingerprint == row.fingerprint
            &&& 1 <= state.repricing(delta, items).1->priority <= 100
            &&& !(row.priority.whole && row.priority.rounded
                == state.repricing(delta, items).1->priority)
        }),
{
}

/// A step never touches the rows: the queue's order and priorities are the
/// runtime's.
pub proof fn steps_leave_the_rows(state: QueueState, delta: int, items: Option<Seq<OpenItem>>)
    ensures
        state.repricing(delta, items).0.projection == state.projection,
        state.repricing(delta, items).0.selected == state.selected,
{
}

/// Whether an open item with unsaved changes has a path of the same components.
spec fn is_unsaved(items: Seq<OpenItem>, path: Seq<char>) -> bool {
    exists|i: int|
        0 <= i < items.len() && (#[trigger] items[i]).dirty && items[i].path is Some && components(
            items[i].path->0@,
        ) == components(path)
}

/// A path has unsaved changes exactly where some open item with unsaved changes has a
/// path of the same components.
pub proof fn unsaved_changes_are_found_by_path(items: Seq<OpenItem>, path: Seq<char>)
    ensures
        has_unsaved_changes(items, path) <==> exists|i: int|
            0 <= i < items.len() && (#[trigger] items[i]).dirty && items[i].path is Some
                && components(items[i].path->0@) == components(path),
{
    if has_unsaved_changes(items, path) {
        let i = choose|i: int|
            0 <= i < items.len() && (#[trigger] items[i]).dirty && owned_text(
                items[i].path,
            ) is Some && same_path(owned_text(items[i].path)->0, path);
        assert(components(items[i].path->0@) == components(path));
    }
    if is_unsaved(items, path) {
        let i = choose|i: int|
            0 <= i < items.len() && (#[trigger] items[i]).dirty && items[i].path is Some
                && components(items[i].path->0@) == components(path);
        assert(same_path(owned_text(items[i].path)->0, path));
    }
}

/// A step of a row without unsaved changes asks for its rounded priority moved by the
/// step, for 1 where that is less and for 100 where it is more, whatever else the row
/// says; it asks for nothing exactly where that is the whole priority that the row has.
pub proof fn steps_ask_for_the_moved_priority(
    state: QueueState,
    delta: int,
    items: Seq<OpenItem>,
    row: QueueRow,
)
    requires
        0 <= state.selected < state.rows().len(),
        row == state.rows()[state.selected],
        !has_unsaved_changes(items, row.path),
    ensures
        ({
            let moved = row.priority.rounded + delta;
            let asked = if moved < 1 {
                1
            } else if moved > 100 {
                100
            } else {
                moved
            };
            let (after, change) = state.repricing(delta, Some(items));
            &&& row.priority.whole && row.priority.rounded == asked ==> change is Unchanged
                && after == state
            &&& !(row.priority.whole && row.priority.rounded == asked) ==> {
                &&& change is Requested
                &&& change->priority == asked
                &&& change->id == row.id
                &&& change->fingerprint == row.fingerprint
                &&& change->update.repaint
                &&& change->update.reset_rows is None
                &&& change->update.reveal_row is None
                &&& !change->update.focus_panel
                &&& after.load is Loading
                &&& after.projection == state.projection
                &&& after.selected == state.selected
                &&& after.position == state.position
            }
        }),
{
}

/// What a step asks for depends on nothing but the rounded priority, whether it is
/// whole, and the step: rows that agree in those ask for the same, whether or not they
/// are protected and wherever they stand.
pub proof fn like_rows_step_alike(
    state: QueueState,
    other: QueueState,
    delta: int,
    items: Seq<OpenItem>,
)
    requires
        0 <= state.selected < state.rows().len(),
        0 <= other.selected < other.rows().len(),
        !has_unsaved_changes(items, state.rows()[state.selected].path),
        !has_unsaved_changes(items, other.rows()[other.selected].path),
        state.rows()[state.selected].priority.rounded
            == other.rows()[other.selected].priority.rounded,
        state.rows()[state.selected].priority.whole == other.rows()[other.selected].priority.whole,
    ensures
        state.repricing(delta, Some(items)).1 is Requested <==> other.repricing(
            delta,
            Some(items),
        ).1 is Requested,
        state.repricing(delta, Some(items)).1 is Requested ==> state.repricing(
            delta,
            Some(items),
        ).1->priority == other.repricing(delta, Some(items)).1->priority,
{
}

/// Two steps in the same direction ask for priorities in the same order: a larger step
/// never asks for less.
pub proof fn larger_steps_ask_for_no_less(
    state: QueueState,
    delta: int,
    larger: int,
    items: Option<Seq<OpenItem>>,
)
    requires
        delta <= larger,
        state.repricing(delta, items).1 is Requested,
        state.repricing(larger, items).1 is Requested,
    ensures
        state.repricing(delta, items).1->priority <= state.repricing(larger, items).1->priority,
{
}

/// A step over unsaved changes is refused in words that name the row, and asks the
/// runtime for nothing.
pub proof fn unsaved_rows_are_not_stepped(
    state: QueueState,
    delta: int,
    items: Seq<OpenItem>,
    row: QueueRow,
)
    requires
        0 <= state.selected < state.rows().len(),
        row == state.rows()[state.selected],
        has_unsaved_changes(items, row.path),
    ensures
        ({
            let (after, change) = state.repricing(delta, Some(items));
            &&& change matches ChangeView::Refused(update)
            &&& update.repaint
            &&& update.reset_rows is None
            &&& update.reveal_row is None
            &&& !update.focus_panel
            &&& after.load == LoadView::Error(
                "Save "@ + row.name + " before changing its priority."@,
            )
            &&& after.projection == state.projection
            &&& after.selected == state.selected
            &&& after.position == state.position
        }),
{
}

/// Where no row is selected, or the workspace is gone, a step comes to nothing.
pub proof fn steps_need_a_row_and_a_workspace(
    state: QueueState,
    delta: int,
    items: Option<Seq<OpenItem>>,
)
    requires
        !(0 <= state.selected < state.rows().len()) || items is None,
    ensures
        state.repricing(delta, items) == (state, ChangeView::Unchanged),
{
}

/// A step can be made of the selected row and of no other, where the workspace is there
/// and has no unsaved changes to it.
pub proof fn only_the_selected_row_is_stepped(state: QueueState, items: Option<Seq<OpenItem>>)
    ensures
        state.steppable(items) is Some <==> 0 <= state.selected < state.rows().len()
            && items is Some && !has_unsaved_changes(
            items->0,
            state.rows()[state.selected].path,
        ),
        state.steppable(items) is Some ==> state.steppable(items)->0
            == state.rows()[state.selected],
{
}

/// The rows of a panel are those that were projected, and none before; the selected
/// identity and path are those of the row at the selected place.
pub proof fn panel_reads_its_projection(state: QueueState, place: int)
    ensures
        state.projection is None ==> state.rows().len() == 0,
        state.projection is Some ==> state.rows() == state.projection->0.rows,
        state.row_at(place) is Some <==> 0 <= place < state.rows().len(),
        0 <= place < state.rows().len() ==> state.row_at(place)->0 == state.rows()[place],
        0 <= state.selected < state.rows().len() ==> state.selected_id() == Some(
            state.rows()[state.selected].id,
        ) && state.selected_path() == Some(state.rows()[state.selected].path),
        !(0 <= state.selected < state.rows().len()) ==> state.selected_id() is None
            && state.selected_path() is None,
{
}

/// After a refresh the selection is on the first row of the identity that was selected;
/// where there is none, it stays at its place, or at the last row where that is too far.
pub proof fn refresh_selects_by_identity_or_place(
    state: QueueState,
    projection: QueueView,
    first: int,
)
    requires
        state.selection_holds(),
    ensures
        ({
            let selected = state.refreshed(Ok(projection)).0.selected;
            let known = 0 <= state.selected < state.rows().len();
            let id = state.rows()[state.selected].id;
            &&& known && 0 <= first < projection.rows.len() && projection.rows[first].id == id && (
            forall|i: int| 0 <= i < first ==> (#[trigger] projection.rows[i]).id != id)
                ==> selected == first
            &&& (forall|i: int|
                0 <= i < projection.rows.len() ==> !known || (#[trigger] projection.rows[i]).id
                    != id) ==> selected == (if projection.rows.len() == 0 {
                0
            } else if state.selected >= projection.rows.len() {
                projection.rows.len() - 1
            } else {
                state.selected
            })
        }),
{
    if 0 <= state.selected < state.rows().len() {
        let id = state.rows()[state.selected].id;
        lemma_place_from(projection.rows, id, 0);
        let found = place_from(projection.rows, id, 0);
        if 0 <= first < projection.rows.len() && projection.rows[first].id == id && found < first {
            assert(projection.rows[found].id == id);
        }
        if found < projection.rows.len() {
            assert(projection.rows[found].id == id);
        }
    }
}

/// A refresh that succeeded shows what was projected, lays the list out for its rows and
/// paints it, and leaves the panel where it is docked; one that failed only says so.
pub proof fn refresh_shows_what_was_projected(
    state: QueueState,
    projection: QueueView,
    message: Seq<char>,
)
    requires
        projection.rows.len() <= usize::MAX,
    ensures
        ({
            let (after, update) = state.refreshed(Ok(projection));
            &&& after.projection == Some(projection)
            &&& after.load is Ready
            &&& after.position == state.position
            &&& update.reset_rows is Some
            &&& update.reset_rows->0 == projection.rows.len()
            &&& update.reveal_row is None
            &&& !update.focus_panel
            &&& update.repaint
        }),
        ({
            let (after, update) = state.refreshed(Err(message));
            &&& after == (QueueState { load: LoadView::Error(message), ..state })
            &&& update.reset_rows is None
            &&& update.reveal_row is None
            &&& !update.focus_panel
            &&& update.repaint
        }),
{
}

/// To select a row is to select it and nothing else, and to bring it into sight and the
/// focus to the panel; there is nothing to select where there is no row.
pub proof fn selecting_changes_the_selection_alone(state: QueueState, place: int)
    requires
        state.rows().len() <= usize::MAX,
    ensures
        ({
            let (after, update) = state.selecting(place);
            let there = 0 <= place < state.rows().len();
            &&& after == (QueueState {
                selected: if there {
                    place
                } else {
                    state.selected
                },
                ..state
            })
            &&& update.reset_rows is None
            &&& update.focus_panel == there
            &&& update.repaint == there
            &&& update.reveal_row is Some == there
            &&& there ==> update.reveal_row->0 == place
        }),
{
}

/// A step of the selection goes as many rows as were asked for, and stops at the first
/// and at the last row.
pub proof fn steps_stop_at_the_edges(state: QueueState, delta: int)
    requires
        0 <= state.selected < state.rows().len(),
    ensures
        ({
            let after = state.stepping(delta).0;
            let last = state.rows().len() - 1;
            &&& state.selected + delta < 0 ==> after.selected == 0
            &&& state.selected + delta > last ==> after.selected == last
            &&& 0 <= state.selected + delta <= last ==> after.selected == state.selected + delta
            &&& after == (QueueState { selected: after.selected, ..state })
            &&& state.stepping(delta) == state.selecting(after.selected)
        }),
{
}

/// Where there is no row a step of the selection does nothing.
pub proof fn empty_queues_have_nothing_to_step_to(state: QueueState, delta: int)
    requires
        state.rows().len() == 0,
    ensures
        state.stepping(delta).0 == state,
        !state.stepping(delta).1.repaint,
        !state.stepping(delta).1.focus_panel,
{
}

/// What a projected row holds is what it says, and so do the open items of a workspace.
pub proof fn rows_say_what_they_hold(
    row: QueueProjectionRow,
    projection: QueueProjection,
    items: &[OpenItem],
)
    ensures
        open_items(Some(items)) == Some(items@),
        open_items(None) is None,
        projection_view(Some(projection)) == Some(projection@),
        projection_view(None) is None,
        row@.id == row.id@,
        row@.path == row.path@,
        row@.fingerprint == row.fingerprint@,
        row@.name == row.name@,
        row@.rank == row.rank,
        row@.percentile == row.percentile@,
        row@.claim_cells == row.claim_cells,
        row@.lane == row.lane@,
        row@.priority.text == row.priority.text@,
        row@.priority.rounded == row.priority.rounded,
        row@.priority.whole == row.priority.whole,
        row@.reads == row.reads,
        row@.protected == row.protected,
        row@.rule == row.rule@,
        projection@.version == projection.version,
        projection@.book_size == projection.book_size,
        projection@.protected_percentile == projection.protected_percentile,
        projection@.rows.len() == projection.rows@.len(),
        forall|i: int|
            0 <= i < projection.rows@.len() ==> #[trigger] projection@.rows[i]
                == projection.rows@[i]@,
{
}

/// Where the protected rows come first, the line below them is drawn once, below
/// the last of them.
pub proof fn floor_is_drawn_once(rows: Seq<QueueRow>, protected: int)
    requires
        0 < protected <= rows.len(),
        forall|i: int| 0 <= i < rows.len() ==> (#[trigger] rows[i]).protected == (i < protected),
    ensures
        forall|i: int|
            0 <= i < rows.len() ==> #[trigger] marks_floor(rows, i) == (i == protected - 1),
{
}

/// A change of priority says what it holds.
pub proof fn changes_say_what_they_hold(change: PriorityChange)
    ensures
        change is Unchanged <==> change@ is Unchanged,
        change matches PriorityChange::Refused(update) ==> change@ == ChangeView::Refused(update),
        change matches PriorityChange::Requested { id, priority, fingerprint, update } ==> change@
            == (ChangeView::Requested {
            id: id@,
            priority,
            fingerprint: fingerprint@,
            update,
        }),
{
}

} // verus!
