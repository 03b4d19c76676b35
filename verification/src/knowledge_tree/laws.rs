//! What the knowledge-tree panel promises over several operations.

use crate::display::LoadView;
use crate::forest::{
    collapse_hides_only_descendants, distinct_ids, every_row_shows_where_nothing_is_collapsed,
    hangs_together, is_forest, reparent_keeps_the_forest, reparent_reaches_its_parent,
    visible_rows_keep_their_order,
};
use crate::hierarchy::{
    indices, is_below, is_hidden, visible, HierarchyProjection, HierarchyProjectionRow,
    HierarchyView, RowView,
};
use crate::knowledge_tree::{
    lemma_selection_holds, lemma_shown_from, projection_view, selection_after_refresh, shown_from,
    TreeState,
};
use crate::reparent::{can_reparent, index_of, lemma_index_of, reparented};
use vstd::prelude::*;

verus! {

/// Whatever is projected, the selection is on a shown row, or at 0 where none
/// shows.
pub proof fn refresh_keeps_a_selection(state: TreeState, projection: HierarchyView)
    requires
        state.selection_holds(),
    ensures
        state.showing(projection).selection_holds(),
{
    lemma_selection_holds(
        state.selected_id(),
        state.selected,
        projection.rows,
        visible(projection.rows, state.collapsed),
    );
}

/// Where the selected row still shows in a new projection, it stays selected.
pub proof fn selection_follows_its_row(state: TreeState, projection: HierarchyView, place: int)
    requires
        state.selected_id() is Some,
        state.showing(projection).row_at(place) matches Some(row) && row.id
            == state.selected_id()->0,
    ensures
        state.showing(projection).selected_id() == state.selected_id(),
{
    let shown = visible(projection.rows, state.collapsed);
    visible_rows_keep_their_order(projection.rows, state.collapsed);
    lemma_shown_from(projection.rows, shown, state.selected_id()->0, 0);
    assert(shown[place] < projection.rows.len());
}

/// A failed refresh changes nothing but what is said of the loading.
pub proof fn failure_keeps_the_rows(state: TreeState, message: Seq<char>)
    ensures
        ({
            let failed = state.refreshed(Err(message)).0;
            &&& failed.load == LoadView::Error(message)
            &&& failed.projection == state.projection
            &&& failed.shown() == state.shown()
            &&& failed.selected == state.selected
        }),
{
}

/// A refused move is undone: the rows, which of them show and what is collapsed
/// are as before.
pub proof fn refused_move_is_undone(
    state: TreeState,
    source_id: Seq<char>,
    parent_id: Option<Seq<char>>,
)
    requires
        state.can_move(source_id, parent_id),
    ensures
        ({
            let back = state.moving(source_id, parent_id).0.showing(state.projection->0);
            &&& back.projection == state.projection
            &&& back.collapsed == state.collapsed
            &&& back.shown() == state.shown()
            &&& back.position == state.position
        }),
{
}

/// A move in a forest leaves a forest, with the row under its new parent.
pub proof fn move_keeps_the_forest(
    state: TreeState,
    source_id: Seq<char>,
    parent_id: Option<Seq<char>>,
)
    requires
        state.can_move(source_id, parent_id),
        hangs_together(state.projection->0.rows),
    ensures
        ({
            let rows = state.moving(source_id, parent_id).0.projection->0.rows;
            &&& is_forest(rows)
            &&& index_of(rows, source_id) < rows.len()
            &&& rows[index_of(rows, source_id)].parent_id == parent_id
        }),
{
    reparent_keeps_the_forest(state.projection->0.rows, source_id, parent_id);
    reparent_reaches_its_parent(state.projection->0.rows, source_id, parent_id);
}

/// Where nothing is collapsed the moved row is selected.
pub proof fn moved_row_is_selected(
    state: TreeState,
    source_id: Seq<char>,
    parent_id: Option<Seq<char>>,
)
    requires
        state.can_move(source_id, parent_id),
        distinct_ids(state.projection->0.rows),
        state.collapsed == Set::<Seq<char>>::empty(),
    ensures
        state.moving(source_id, parent_id).0.selected_id() == Some(source_id),
{
    let rows = reparented(state.projection->0.rows, source_id, parent_id);
    let moved = state.moving(source_id, parent_id).0;
    let shown = visible(rows, state.collapsed);
    reparent_reaches_its_parent(state.projection->0.rows, source_id, parent_id);
    every_row_shows_where_nothing_is_collapsed(rows);
    lemma_index_of(rows, source_id);
    lemma_shown_from(rows, shown, source_id, 0);
    assert(shown[index_of(rows, source_id)] == index_of(rows, source_id));
    assert(moved.shown() == shown);
}

/// Toggling a row twice collapses what was collapsed before, and shows what
/// showed before.
pub proof fn toggling_twice_restores(state: TreeState, id: Seq<char>)
    ensures
        ({
            let back = state.toggling(id).0.toggling(id).0;
            &&& back.collapsed == state.collapsed
            &&& back.projection == state.projection
            &&& back.shown() == state.shown()
        }),
{
    let once = state.toggling(id).0;
    if state.collapsed.contains(id) {
        assert(once.collapsed == state.collapsed.remove(id));
        assert(state.collapsed.remove(id).insert(id) =~= state.collapsed);
    } else {
        assert(once.collapsed == state.collapsed.insert(id));
        assert(state.collapsed.insert(id).remove(id) =~= state.collapsed);
    }
}

/// Collapsing keeps the selected row selected: a row never hides itself.
pub proof fn collapsing_keeps_the_selected_row(state: TreeState)
    requires
        state.selection_holds(),
        state.selected_id() is Some,
    ensures
        state.collapsing_selected().0.selected_id() == state.selected_id(),
{
    let row = state.row_at(state.selected)->0;
    let id = row.id;
    if row.has_children && !state.collapsed.contains(id) {
        let rows = state.projection->0.rows;
        let more = state.collapsed.insert(id);
        let before = state.shown();
        let after = visible(rows, more);
        let at = before[state.selected];
        visible_rows_keep_their_order(rows, state.collapsed);
        visible_rows_keep_their_order(rows, more);
        lemma_shown_from(rows, after, id, 0);
        lemma_first_of_its_identity_shows(rows, state.collapsed, id, at);
        let first = choose|first: int| after.contains(first) && 0 <= first < rows.len() && rows[first].id == id;
        let place = choose|place: int| 0 <= place < after.len() && after[place] == first;
        assert(after[place] == first);
    }
}

/// Where a row shows, some row of its identity still shows once that identity is
/// collapsed too.
proof fn lemma_first_of_its_identity_shows(
    rows: Seq<RowView>,
    collapsed: Set<Seq<char>>,
    id: Seq<char>,
    at: int,
)
    requires
        visible(rows, collapsed).contains(at),
        0 <= at < rows.len(),
        rows[at].id == id,
    ensures
        exists|first: int|
            visible(rows, collapsed.insert(id)).contains(first) && 0 <= first < rows.len()
                && rows[first].id == id,
    decreases at,
{
    collapse_hides_only_descendants(rows, collapsed, id);
    if !visible(rows, collapsed.insert(id)).contains(at) {
        let root = choose|root: int|
            #[trigger] is_below(rows, root, at) && rows[root].id == id;
        lemma_ancestor_shows(rows, collapsed, root, at);
        lemma_first_of_its_identity_shows(rows, collapsed, id, root);
    }
}

/// Where a row shows, so do the rows that it is below.
proof fn lemma_ancestor_shows(rows: Seq<RowView>, collapsed: Set<Seq<char>>, root: int, at: int)
    requires
        visible(rows, collapsed).contains(at),
        is_below(rows, root, at),
    ensures
        visible(rows, collapsed).contains(root),
{
    visible_rows_keep_their_order(rows, collapsed);
    if is_hidden(rows, collapsed, root) {
        let top = choose|top: int|
            #[trigger] is_below(rows, top, root) && collapsed.contains(
                rows[top].id,
            );
        assert forall|k: int| top < k <= at implies (#[trigger] rows[k]).depth
            > rows[top].depth by {
            if k > root {
                assert(rows[k].depth > rows[root].depth);
                assert(rows[root].depth > rows[top].depth);
            }
        }
        assert(is_below(rows, top, at));
        assert(is_hidden(rows, collapsed, at));
    }
    assert(!is_hidden(rows, collapsed, at));
    assert(!is_hidden(rows, collapsed, root));
}

/// The panel shows the rows of its projection that no collapsed row hides, in their
/// order; the selected identity and path are those of the row at the selected place.
pub proof fn panel_reads_its_projection(state: TreeState, place: int)
    ensures
        state.projection is None ==> state.shown().len() == 0,
        state.projection is Some ==> state.shown() == visible(
            state.projection->0.rows,
            state.collapsed,
        ),
        state.row_at(place) is Some <==> 0 <= place < state.shown().len(),
        0 <= place < state.shown().len() ==> state.row_at(place)->0
            == state.projection->0.rows[state.shown()[place]],
        0 <= state.selected < state.shown().len() ==> {
            let row = state.projection->0.rows[state.shown()[state.selected]];
            state.selected_id() == Some(row.id) && state.selected_path() == Some(row.path)
        },
        !(0 <= state.selected < state.shown().len()) ==> state.selected_id() is None
            && state.selected_path() is None,
{
}

/// The selection goes to the first shown row of the identity that is asked for; where no
/// such row shows it stays at its place, or goes to the last row where that is too far.
pub proof fn selection_goes_by_identity_or_place(
    id: Option<Seq<char>>,
    previous: int,
    rows: Seq<RowView>,
    shown: Seq<int>,
    first: int,
)
    requires
        previous >= 0,
    ensures
        ({
            let selected = selection_after_refresh(id, previous, rows, shown);
            let matches_id = |i: int|
                id is Some && 0 <= shown[i] < rows.len() && rows[shown[i]].id == id->0;
            &&& 0 <= first < shown.len() && matches_id(first) && (forall|i: int|
                0 <= i < first ==> !#[trigger] matches_id(i)) ==> selected == first
            &&& (forall|i: int| 0 <= i < shown.len() ==> !#[trigger] matches_id(i)) ==> selected
                == (if shown.len() == 0 {
                0
            } else if previous >= shown.len() {
                shown.len() - 1
            } else {
                previous
            })
        }),
{
    let matches_id = |i: int|
        id is Some && 0 <= shown[i] < rows.len() && rows[shown[i]].id == id->0;
    if let Some(wanted) = id {
        lemma_shown_from(rows, shown, wanted, 0);
        let found = shown_from(rows, shown, wanted, 0);
        if found < shown.len() {
            assert(matches_id(found));
        }
        if 0 <= first < found {
            assert(!matches_id(first));
        }
    }
}

/// A refresh that succeeded shows what was projected, with the selection on its row, and
/// lays the list out for the rows that show; what is collapsed and where the panel is
/// docked stay. One that failed only says so.
pub proof fn refresh_shows_what_was_projected(
    state: TreeState,
    projection: HierarchyView,
    message: Seq<char>,
)
    requires
        visible(projection.rows, state.collapsed).len() <= usize::MAX,
    ensures
        ({
            let (after, update) = state.refreshed(Ok(projection));
            &&& after.projection == Some(projection)
            &&& after.load is Ready
            &&& after.position == state.position
            &&& after.collapsed == state.collapsed
            &&& after.selected == selection_after_refresh(
                state.selected_id(),
                state.selected,
                projection.rows,
                visible(projection.rows, state.collapsed),
            )
            &&& update.reset_rows is Some
            &&& update.reset_rows->0 == visible(projection.rows, state.collapsed).len()
            &&& update.reveal_row is None
            &&& !update.focus_panel
            &&& update.repaint
        }),
        ({
            let (after, update) = state.refreshed(Err(message));
            &&& after == (TreeState { load: LoadView::Error(message), ..state })
            &&& update.reset_rows is None
            &&& update.reveal_row is None
            &&& !update.focus_panel
            &&& update.repaint
        }),
{
}

/// To select a row is to select it and nothing else, and to bring it into sight and the
/// focus to the panel; there is nothing to select where no row shows.
pub proof fn selecting_changes_the_selection_alone(state: TreeState, place: int)
    requires
        state.shown().len() <= usize::MAX,
    ensures
        ({
            let (after, update) = state.selecting(place);
            let there = 0 <= place < state.shown().len();
            &&& after == (TreeState {
                selected: if there {
                    place
                } else {
                    state.selected
                },
                ..state
            })
            &&& update.reset_rows is None
            &&& update.focus_panel == there
            &&& update.repaint == there
            &&& update.reveal_row is Some == there
            &&& there ==> update.reveal_row->0 == place
        }),
{
}

/// A step of the selection goes as many shown rows as were asked for, and stops at the
/// first and at the last one.
pub proof fn steps_stop_at_the_edges(state: TreeState, delta: int)
    requires
        0 <= state.selected < state.shown().len(),
    ensures
        ({
            let after = state.stepping(delta).0;
            let last = state.shown().len() - 1;
            &&& state.selected + delta < 0 ==> after.selected == 0
            &&& state.selected + delta > last ==> after.selected == last
            &&& 0 <= state.selected + delta <= last ==> after.selected == state.selected + delta
            &&& after == (TreeState { selected: after.selected, ..state })
            &&& state.stepping(delta) == state.selecting(after.selected)
        }),
{
}

/// Where no row shows a step of the selection does nothing.
pub proof fn empty_trees_have_nothing_to_step_to(state: TreeState, delta: int)
    requires
        state.shown().len() == 0,
    ensures
        state.stepping(delta).0 == state,
        !state.stepping(delta).1.repaint,
        !state.stepping(delta).1.focus_panel,
{
}

/// To toggle a row is to collapse it where it is open and to open it where it is
/// collapsed; no other row is collapsed or opened, and neither the projection nor what is
/// said of the loading changes.
pub proof fn toggling_touches_one_identity(state: TreeState, id: Seq<char>, other: Seq<char>)
    ensures
        ({
            let after = state.toggling(id).0;
            &&& after.collapsed.contains(id) != state.collapsed.contains(id)
            &&& other != id ==> after.collapsed.contains(other) == state.collapsed.contains(other)
            &&& after.projection == state.projection
            &&& after.load == state.load
            &&& after.position == state.position
        }),
{
}

/// The update after a change of what is collapsed lays the list out for the rows that
/// show then, brings the selected one into sight and paints, and does not take the focus;
/// the selection stays with the row that was selected, as far as it shows.
pub proof fn collapsing_lays_the_rows_out(state: TreeState, collapsed: Set<Seq<char>>)
    requires
        state.selection_holds(),
        state.projection is Some,
        visible(state.projection->0.rows, collapsed).len() <= usize::MAX,
    ensures
        ({
            let (after, update) = state.collapsing(collapsed);
            let shown = visible(state.projection->0.rows, collapsed);
            &&& after == (TreeState { collapsed, selected: after.selected, ..state })
            &&& after.selected == selection_after_refresh(
                state.selected_id(),
                state.selected,
                state.projection->0.rows,
                shown,
            )
            &&& update.reset_rows is Some
            &&& update.reset_rows->0 == shown.len()
            &&& update.reveal_row is Some
            &&& update.reveal_row->0 == after.selected
            &&& !update.focus_panel
            &&& update.repaint
        }),
{
    lemma_selection_holds(
        state.selected_id(),
        state.selected,
        state.projection->0.rows,
        visible(state.projection->0.rows, collapsed),
    );
}

/// The selected row is collapsed exactly where it has children and is open, and opened
/// exactly where it is collapsed; in every other case nothing changes and nothing is
/// painted.
pub proof fn collapsing_needs_children(state: TreeState, row: RowView, other: Seq<char>)
    requires
        0 <= state.selected < state.shown().len(),
        row == state.projection->0.rows[state.shown()[state.selected]],
    ensures
        ({
            let (collapsed, update) = state.collapsing_selected();
            let possible = row.has_children && !state.collapsed.contains(row.id);
            &&& possible ==> collapsed.collapsed.contains(row.id)
            &&& other != row.id ==> collapsed.collapsed.contains(other)
                == state.collapsed.contains(other)
            &&& possible ==> (collapsed, update) == state.toggling(row.id)
            &&& !possible ==> collapsed == state && !update.repaint && update.reset_rows is None
                && update.reveal_row is None && !update.focus_panel
        }),
        ({
            let (opened, update) = state.expanding_selected();
            let possible = state.collapsed.contains(row.id);
            &&& !opened.collapsed.contains(row.id)
            &&& other != row.id ==> opened.collapsed.contains(other) == state.collapsed.contains(
                other,
            )
            &&& possible ==> (opened, update) == state.toggling(row.id)
            &&& !possible ==> opened == state && !update.repaint && update.reset_rows is None
                && update.reveal_row is None && !update.focus_panel
        }),
{
}

/// Where no row is selected nothing is collapsed and nothing is opened.
pub proof fn collapsing_needs_a_selection(state: TreeState)
    requires
        !(0 <= state.selected < state.shown().len()),
    ensures
        state.collapsing_selected().0 == state,
        state.expanding_selected().0 == state,
        !state.collapsing_selected().1.repaint,
        !state.expanding_selected().1.repaint,
{
}

/// A row that is collapsed and then opened leaves what is collapsed as it was.
pub proof fn opening_undoes_collapsing(state: TreeState)
    requires
        state.selection_holds(),
        state.row_at(state.selected) matches Some(row) && row.has_children
            && !state.collapsed.contains(row.id),
    ensures
        state.collapsing_selected().0.expanding_selected().0.collapsed == state.collapsed,
        state.collapsing_selected().0.expanding_selected().0.shown() == state.shown(),
{
    let row = state.row_at(state.selected)->0;
    collapsing_keeps_the_selected_row(state);
    assert(state.collapsed.insert(row.id).remove(row.id) =~= state.collapsed);
}

/// A move can be asked for exactly where a tree was projected, the row is not its own
/// parent, and the rows allow it.
pub proof fn moves_need_a_projection(
    state: TreeState,
    source_id: Seq<char>,
    parent_id: Option<Seq<char>>,
)
    ensures
        state.can_move(source_id, parent_id) <==> state.projection is Some && parent_id != Some(
            source_id,
        ) && can_reparent(state.projection->0.rows, source_id, parent_id),
{
}

/// A move changes the rows and the selection, and nothing else: the version of the
/// projection, what is collapsed and where the panel is docked stay, and the panel is
/// ready. The list is laid out for the rows that show then, and the selected one is
/// brought into sight.
pub proof fn moves_change_the_rows_alone(
    state: TreeState,
    source_id: Seq<char>,
    parent_id: Option<Seq<char>>,
)
    requires
        state.selection_holds(),
        state.can_move(source_id, parent_id),
        state.moving(source_id, parent_id).0.shown().len() <= usize::MAX,
    ensures
        ({
            let (after, update) = state.moving(source_id, parent_id);
            let rows = reparented(state.projection->0.rows, source_id, parent_id);
            let shown = visible(rows, state.collapsed);
            &&& after.projection is Some
            &&& after.projection->0.rows == rows
            &&& after.projection->0.version == state.projection->0.version
            &&& after.collapsed == state.collapsed
            &&& after.position == state.position
            &&& after.load is Ready
            &&& after.selected == selection_after_refresh(
                Some(source_id),
                state.selected,
                rows,
                shown,
            )
            &&& update.reset_rows is Some
            &&& update.reset_rows->0 == shown.len()
            &&& update.reveal_row is Some
            &&& update.reveal_row->0 == after.selected
            &&& !update.focus_panel
            &&& update.repaint
        }),
{
    let rows = reparented(state.projection->0.rows, source_id, parent_id);
    lemma_selection_holds(
        Some(source_id),
        state.selected,
        rows,
        visible(rows, state.collapsed),
    );
}

/// What a projected row holds is what it says, and so does a list of places.
pub proof fn rows_say_what_they_hold(
    row: HierarchyProjectionRow,
    projection: HierarchyProjection,
    listed: Seq<usize>,
)
    ensures
        projection_view(Some(projection)) == Some(projection@),
        projection_view(None) is None,
        indices(listed).len() == listed.len(),
        forall|i: int| 0 <= i < listed.len() ==> #[trigger] indices(listed)[i] == listed[i],
        row@.id == row.id@,
        row@.path == row.path@,
        row@.name == row.name@,
        row.parent_id is None ==> row@.parent_id is None,
        row.parent_id is Some ==> row@.parent_id == Some(row.parent_id->0@),
        row@.depth == row.depth,
        row@.has_children == row.has_children,
        projection@.version == projection.version,
        projection@.rows.len() == projection.rows@.len(),
        forall|i: int|
            0 <= i < projection.rows@.len() ==> #[trigger] projection@.rows[i]
                == projection.rows@[i]@,
{
}

} // verus!
