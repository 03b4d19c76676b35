//! The knowledge-tree panel: which rows it shows, which one is selected, and what
//! its user and the runtime can do to it.

use crate::display::{no_update, repaint_only, LoadState, LoadView, ViewUpdate};
use crate::dock::{initial_position, starting_position, DockPosition};
use crate::forest::visible_rows_keep_their_order;
use crate::hierarchy::{
    indices, row_views, visible, visible_row_indices, HierarchyProjection, HierarchyProjectionRow,
    HierarchyView, IdSet, RowView,
};
use crate::reparent::{can_reparent, optimistic_reparent, reparented};
use crate::selection::{clamp_selected_index, move_selection, nearest_row};
use crate::text::{borrow_text, borrowed_text, is_text, owned_text, same_text};
use vstd::prelude::*;
use vstd::string::*;

pub mod change;
pub mod laws;
pub mod loading;
pub mod rendering;

verus! {

/// The first place from `from` on in a list of row indices where the row has the
/// given identity, or the length of the list.
pub open spec fn shown_from(
    rows: Seq<RowView>,
    shown: Seq<int>,
    id: Seq<char>,
    from: int,
) -> int
    decreases shown.len() - from,
{
    if 0 <= from < shown.len() && !(0 <= shown[from] < rows.len() && rows[shown[from]].id == id) {
        shown_from(rows, shown, id, from + 1)
    } else {
        from
    }
}

/// The place of the selection among new rows: with the row that was selected
/// where it still shows, else as near to the old place as there is a row.
pub open spec fn selection_after_refresh(
    selected_id: Option<Seq<char>>,
    previous: int,
    rows: Seq<RowView>,
    shown: Seq<int>,
) -> int {
    if selected_id is Some && shown_from(rows, shown, selected_id->0, 0) < shown.len() {
        shown_from(rows, shown, selected_id->0, 0)
    } else {
        nearest_row(previous, shown.len() as int)
    }
}

pub(crate) proof fn lemma_shown_from(rows: Seq<RowView>, shown: Seq<int>, id: Seq<char>, from: int)
    requires
        0 <= from <= shown.len(),
    ensures
        from <= shown_from(rows, shown, id, from) <= shown.len(),
        shown_from(rows, shown, id, from) < shown.len() ==> {
            let row = shown[shown_from(rows, shown, id, from)];
            0 <= row < rows.len() && rows[row].id == id
        },
        forall|i: int|
            from <= i < shown_from(rows, shown, id, from) ==> !(0 <= #[trigger] shown[i]
                < rows.len() && rows[shown[i]].id == id),
    decreases shown.len() - from,
{
    if from < shown.len() && !(0 <= shown[from] < rows.len() && rows[shown[from]].id == id) {
        lemma_shown_from(rows, shown, id, from + 1);
    }
}

/// Finds the place of the selection among new rows.
pub fn selected_index_after_refresh(
    selected_id: Option<&str>,
    previous_index: usize,
    rows: &[HierarchyProjectionRow],
    visible_indices: &[usize],
) -> (index: usize)
    ensures
        index == selection_after_refresh(
            borrowed_text(selected_id),
            previous_index as int,
            row_views(rows@),
            indices(visible_indices@),
        ),
{
    let ghost views = row_views(rows@);
    let ghost shown = indices(visible_indices@);
    if let Some(id) = selected_id {
        let mut i: usize = 0;
        while i < visible_indices.len()
            invariant
                i <= visible_indices.len(),
                views == row_views(rows@),
                shown == indices(visible_indices@),
                selected_id == Some(id),
                shown_from(views, shown, id@, 0) == shown_from(views, shown, id@, i as int),
            decreases visible_indices.len() - i,
        {
            let row = visible_indices[i];
            assert(shown[i as int] == row);
            if row < rows.len() && same_text(rows[row].id.as_str(), id) {
                return i;
            }
            i += 1;
        }
    }
    clamp_selected_index(previous_index, visible_indices.len())
}

/// The panel.
pub struct AltereKnowledgeTreePanel {
    position: DockPosition,
    projection: Option<HierarchyProjection>,
    load_state: LoadState,
    collapsed_ids: IdSet,
    visible_indices: Vec<usize>,
    selected_index: usize,
}

/// What an optional projection says.
pub open spec fn projection_view(projection: Option<HierarchyProjection>) -> Option<HierarchyView> {
    match projection {
        Some(projection) => Some(projection@),
        None => None,
    }
}

/// What the panel holds: where it is docked, the projection, the state of its
/// loading, the collapsed identities and the selected place among the shown rows.
pub struct TreeState {
    pub position: DockPosition,
    pub projection: Option<HierarchyView>,
    pub load: LoadView,
    pub collapsed: Set<Seq<char>>,
    pub selected: int,
}

impl TreeState {
    /// The rows that show, by index into the projection.
    pub open spec fn shown(self) -> Seq<int> {
        match self.projection {
            Some(projection) => visible(projection.rows, self.collapsed),
            None => seq![],
        }
    }

    /// The row at a place among the shown ones.
    pub open spec fn row_at(self, place: int) -> Option<RowView> {
        if 0 <= place < self.shown().len() {
            Some(self.projection->0.rows[self.shown()[place]])
        } else {
            None
        }
    }

    /// The identity of the selected row.
    pub open spec fn selected_id(self) -> Option<Seq<char>> {
        match self.row_at(self.selected) {
            Some(row) => Some(row.id),
            None => None,
        }
    }

    /// The path of the selected row.
    pub open spec fn selected_path(self) -> Option<Seq<char>> {
        match self.row_at(self.selected) {
            Some(row) => Some(row.path),
            None => None,
        }
    }

    /// Whether the selection is on a shown row, or at 0 where none shows.
    pub open spec fn selection_holds(self) -> bool {
        0 <= self.selected < self.shown().len() || (self.selected == 0 && self.shown().len() == 0)
    }

    /// The panel with a new projection; the selection stays with its row.
    pub open spec fn showing(self, projection: HierarchyView) -> TreeState {
        TreeState {
            projection: Some(projection),
            load: LoadView::Ready,
            selected: selection_after_refresh(
                self.selected_id(),
                self.selected,
                projection.rows,
                visible(projection.rows, self.collapsed),
            ),
            ..self
        }
    }

    /// The panel after the runtime's answer to a refresh.
    pub open spec fn refreshed(self, result: Result<HierarchyView, Seq<char>>) -> (
        TreeState,
        ViewUpdate,
    ) {
        match result {
            Ok(projection) => {
                let state = self.showing(projection);
                let update = ViewUpdate {
                    reset_rows: Some(state.shown().len() as usize),
                    ..repaint_only()
                };
                (state, update)
            },
            Err(message) => (
                TreeState { load: LoadView::Error(message), ..self },
                repaint_only(),
            ),
        }
    }

    /// The panel with another place selected, where a row shows there.
    pub open spec fn selecting(self, place: int) -> (TreeState, ViewUpdate) {
        if 0 <= place < self.shown().len() {
            (
                TreeState { selected: place, ..self },
                ViewUpdate {
                    reset_rows: None,
                    reveal_row: Some(place as usize),
                    focus_panel: true,
                    repaint: true,
                },
            )
        } else {
            (self, no_update())
        }
    }

    /// The panel with the selection moved by a number of rows.
    pub open spec fn stepping(self, delta: int) -> (TreeState, ViewUpdate) {
        self.selecting(nearest_row(self.selected + delta, self.shown().len() as int))
    }

    /// The panel with the selection put on a row by its identity, and laid out
    /// anew.
    pub open spec fn reselecting(self, id: Option<Seq<char>>) -> (TreeState, ViewUpdate) {
        match self.projection {
            Some(projection) => {
                let selected = selection_after_refresh(
                    id,
                    self.selected,
                    projection.rows,
                    self.shown(),
                );
                let update = ViewUpdate {
                    reset_rows: Some(self.shown().len() as usize),
                    reveal_row: Some(selected as usize),
                    focus_panel: false,
                    repaint: true,
                };
                (TreeState { selected, ..self }, update)
            },
            None => (self, no_update()),
        }
    }

    /// The panel with other identities collapsed; the selection stays with its
    /// row.
    pub open spec fn collapsing(self, collapsed: Set<Seq<char>>) -> (TreeState, ViewUpdate) {
        TreeState { collapsed, ..self }.reselecting(self.selected_id())
    }

    /// The panel with a row collapsed where it was open, and opened where it was
    /// collapsed.
    pub open spec fn toggling(self, id: Seq<char>) -> (TreeState, ViewUpdate) {
        if self.collapsed.contains(id) {
            self.collapsing(self.collapsed.remove(id))
        } else {
            self.collapsing(self.collapsed.insert(id))
        }
    }

    /// The panel with the selected row collapsed, where it has children and is
    /// open.
    pub open spec fn collapsing_selected(self) -> (TreeState, ViewUpdate) {
        match self.row_at(self.selected) {
            Some(row) => if row.has_children && !self.collapsed.contains(row.id) {
                self.collapsing(self.collapsed.insert(row.id))
            } else {
                (self, no_update())
            },
            None => (self, no_update()),
        }
    }

    /// The panel with the selected row opened, where it is collapsed.
    pub open spec fn expanding_selected(self) -> (TreeState, ViewUpdate) {
        match self.row_at(self.selected) {
            Some(row) => if self.collapsed.contains(row.id) {
                self.collapsing(self.collapsed.remove(row.id))
            } else {
                (self, no_update())
            },
            None => (self, no_update()),
        }
    }

    /// Whether a row can be asked to move under a parent, or to the roots.
    pub open spec fn can_move(self, source_id: Seq<char>, parent_id: Option<Seq<char>>) -> bool {
        &&& parent_id != Some(source_id)
        &&& self.projection is Some
        &&& can_reparent(self.projection->0.rows, source_id, parent_id)
    }

    /// The panel with a row moved ahead of the runtime's answer, and selected.
    pub open spec fn moving(self, source_id: Seq<char>, parent_id: Option<Seq<char>>) -> (
        TreeState,
        ViewUpdate,
    ) {
        let previous = self.projection->0;
        let projection = HierarchyView {
            version: previous.version,
            rows: reparented(previous.rows, source_id, parent_id),
        };
        TreeState { projection: Some(projection), load: LoadView::Ready, ..self }.reselecting(
            Some(source_id),
        )
    }
}

impl View for AltereKnowledgeTreePanel {
    type V = TreeState;

    closed spec fn view(&self) -> TreeState {
        TreeState {
            position: self.position,
            projection: projection_view(self.projection),
            load: self.load_state@,
            collapsed: self.collapsed_ids@,
            selected: self.selected_index as int,
        }
    }
}

/// A row that was moved ahead of the runtime's answer: what to ask of the runtime,
/// and the projection to go back to where it refuses.
pub struct MoveRequest {
    pub source_id: String,
    pub parent_id: Option<String>,
    pub previous: HierarchyProjection,
    pub update: ViewUpdate,
}

/// What a result of loading says.
pub open spec fn loaded_view(result: Result<HierarchyProjection, String>) -> Result<
    HierarchyView,
    Seq<char>,
> {
    match result {
        Ok(projection) => Ok(projection@),
        Err(message) => Err(message@),
    }
}

pub(crate) proof fn lemma_selection_holds(
    id: Option<Seq<char>>,
    previous: int,
    rows: Seq<RowView>,
    shown: Seq<int>,
)
    requires
        previous >= 0,
    ensures
        ({
            let place = selection_after_refresh(id, previous, rows, shown);
            0 <= place < shown.len() || (place == 0 && shown.len() == 0)
        }),
{
    if let Some(id) = id {
        lemma_shown_from(rows, shown, id, 0);
    }
}

impl AltereKnowledgeTreePanel {
    /// Whether the listed rows are the ones that show, and the selection is on
    /// one of them.
    pub closed spec fn well_formed(&self) -> bool {
        &&& self.collapsed_ids.well_formed()
        &&& indices(self.visible_indices@) == self@.shown()
        &&& self@.selection_holds()
    }

    /// Whatever was done to the panel, its selection is on a shown row, or at 0 where none
    /// shows.
    pub proof fn selection_is_on_a_row(&self)
        requires
            self.well_formed(),
        ensures
            self@.selection_holds(),
    {
    }

    /// A panel that waits for its first projection, at the stored position or
    /// on the left.
    pub fn load(stored_position: Option<&str>) -> (panel: AltereKnowledgeTreePanel)
        ensures
            panel.well_formed(),
            panel@ == (TreeState {
                position: initial_position(borrowed_text(stored_position), DockPosition::Left),
                projection: None,
                load: LoadView::Loading,
                collapsed: Set::empty(),
                selected: 0,
            }),
    {
        let panel = AltereKnowledgeTreePanel {
            position: starting_position(stored_position, DockPosition::Left),
            projection: None,
            load_state: LoadState::Loading,
            collapsed_ids: IdSet::new(),
            visible_indices: Vec::new(),
            selected_index: 0,
        };
        assert(indices(panel.visible_indices@) =~= panel@.shown());
        panel
    }

    /// Starts waiting for a new projection.
    pub fn refresh(&mut self) -> (update: ViewUpdate)
        requires
            old(self).well_formed(),
        ensures
            final(self).well_formed(),
            final(self)@ == (TreeState { load: LoadView::Loading, ..old(self)@ }),
            update == repaint_only(),
    {
        self.load_state = LoadState::Loading;
        ViewUpdate::paint()
    }

    /// Takes the runtime's answer to a refresh: the projection, or why there is
    /// none.
    pub fn finish_refresh(&mut self, result: Result<HierarchyProjection, String>) -> (update:
        ViewUpdate)
        requires
            old(self).well_formed(),
        ensures
            final(self).well_formed(),
            (final(self)@, update) == old(self)@.refreshed(loaded_view(result)),
    {
        match result {
            Ok(projection) => {
                let ghost before = self@;
                let selected_id = self.selected_id_text();
                let visible_indices = visible_row_indices(
                    projection.rows.as_slice(),
                    &self.collapsed_ids,
                );
                let selected_index = selected_index_after_refresh(
                    borrow_text(&selected_id),
                    self.selected_index,
                    projection.rows.as_slice(),
                    visible_indices.as_slice(),
                );
                let row_count = visible_indices.len();
                proof {
                    lemma_selection_holds(
                        before.selected_id(),
                        before.selected,
                        projection@.rows,
                        visible(projection@.rows, before.collapsed),
                    );
                }
                self.selected_index = selected_index;
                self.visible_indices = visible_indices;
                self.projection = Some(projection);
                self.load_state = LoadState::Ready;
                proof {
                    assert(self@ == before.showing(projection@));
                    assert(self@.shown().len() == row_count);
                }
                ViewUpdate {
                    reset_rows: Some(row_count),
                    reveal_row: None,
                    focus_panel: false,
                    repaint: true,
                }
            },
            Err(message) => {
                self.load_state = LoadState::error(message);
                ViewUpdate::paint()
            },
        }
    }

    /// The row at a place among the shown ones.
    pub fn row_at(&self, place: usize) -> (row: Option<&HierarchyProjectionRow>)
        requires
            self.well_formed(),
        ensures
            row is Some == (self@.row_at(place as int) is Some),
            row matches Some(row) ==> row@ == self@.row_at(place as int)->0,
    {
        if place >= self.visible_indices.len() {
            return None;
        }
        let index = self.visible_indices[place];
        assert(self@.shown()[place as int] == index);
        match &self.projection {
            Some(projection) => {
                proof {
                    visible_rows_keep_their_order(projection@.rows, self@.collapsed);
                }
                Some(&projection.rows[index])
            },
            None => None,
        }
    }

    /// The selected row.
    pub fn selected_row(&self) -> (row: Option<&HierarchyProjectionRow>)
        requires
            self.well_formed(),
        ensures
            row is Some == (self@.row_at(self@.selected) is Some),
            row matches Some(row) ==> row@ == self@.row_at(self@.selected)->0,
    {
        self.row_at(self.selected_index)
    }

    fn selected_id_text(&self) -> (id: Option<String>)
        requires
            self.well_formed(),
        ensures
            owned_text(id) == self@.selected_id(),
    {
        match self.selected_row() {
            Some(row) => Some(row.id.clone()),
            None => None,
        }
    }

    /// The path to open for the selected row.
    pub fn open_selected(&self) -> (path: Option<String>)
        requires
            self.well_formed(),
        ensures
            owned_text(path) == self@.selected_path(),
    {
        match self.selected_row() {
            Some(row) => Some(row.path.clone()),
            None => None,
        }
    }

    /// Moves a row ahead of the runtime's answer. The request says what to ask of
    /// the runtime; there is none where the move cannot be made, and then nothing
    /// changes.
    pub fn set_parent(&mut self, source_id: String, parent_id: Option<String>) -> (request: Option<
        MoveRequest,
    >)
        requires
            old(self).well_formed(),
        ensures
            final(self).well_formed(),
            request is Some == old(self)@.can_move(source_id@, owned_text(parent_id)),
            request is None ==> final(self)@ == old(self)@,
            request matches Some(request) ==> {
                &&& (final(self)@, request.update) == old(self)@.moving(
                    source_id@,
                    owned_text(parent_id),
                )
                &&& Some(request.previous@) == old(self)@.projection
                &&& request.source_id@ == source_id@
                &&& owned_text(request.parent_id) == owned_text(parent_id)
            },
    {
        let ghost before = self@;
        if is_text(borrow_text(&parent_id), source_id.as_str()) {
            return None;
        }
        let previous = match &self.projection {
            Some(projection) => projection.clone(),
            None => return None,
        };
        let rows = match optimistic_reparent(
            previous.rows.as_slice(),
            source_id.as_str(),
            borrow_text(&parent_id),
        ) {
            Some(rows) => rows,
            None => return None,
        };
        let version = previous.version;
        self.projection = Some(HierarchyProjection { version, rows });
        self.load_state = LoadState::Ready;
        let update = self.recompute_visible_rows_selecting(Some(source_id.as_str()));
        Some(MoveRequest { source_id, parent_id, previous, update })
    }

    /// Takes the runtime's answer to a move: the new projection, or why it was
    /// refused. Then the panel goes back to the projection from before the move,
    /// and the reason is handed on.
    pub fn finish_move(
        &mut self,
        previous: HierarchyProjection,
        result: Result<HierarchyProjection, String>,
    ) -> (outcome: (ViewUpdate, Option<String>))
        requires
            old(self).well_formed(),
        ensures
            final(self).well_formed(),
            (final(self)@, outcome.0) == old(self)@.refreshed(
                Ok(
                    match result {
                        Ok(projection) => projection@,
                        Err(_) => previous@,
                    },
                ),
            ),
            owned_text(outcome.1) == (match result {
                Ok(_) => None,
                Err(message) => Some(message@),
            }),
    {
        match result {
            Ok(projection) => (self.finish_refresh(Ok(projection)), None),
            Err(message) => (self.finish_refresh(Ok(previous)), Some(message)),
        }
    }

    /// Selects a shown row by its place.
    pub fn select(&mut self, index: usize) -> (update: ViewUpdate)
        requires
            old(self).well_formed(),
        ensures
            final(self).well_formed(),
            (final(self)@, update) == old(self)@.selecting(index as int),
    {
        if index >= self.visible_indices.len() {
            return ViewUpdate::none();
        }
        self.selected_index = index;
        ViewUpdate {
            reset_rows: None,
            reveal_row: Some(index),
            focus_panel: true,
            repaint: true,
        }
    }

    /// Moves the selection by a number of rows.
    pub fn move_selection_by(&mut self, delta: isize) -> (update: ViewUpdate)
        requires
            old(self).well_formed(),
        ensures
            final(self).well_formed(),
            (final(self)@, update) == old(self)@.stepping(delta as int),
    {
        let index = move_selection(self.selected_index, self.visible_indices.len(), delta);
        self.select(index)
    }

    /// Selects the next row.
    pub fn select_next(&mut self) -> (update: ViewUpdate)
        requires
            old(self).well_formed(),
        ensures
            final(self).well_formed(),
            (final(self)@, update) == old(self)@.stepping(1),
    {
        self.move_selection_by(1)
    }

    /// Selects the previous row.
    pub fn select_previous(&mut self) -> (update: ViewUpdate)
        requires
            old(self).well_formed(),
        ensures
            final(self).well_formed(),
            (final(self)@, update) == old(self)@.stepping(-1),
    {
        self.move_selection_by(-1)
    }

    /// Selects the first row.
    pub fn select_first(&mut self) -> (update: ViewUpdate)
        requires
            old(self).well_formed(),
        ensures
            final(self).well_formed(),
            (final(self)@, update) == old(self)@.selecting(0),
    {
        self.select(0)
    }

    /// Selects the last row.
    pub fn select_last(&mut self) -> (update: ViewUpdate)
        requires
            old(self).well_formed(),
        ensures
            final(self).well_formed(),
            (final(self)@, update) == old(self)@.selecting(old(self)@.shown().len() - 1),
    {
        if self.visible_indices.len() == 0 {
            return ViewUpdate::none();
        }
        self.select(self.visible_indices.len() - 1)
    }

    /// Lists the shown rows anew and puts the selection on a row.
    fn recompute_visible_rows_selecting(&mut self, selected_id: Option<&str>) -> (update:
        ViewUpdate)
        requires
            old(self).collapsed_ids.well_formed(),
            old(self)@.projection is None ==> old(self).well_formed(),
        ensures
            final(self).well_formed(),
            (final(self)@, update) == old(self)@.reselecting(borrowed_text(selected_id)),
    {
        let ghost before = self@;
        let visible_indices = match &self.projection {
            Some(projection) => visible_row_indices(
                projection.rows.as_slice(),
                &self.collapsed_ids,
            ),
            None => return ViewUpdate::none(),
        };
        let selected_index = match &self.projection {
            Some(projection) => selected_index_after_refresh(
                selected_id,
                self.selected_index,
                projection.rows.as_slice(),
                visible_indices.as_slice(),
            ),
            None => 0,
        };
        let row_count = visible_indices.len();
        proof {
            lemma_selection_holds(
                borrowed_text(selected_id),
                before.selected,
                before.projection->0.rows,
                before.shown(),
            );
        }
        self.visible_indices = visible_indices;
        self.selected_index = selected_index;
        assert(before.shown().len() == row_count);
        ViewUpdate {
            reset_rows: Some(row_count),
            reveal_row: Some(selected_index),
            focus_panel: false,
            repaint: true,
        }
    }

    /// Collapses a row, or opens it where it was collapsed.
    pub fn toggle_row(&mut self, id: &str) -> (update: ViewUpdate)
        requires
            old(self).well_formed(),
        ensures
            final(self).well_formed(),
            (final(self)@, update) == old(self)@.toggling(id@),
    {
        let selected_id = self.selected_id_text();
        if !self.collapsed_ids.remove(id) {
            self.collapsed_ids.insert(id.to_string());
            assert(self.collapsed_ids@ =~= old(self)@.collapsed.insert(id@));
        }
        self.recompute_visible_rows_selecting(borrow_text(&selected_id))
    }

    /// Collapses the selected row.
    pub fn collapse_selected(&mut self) -> (update: ViewUpdate)
        requires
            old(self).well_formed(),
        ensures
            final(self).well_formed(),
            (final(self)@, update) == old(self)@.collapsing_selected(),
    {
        let id = match self.selected_row() {
            Some(row) => if row.has_children && !self.collapsed_ids.contains(row.id.as_str()) {
                row.id.clone()
            } else {
                return ViewUpdate::none();
            },
            None => return ViewUpdate::none(),
        };
        self.collapsed_ids.insert(id.clone());
        self.recompute_visible_rows_selecting(Some(id.as_str()))
    }

    /// Opens the selected row.
    pub fn expand_selected(&mut self) -> (update: ViewUpdate)
        requires
            old(self).well_formed(),
        ensures
            final(self).well_formed(),
            (final(self)@, update) == old(self)@.expanding_selected(),
    {
        let id = match self.selected_row() {
            Some(row) => row.id.clone(),
            None => return ViewUpdate::none(),
        };
        if !self.collapsed_ids.contains(id.as_str()) {
            return ViewUpdate::none();
        }
        self.collapsed_ids.remove(id.as_str());
        self.recompute_visible_rows_selecting(Some(id.as_str()))
    }
}

} // verus!
