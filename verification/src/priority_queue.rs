//! The priority-queue panel: its rows, which one is selected, and what its user and
//! the runtime can do to it.

use crate::display::{no_update, repaint_only, LoadState, LoadView, ViewUpdate};
use crate::dock::{initial_position, starting_position, DockPosition};
use crate::paths::{paths_match, same_path};
use crate::selection::{
    clamp_selected_index, half_page, half_page_rows, move_selection, nearest_row,
};
use crate::text::{borrow_text, borrowed_text, owned_text, same_text};
use vstd::prelude::*;
use vstd::string::*;

pub mod change;
pub mod laws;
pub mod loading;
pub mod rendering;

verus! {

/// A priority: as it is written, rounded half away from zero to a whole number,
/// and whether it is a whole number.
pub struct QueuePriority {
    pub text: String,
    pub rounded: i32,
    pub whole: bool,
}

/// One row of the queue. The percentile is written without decimals.
pub struct QueueProjectionRow {
    pub id: String,
    pub path: String,
    pub fingerprint: String,
    pub name: String,
    pub rank: usize,
    pub percentile: String,
    pub claim_cells: usize,
    pub lane: String,
    pub priority: QueuePriority,
    pub reads: usize,
    pub protected: bool,
    pub rule: String,
}

/// The queue as it was projected, with the version of its format.
pub struct QueueProjection {
    pub version: u8,
    pub book_size: usize,
    pub protected_percentile: u8,
    pub rows: Vec<QueueProjectionRow>,
}

/// What a priority says.
pub struct PriorityView {
    pub text: Seq<char>,
    pub rounded: i32,
    pub whole: bool,
}

/// What a row says.
pub struct QueueRow {
    pub id: Seq<char>,
    pub path: Seq<char>,
    pub fingerprint: Seq<char>,
    pub name: Seq<char>,
    pub rank: usize,
    pub percentile: Seq<char>,
    pub claim_cells: usize,
    pub lane: Seq<char>,
    pub priority: PriorityView,
    pub reads: usize,
    pub protected: bool,
    pub rule: Seq<char>,
}

/// What a projection says.
pub struct QueueView {
    pub version: u8,
    pub book_size: usize,
    pub protected_percentile: u8,
    pub rows: Seq<QueueRow>,
}

impl View for QueuePriority {
    type V = PriorityView;

    open spec fn view(&self) -> PriorityView {
        PriorityView { text: self.text@, rounded: self.rounded, whole: self.whole }
    }
}

impl View for QueueProjectionRow {
    type V = QueueRow;

    open spec fn view(&self) -> QueueRow {
        QueueRow {
            id: self.id@,
            path: self.path@,
            fingerprint: self.fingerprint@,
            name: self.name@,
            rank: self.rank,
            percentile: self.percentile@,
            claim_cells: self.claim_cells,
            lane: self.lane@,
            priority: self.priority@,
            reads: self.reads,
            protected: self.protected,
            rule: self.rule@,
        }
    }
}

/// What a sequence of rows says.
pub open spec fn queue_rows(rows: Seq<QueueProjectionRow>) -> Seq<QueueRow> {
    rows.map_values(|row: QueueProjectionRow| row@)
}

impl View for QueueProjection {
    type V = QueueView;

    open spec fn view(&self) -> QueueView {
        QueueView {
            version: self.version,
            book_size: self.book_size,
            protected_percentile: self.protected_percentile,
            rows: queue_rows(self.rows@),
        }
    }
}

/// What an optional projection says.
pub open spec fn projection_view(projection: Option<QueueProjection>) -> Option<QueueView> {
    match projection {
        Some(projection) => Some(projection@),
        None => None,
    }
}

/// What a result of loading says.
pub open spec fn loaded_view(result: Result<QueueProjection, String>) -> Result<
    QueueView,
    Seq<char>,
> {
    match result {
        Ok(projection) => Ok(projection@),
        Err(message) => Err(message@),
    }
}

/// The first row from `from` on with the given identity, or the row count.
pub open spec fn place_from(rows: Seq<QueueRow>, id: Seq<char>, from: int) -> int
    decreases rows.len() - from,
{
    if 0 <= from < rows.len() && rows[from].id != id {
        place_from(rows, id, from + 1)
    } else {
        from
    }
}

/// The place of the selection among new rows: with the row that was selected
/// where it is still there, else as near to the old place as there is a row.
pub open spec fn selection_after_refresh(
    selected_id: Option<Seq<char>>,
    previous: int,
    rows: Seq<QueueRow>,
) -> int {
    if selected_id is Some && place_from(rows, selected_id->0, 0) < rows.len() {
        place_from(rows, selected_id->0, 0)
    } else {
        nearest_row(previous, rows.len() as int)
    }
}

pub(crate) proof fn lemma_place_from(rows: Seq<QueueRow>, id: Seq<char>, from: int)
    requires
        0 <= from <= rows.len(),
    ensures
        from <= place_from(rows, id, from) <= rows.len(),
        place_from(rows, id, from) < rows.len() ==> rows[place_from(rows, id, from)].id == id,
        forall|i: int| from <= i < place_from(rows, id, from) ==> (#[trigger] rows[i]).id != id,
    decreases rows.len() - from,
{
    if from < rows.len() && rows[from].id != id {
        lemma_place_from(rows, id, from + 1);
    }
}

/// Finds the place of the selection among new rows.
pub fn selected_index_after_refresh(
    selected_id: Option<&str>,
    previous_index: usize,
    rows: &[QueueProjectionRow],
) -> (index: usize)
    ensures
        index == selection_after_refresh(
            borrowed_text(selected_id),
            previous_index as int,
            queue_rows(rows@),
        ),
{
    let ghost views = queue_rows(rows@);
    if let Some(id) = selected_id {
        let mut i: usize = 0;
        while i < rows.len()
            invariant
                i <= rows.len(),
                views == queue_rows(rows@),
                selected_id == Some(id),
                place_from(views, id@, 0) == place_from(views, id@, i as int),
            decreases rows.len() - i,
        {
            assert(views[i as int].id == rows@[i as int].id@);
            if same_text(rows[i].id.as_str(), id) {
                return i;
            }
            i += 1;
        }
    }
    clamp_selected_index(previous_index, rows.len())
}

/// A priority moved by a step and kept from 1 to 100.
pub open spec fn stepped(rounded: int, delta: int) -> int {
    if rounded + delta < 1 {
        1
    } else if rounded + delta > 100 {
        100
    } else {
        rounded + delta
    }
}

/// Moves a rounded priority by a step.
pub fn stepped_priority(rounded: i32, delta: i32) -> (priority: u8)
    requires
        i32::MIN <= rounded + delta <= i32::MAX,
    ensures
        priority == stepped(rounded as int, delta as int),
        1 <= priority <= 100,
{
    let moved: i32 = rounded + delta;
    if moved < 1 {
        1
    } else if moved > 100 {
        100
    } else {
        moved as u8
    }
}

/// An item that is open for editing: whether it has unsaved changes, and its path
/// where it has one.
pub struct OpenItem {
    pub dirty: bool,
    pub path: Option<String>,
}

/// Whether some open item with unsaved changes has the given path.
pub open spec fn has_unsaved_changes(items: Seq<OpenItem>, path: Seq<char>) -> bool {
    exists|i: int|
        0 <= i < items.len() && (#[trigger] items[i]).dirty && owned_text(
            items[i].path,
        ) is Some && same_path(owned_text(items[i].path)->0, path)
}

/// Looks for unsaved changes to a path among the open items.
pub fn path_is_dirty(items: &[OpenItem], path: &str) -> (dirty: bool)
    ensures
        dirty == has_unsaved_changes(items@, path@),
{
    let mut i: usize = 0;
    while i < items.len()
        invariant
            i <= items.len(),
            forall|j: int|
                0 <= j < i ==> !((#[trigger] items@[j]).dirty && owned_text(items@[j].path) is Some
                    && same_path(owned_text(items@[j].path)->0, path@)),
        decreases items.len() - i,
    {
        if items[i].dirty {
            if let Some(item_path) = &items[i].path {
                if paths_match(item_path.as_str(), path) {
                    assert(owned_text(items@[i as int].path) == Some(item_path@));
                    return true;
                }
            }
        }
        i += 1;
    }
    false
}

/// The panel.
pub struct AlterePriorityQueuePanel {
    position: DockPosition,
    projection: Option<QueueProjection>,
    load_state: LoadState,
    selected_index: usize,
}

/// What a step of the selected priority comes to: nothing, a refusal that the
/// panel shows, or a request to the runtime.
pub enum PriorityChange {
    Unchanged,
    Refused(ViewUpdate),
    Requested { id: String, priority: u8, fingerprint: String, update: ViewUpdate },
}

/// What a change of priority says.
pub enum ChangeView {
    Unchanged,
    Refused(ViewUpdate),
    Requested { id: Seq<char>, priority: u8, fingerprint: Seq<char>, update: ViewUpdate },
}

impl View for PriorityChange {
    type V = ChangeView;

    open spec fn view(&self) -> ChangeView {
        match self {
            PriorityChange::Unchanged => ChangeView::Unchanged,
            PriorityChange::Refused(update) => ChangeView::Refused(*update),
            PriorityChange::Requested { id, priority, fingerprint, update } => {
                ChangeView::Requested {
                    id: id@,
                    priority: *priority,
                    fingerprint: fingerprint@,
                    update: *update,
                }
            },
        }
    }
}

/// What the panel holds: where it is docked, the projection, the state of its
/// loading and the selected row.
pub struct QueueState {
    pub position: DockPosition,
    pub projection: Option<QueueView>,
    pub load: LoadView,
    pub selected: int,
}

impl QueueState {
    /// The rows of the queue.
    pub open spec fn rows(self) -> Seq<QueueRow> {
        match self.projection {
            Some(projection) => projection.rows,
            None => seq![],
        }
    }

    /// The row at a place.
    pub open spec fn row_at(self, place: int) -> Option<QueueRow> {
        if 0 <= place < self.rows().len() {
            Some(self.rows()[place])
        } else {
            None
        }
    }

    /// The identity of the selected row.
    pub open spec fn selected_id(self) -> Option<Seq<char>> {
        match self.row_at(self.selected) {
            Some(row) => Some(row.id),
            None => None,
        }
    }

    /// The path of the selected row.
    pub open spec fn selected_path(self) -> Option<Seq<char>> {
        match self.row_at(self.selected) {
            Some(row) => Some(row.path),
            None => None,
        }
    }

    /// Whether the selection is on a row, or at 0 where there is none.
    pub open spec fn selection_holds(self) -> bool {
        0 <= self.selected < self.rows().len() || (self.selected == 0 && self.rows().len() == 0)
    }

    /// The panel with a new projection; the selection stays with its row.
    pub open spec fn showing(self, projection: QueueView) -> QueueState {
        QueueState {
            projection: Some(projection),
            load: LoadView::Ready,
            selected: selection_after_refresh(self.selected_id(), self.selected, projection.rows),
            ..self
        }
    }

    /// The panel after the runtime's answer.
    pub open spec fn refreshed(self, result: Result<QueueView, Seq<char>>) -> (
        QueueState,
        ViewUpdate,
    ) {
        match result {
            Ok(projection) => (
                self.showing(projection),
                ViewUpdate {
                    reset_rows: Some(projection.rows.len() as usize),
                    ..repaint_only()
                },
            ),
            Err(message) => (
                QueueState { load: LoadView::Error(message), ..self },
                repaint_only(),
            ),
        }
    }

    /// The panel with another row selected, where there is one.
    pub open spec fn selecting(self, place: int) -> (QueueState, ViewUpdate) {
        if 0 <= place < self.rows().len() {
            (
                QueueState { selected: place, ..self },
                ViewUpdate {
                    reset_rows: None,
                    reveal_row: Some(place as usize),
                    focus_panel: true,
                    repaint: true,
                },
            )
        } else {
            (self, no_update())
        }
    }

    /// The panel with the selection moved by a number of rows.
    pub open spec fn stepping(self, delta: int) -> (QueueState, ViewUpdate) {
        self.selecting(nearest_row(self.selected + delta, self.rows().len() as int))
    }

    /// The row whose priority a step would change: the selected one, where the
    /// workspace is there and has no unsaved changes to it.
    pub open spec fn steppable(self, items: Option<Seq<OpenItem>>) -> Option<QueueRow> {
        match (self.row_at(self.selected), items) {
            (Some(row), Some(items)) => if has_unsaved_changes(items, row.path) {
                None
            } else {
                Some(row)
            },
            _ => None,
        }
    }

    /// What a step of the selected priority comes to. Unsaved changes to the row
    /// refuse it, and a priority that stays what it is asks for nothing.
    pub open spec fn repricing(self, delta: int, items: Option<Seq<OpenItem>>) -> (
        QueueState,
        ChangeView,
    ) {
        match (self.row_at(self.selected), self.steppable(items)) {
            (Some(row), None) => if items is Some {
                (
                    QueueState {
                        load: LoadView::Error(
                            "Save "@ + row.name + " before changing its priority."@,
                        ),
                        ..self
                    },
                    ChangeView::Refused(repaint_only()),
                )
            } else {
                (self, ChangeView::Unchanged)
            },
            (_, Some(row)) => {
                let priority = stepped(row.priority.rounded as int, delta);
                if row.priority.whole && row.priority.rounded == priority {
                    (self, ChangeView::Unchanged)
                } else {
                    (
                        QueueState { load: LoadView::Loading, ..self },
                        ChangeView::Requested {
                            id: row.id,
                            priority: priority as u8,
                            fingerprint: row.fingerprint,
                            update: repaint_only(),
                        },
                    )
                }
            },
            (None, None) => (self, ChangeView::Unchanged),
        }
    }
}

impl View for AlterePriorityQueuePanel {
    type V = QueueState;

    closed spec fn view(&self) -> QueueState {
        QueueState {
            position: self.position,
            projection: projection_view(self.projection),
            load: self.load_state@,
            selected: self.selected_index as int,
        }
    }
}

/// The open items of a workspace that is still there.
pub open spec fn open_items(items: Option<&[OpenItem]>) -> Option<Seq<OpenItem>> {
    match items {
        Some(items) => Some(items@),
        None => None,
    }
}

pub(crate) proof fn lemma_selection_holds(
    id: Option<Seq<char>>,
    previous: int,
    rows: Seq<QueueRow>,
)
    requires
        previous >= 0,
    ensures
        ({
            let place = selection_after_refresh(id, previous, rows);
            0 <= place < rows.len() || (place == 0 && rows.len() == 0)
        }),
{
    if let Some(id) = id {
        lemma_place_from(rows, id, 0);
    }
}

impl AlterePriorityQueuePanel {
    /// Whether the selection is on a row, or at 0 where there is none.
    pub closed spec fn well_formed(&self) -> bool {
        self@.selection_holds()
    }

    /// Whatever was done to the panel, its selection is on a row, or at 0 where there is
    /// none.
    pub proof fn selection_is_on_a_row(&self)
        requires
            self.well_formed(),
        ensures
            self@.selection_holds(),
    {
    }

    /// A panel that waits for its first projection, at the stored position or at
    /// the bottom.
    pub fn load(stored_position: Option<&str>) -> (panel: AlterePriorityQueuePanel)
        ensures
            panel.well_formed(),
            panel@ == (QueueState {
                position: initial_position(borrowed_text(stored_position), DockPosition::Bottom),
                projection: None,
                load: LoadView::Loading,
                selected: 0,
            }),
    {
        AlterePriorityQueuePanel {
            position: starting_position(stored_position, DockPosition::Bottom),
            projection: None,
            load_state: LoadState::Loading,
            selected_index: 0,
        }
    }

    /// Starts waiting for a new projection.
    pub fn refresh(&mut self) -> (update: ViewUpdate)
        requires
            old(self).well_formed(),
        ensures
            final(self).well_formed(),
            final(self)@ == (QueueState { load: LoadView::Loading, ..old(self)@ }),
            update == repaint_only(),
    {
        self.load_state = LoadState::Loading;
        ViewUpdate::paint()
    }

    /// Takes the runtime's answer: the projection, or why there is none.
    pub fn finish_refresh(&mut self, result: Result<QueueProjection, String>) -> (update:
        ViewUpdate)
        requires
            old(self).well_formed(),
        ensures
            final(self).well_formed(),
            (final(self)@, update) == old(self)@.refreshed(loaded_view(result)),
    {
        match result {
            Ok(projection) => {
                let ghost before = self@;
                let selected_id = match self.selected_row() {
                    Some(row) => Some(row.id.clone()),
                    None => None,
                };
                let selected_index = selected_index_after_refresh(
                    borrow_text(&selected_id),
                    self.selected_index,
                    projection.rows.as_slice(),
                );
                let row_count = projection.rows.len();
                proof {
                    assert(owned_text(selected_id) == before.selected_id());
                    lemma_selection_holds(
                        before.selected_id(),
                        before.selected,
                        projection@.rows,
                    );
                }
                self.selected_index = selected_index;
                self.projection = Some(projection);
                self.load_state = LoadState::Ready;
                ViewUpdate {
                    reset_rows: Some(row_count),
                    reveal_row: None,
                    focus_panel: false,
                    repaint: true,
                }
            },
            Err(message) => {
                self.load_state = LoadState::error(message);
                ViewUpdate::paint()
            },
        }
    }

    /// The row at a place.
    pub fn row_at(&self, place: usize) -> (row: Option<&QueueProjectionRow>)
        ensures
            row is Some == (self@.row_at(place as int) is Some),
            row matches Some(row) ==> row@ == self@.row_at(place as int)->0,
    {
        match &self.projection {
            Some(projection) => if place < projection.rows.len() {
                assert(self@.rows()[place as int] == projection.rows@[place as int]@);
                Some(&projection.rows[place])
            } else {
                None
            },
            None => None,
        }
    }

    /// The selected row.
    pub fn selected_row(&self) -> (row: Option<&QueueProjectionRow>)
        ensures
            row is Some == (self@.row_at(self@.selected) is Some),
            row matches Some(row) ==> row@ == self@.row_at(self@.selected)->0,
    {
        self.row_at(self.selected_index)
    }

    /// The path to open for the selected row.
    pub fn open_selected(&self) -> (path: Option<String>)
        ensures
            owned_text(path) == self@.selected_path(),
    {
        match self.selected_row() {
            Some(row) => Some(row.path.clone()),
            None => None,
        }
    }

    /// The number of rows.
    pub fn row_count(&self) -> (count: usize)
        ensures
            count == self@.rows().len(),
    {
        match &self.projection {
            Some(projection) => projection.rows.len(),
            None => 0,
        }
    }

    /// Selects a row by its place.
    pub fn select(&mut self, index: usize) -> (update: ViewUpdate)
        requires
            old(self).well_formed(),
        ensures
            final(self).well_formed(),
            (final(self)@, update) == old(self)@.selecting(index as int),
    {
        if index >= self.row_count() {
            return ViewUpdate::none();
        }
        self.selected_index = index;
        ViewUpdate {
            reset_rows: None,
            reveal_row: Some(index),
            focus_panel: true,
            repaint: true,
        }
    }

    /// Moves the selection by a number of rows.
    pub fn move_selection_by(&mut self, delta: isize) -> (update: ViewUpdate)
        requires
            old(self).well_formed(),
        ensures
            final(self).well_formed(),
            (final(self)@, update) == old(self)@.stepping(delta as int),
    {
        let index = move_selection(self.selected_index, self.row_count(), delta);
        self.select(index)
    }

    /// Selects the next row.
    pub fn select_next(&mut self) -> (update: ViewUpdate)
        requires
            old(self).well_formed(),
        ensures
            final(self).well_formed(),
            (final(self)@, update) == old(self)@.stepping(1),
    {
        self.move_selection_by(1)
    }

    /// Selects the previous row.
    pub fn select_previous(&mut self) -> (update: ViewUpdate)
        requires
            old(self).well_formed(),
        ensures
            final(self).well_formed(),
            (final(self)@, update) == old(self)@.stepping(-1),
    {
        self.move_selection_by(-1)
    }

    /// Selects the first row.
    pub fn select_first(&mut self) -> (update: ViewUpdate)
        requires
            old(self).well_formed(),
        ensures
            final(self).well_formed(),
            (final(self)@, update) == old(self)@.selecting(0),
    {
        self.select(0)
    }

    /// Selects the last row.
    pub fn select_last(&mut self) -> (update: ViewUpdate)
        requires
            old(self).well_formed(),
        ensures
            final(self).well_formed(),
            (final(self)@, update) == old(self)@.selecting(old(self)@.rows().len() - 1),
    {
        let count = self.row_count();
        if count == 0 {
            return ViewUpdate::none();
        }
        self.select(count - 1)
    }

    /// Moves the selection up by half of what a viewport of the given height in
    /// whole pixels shows.
    pub fn scroll_up(&mut self, viewport_height: usize) -> (update: ViewUpdate)
        requires
            old(self).well_formed(),
        ensures
            final(self).well_formed(),
            (final(self)@, update) == old(self)@.stepping(-(half_page(viewport_height as nat) as int)),
    {
        let rows: isize = half_page_rows(viewport_height) as isize;
        self.move_selection_by(-rows)
    }

    /// Moves the selection down by half of what a viewport of the given height in
    /// whole pixels shows.
    pub fn scroll_down(&mut self, viewport_height: usize) -> (update: ViewUpdate)
        requires
            old(self).well_formed(),
        ensures
            final(self).well_formed(),
            (final(self)@, update) == old(self)@.stepping(half_page(viewport_height as nat) as int),
    {
        let rows: isize = half_page_rows(viewport_height) as isize;
        self.move_selection_by(rows)
    }

    /// Steps the priority of the selected row, given the open items of the
    /// workspace where it is still there.
    pub fn change_selected_priority(&mut self, delta: i32, items: Option<&[OpenItem]>) -> (change:
        PriorityChange)
        requires
            old(self).well_formed(),
            old(self)@.steppable(open_items(items)) matches Some(row) ==> i32::MIN
                <= row.priority.rounded + delta <= i32::MAX,
        ensures
            final(self).well_formed(),
            (final(self)@, change@) == old(self)@.repricing(delta as int, open_items(items)),
    {
        let ghost before = self@;
        let row = match self.selected_row() {
            Some(row) => row,
            None => return PriorityChange::Unchanged,
        };
        let items = match items {
            Some(items) => items,
            None => return PriorityChange::Unchanged,
        };
        if path_is_dirty(items, row.path.as_str()) {
            let mut message = "Save ".to_string();
            message.append(row.name.as_str());
            message.append(" before changing its priority.");
            self.load_state = LoadState::Error(message);
            return PriorityChange::Refused(ViewUpdate::paint());
        }
        assert(before.steppable(Some(items@)) == Some(row@));
        let priority = stepped_priority(row.priority.rounded, delta);
        if row.priority.whole && row.priority.rounded == priority as i32 {
            return PriorityChange::Unchanged;
        }
        let id = row.id.clone();
        let fingerprint = row.fingerprint.clone();
        self.load_state = LoadState::Loading;
        PriorityChange::Requested { id, priority, fingerprint, update: ViewUpdate::paint() }
    }

    /// Makes the selected row more important, by five.
    pub fn more_important(&mut self, items: Option<&[OpenItem]>) -> (change: PriorityChange)
        requires
            old(self).well_formed(),
            old(self)@.steppable(open_items(items)) matches Some(row) ==> i32::MIN + 5
                <= row.priority.rounded,
        ensures
            final(self).well_formed(),
            (final(self)@, change@) == old(self)@.repricing(-5, open_items(items)),
    {
        self.change_selected_priority(-5, items)
    }

    /// Makes the selected row less important, by five.
    pub fn less_important(&mut self, items: Option<&[OpenItem]>) -> (change: PriorityChange)
        requires
            old(self).well_formed(),
            old(self)@.steppable(open_items(items)) matches Some(row) ==> row.priority.rounded
                <= i32::MAX - 5,
        ensures
            final(self).well_formed(),
            (final(self)@, change@) == old(self)@.repricing(5, open_items(items)),
    {
        self.change_selected_priority(5, items)
    }
}

} // verus!
