//! What the priority-queue panel shows: its header, its rows and the line below the
//! protected ones.

use crate::display::{
    banner_for, banner_view, cell_views, load_banner, BannerView, Cell, CellView, ElementId,
    ElementIdView, LoadBanner, LoadState, Role, Tone, ViewUpdate,
};
use crate::dock::{position_for_storage, stored_position, DockPosition};
use crate::keys::Action;
use crate::priority_queue::{
    open_items, AlterePriorityQueuePanel, ChangeView, OpenItem, PriorityChange, QueueRow,
    QueueState,
};
use crate::queue_row::{
    PriorityQueueRow, PriorityQueueRowData, QueueRowElement, QueueRowParts, QueueRowView,
    RowDataView,
};
use crate::selection::half_page;
use crate::text::{ascii_upper, decimal, decimal_text, owned_text};
use vstd::prelude::*;
use vstd::string::*;
use vstd::utf8::is_ascii_chars;

verus! {

/// The setting under which the panel's position is stored.
pub const PANEL_POSITION_KEY: &'static str = "altere_priority_queue_panel_position";

/// The name of the panel, and the key under which it is known.
pub const PANEL_NAME: &'static str = "AlterePriorityQueuePanel";

/// The panel's width or height at first, in pixels.
pub const DEFAULT_SIZE: usize = 280;

/// What the panel's icon is called.
pub const ICON_TOOLTIP: &'static str = "Priority Queue";

/// Whether the panel is open at first.
pub const STARTS_OPEN: bool = true;

/// How far beyond its viewport the list is laid out, in pixels.
pub const LIST_OVERDRAW: usize = 48;

/// Where the panel comes among the others.
pub const ACTIVATION_PRIORITY: u32 = 1;

/// The height of the line below the protected rows, in pixels.
pub const FLOOR_HEIGHT: usize = 20;

/// The context in which the panel's keys are bound.
pub const KEY_CONTEXT: &'static str = "AlterePriorityQueue";

/// A click on a row, by its place.
#[derive(Clone, Copy, Debug, PartialEq, Eq, Structural)]
pub struct RowClick {
    pub place: usize,
}

/// The line below the protected rows.
pub struct FloorLine {
    pub height: usize,
    pub title: String,
    pub text: String,
}

/// What that line says.
pub struct FloorView {
    pub height: usize,
    pub title: Seq<char>,
    pub text: Seq<char>,
}

/// A row as it shows in the panel, with the line below it where it is the last
/// protected one.
pub struct QueueItem {
    pub row: QueueRowElement<RowClick>,
    pub floor: Option<FloorLine>,
}

/// What a shown row says.
pub struct QueueItemView {
    pub row: QueueRowView<RowClick>,
    pub floor: Option<FloorView>,
}

impl View for QueueItem {
    type V = QueueItemView;

    open spec fn view(&self) -> QueueItemView {
        QueueItemView {
            row: self.row@,
            floor: match self.floor {
                Some(floor) => Some(
                    FloorView { height: floor.height, title: floor.title@, text: floor.text@ },
                ),
                None => None,
            },
        }
    }
}

/// Whether a row is protected and the next one, where there is one, is not.
pub open spec fn marks_floor(rows: Seq<QueueRow>, place: int) -> bool {
    rows[place].protected && (place + 1 >= rows.len() || !rows[place + 1].protected)
}

/// What a row of the queue is made of at its place.
pub open spec fn row_parts(state: QueueState, row: QueueRow, place: int) -> QueueRowParts<
    RowClick,
> {
    QueueRowParts {
        id: ElementIdView { name: "altere-priority-queue-row"@, place: Some(place as usize) },
        data: RowDataView {
            rank: row.rank,
            percentile: row.percentile,
            claim_cells: row.claim_cells,
            lane: row.lane,
            name: row.name,
            priority: row.priority.text,
            reads: row.reads,
        },
        selected: place == state.selected,
        tooltip: Some(row.id + " · "@ + row.rule + " · "@ + row.path),
        on_click: Some(RowClick { place: place as usize }),
    }
}

/// How a row of the queue shows at its place.
pub open spec fn item_display(state: QueueState, place: int) -> QueueItemView {
    QueueItemView {
        row: crate::queue_row::row_display(row_parts(state, state.rows()[place], place)),
        floor: if marks_floor(state.rows(), place) {
            Some(
                FloorView {
                    height: FLOOR_HEIGHT,
                    title: "FLOOR"@,
                    text: "TOP "@ + decimal(state.projection->0.protected_percentile as nat)
                        + "% PROTECTED"@,
                },
            )
        } else {
            None
        },
    }
}

/// The panel as it shows: its header, the headings of its columns, the line about
/// its loading and its list, which is empty or has a number of rows.
pub struct QueuePanel {
    pub key_context: String,
    pub book: String,
    pub floor: Option<String>,
    pub headings: Vec<Cell>,
    pub banner: Option<LoadBanner>,
    pub list_id: ElementId,
    pub list_role: Role,
    pub list_label: String,
    pub empty_text: Option<String>,
    pub row_count: Option<usize>,
}

/// What the shown panel says.
pub struct QueuePanelView {
    pub key_context: Seq<char>,
    pub book: Seq<char>,
    pub floor: Option<Seq<char>>,
    pub headings: Seq<CellView>,
    pub banner: Option<BannerView>,
    pub list_id: ElementIdView,
    pub list_role: Role,
    pub list_label: Seq<char>,
    pub empty_text: Option<Seq<char>>,
    pub row_count: Option<usize>,
}

impl View for QueuePanel {
    type V = QueuePanelView;

    open spec fn view(&self) -> QueuePanelView {
        QueuePanelView {
            key_context: self.key_context@,
            book: self.book@,
            floor: owned_text(self.floor),
            headings: cell_views(self.headings@),
            banner: banner_view(self.banner),
            list_id: self.list_id@,
            list_role: self.list_role,
            list_label: self.list_label@,
            empty_text: owned_text(self.empty_text),
            row_count: self.row_count,
        }
    }
}

/// A heading over a column.
pub open spec fn heading(width: Option<usize>, text: Seq<char>) -> CellView {
    CellView { width, tone: Tone::Muted, text }
}

/// The headings of the columns.
pub open spec fn column_headings() -> Seq<CellView> {
    seq![
        heading(Some(34), "RANK"@),
        heading(Some(42), "%ILE"@),
        heading(Some(86), "CLAIM"@),
        heading(Some(66), "LANE"@),
        heading(None, "ELEMENT"@),
    ]
}

/// How the panel shows.
pub open spec fn panel_display(state: QueueState) -> QueuePanelView {
    QueuePanelView {
        key_context: KEY_CONTEXT@,
        book: match state.projection {
            Some(projection) => "BOOK "@ + decimal(projection.book_size as nat),
            None => "BOOK —"@,
        },
        floor: match state.projection {
            Some(projection) => Some(
                "FLOOR TOP "@ + decimal(projection.protected_percentile as nat) + "%"@,
            ),
            None => None,
        },
        headings: column_headings(),
        banner: banner_for(
            state.load,
            state.projection is Some,
            "Loading priority queue…"@,
            "retry-altere-priority-queue"@,
        ),
        list_id: ElementIdView { name: "altere-priority-queue-rows"@, place: None },
        list_role: Role::List,
        list_label: "Priority queue"@,
        empty_text: if state.rows().len() == 0 && state.load is Ready {
            Some("Nothing in rotation."@)
        } else {
            None
        },
        row_count: if state.rows().len() > 0 {
            Some(state.rows().len() as usize)
        } else {
            None
        },
    }
}

/// What an action comes to: a change of the view, a path to open where a row is
/// selected, a step of a priority, or nothing, where it is none of the panel's.
pub enum QueueEffect {
    Update(ViewUpdate),
    Open(Option<String>),
    Priority(PriorityChange),
    Unhandled,
}

/// What an effect says.
pub enum QueueEffectView {
    Update(ViewUpdate),
    Open(Option<Seq<char>>),
    Priority(ChangeView),
    Unhandled,
}

impl View for QueueEffect {
    type V = QueueEffectView;

    open spec fn view(&self) -> QueueEffectView {
        match self {
            QueueEffect::Update(update) => QueueEffectView::Update(*update),
            QueueEffect::Open(path) => QueueEffectView::Open(owned_text(*path)),
            QueueEffect::Priority(change) => QueueEffectView::Priority(change@),
            QueueEffect::Unhandled => QueueEffectView::Unhandled,
        }
    }
}

/// What an operation on the panel comes to as an effect.
pub open spec fn updating(outcome: (QueueState, ViewUpdate)) -> (QueueState, QueueEffectView) {
    (outcome.0, QueueEffectView::Update(outcome.1))
}

/// What a step of a priority comes to as an effect.
pub open spec fn repricing(outcome: (QueueState, ChangeView)) -> (QueueState, QueueEffectView) {
    (outcome.0, QueueEffectView::Priority(outcome.1))
}

/// What an action does to the panel, given the height of its viewport and the
/// open items.
pub open spec fn acting(
    state: QueueState,
    action: Action,
    viewport_height: nat,
    items: Option<Seq<OpenItem>>,
) -> (QueueState, QueueEffectView) {
    match action {
        Action::SelectNext => updating(state.stepping(1)),
        Action::SelectPrevious => updating(state.stepping(-1)),
        Action::SelectFirst => updating(state.selecting(0)),
        Action::SelectLast => updating(state.selecting(state.rows().len() - 1)),
        Action::ScrollUp => updating(state.stepping(-(half_page(viewport_height) as int))),
        Action::ScrollDown => updating(state.stepping(half_page(viewport_height) as int)),
        Action::OpenQueueItem => (state, QueueEffectView::Open(state.selected_path())),
        Action::MoreImportant => repricing(state.repricing(-5, items)),
        Action::LessImportant => repricing(state.repricing(5, items)),
        _ => (state, QueueEffectView::Unhandled),
    }
}

fn heading_cell(width: Option<usize>, text: &str) -> (cell: Cell)
    ensures
        cell@ == heading(width, text@),
{
    Cell { width, tone: Tone::Muted, text: text.to_string() }
}

impl AlterePriorityQueuePanel {
    /// Shows the row at a place; there is none behind the last one.
    pub fn render_row(&self, index: usize) -> (item: Option<QueueItem>)
        ensures
            item is Some == (self@.row_at(index as int) is Some),
            item matches Some(item) ==> item@ == item_display(self@, index as int),
            item matches Some(item) ==> (is_ascii_chars(self@.rows()[index as int].lane)
                ==> item@.row.cells[3].text == self@.rows()[index as int].lane.map_values(
                |c: char| ascii_upper(c),
            )),
    {
        let projection = match &self.projection {
            Some(projection) => projection,
            None => return None,
        };
        if index >= projection.rows.len() {
            return None;
        }
        let row = &projection.rows[index];
        assert(self@.rows()[index as int] == row@);
        let mut tooltip = row.id.clone();
        tooltip.append(" · ");
        tooltip.append(row.rule.as_str());
        tooltip.append(" · ");
        tooltip.append(row.path.as_str());
        let data = PriorityQueueRowData::new(
            row.rank,
            row.percentile.clone(),
            row.claim_cells,
            row.lane.clone(),
            row.name.clone(),
            row.priority.text.clone(),
            row.reads,
        );
        let shown = PriorityQueueRow::new(
            ElementId::numbered("altere-priority-queue-row", index),
            data,
        ).selected(index == self.selected_index).on_click(RowClick { place: index }).tooltip(
            tooltip,
        );
        assert(shown@ == row_parts(self@, row@, index as int));
        let marks = if row.protected {
            if index + 1 < projection.rows.len() {
                assert(self@.rows()[index + 1] == projection.rows@[index + 1]@);
                !projection.rows[index + 1].protected
            } else {
                true
            }
        } else {
            false
        };
        let floor = if marks {
            let mut text = "TOP ".to_string();
            text.append(decimal_text(projection.protected_percentile as usize).as_str());
            text.append("% PROTECTED");
            Some(FloorLine { height: FLOOR_HEIGHT, title: "FLOOR".to_string(), text })
        } else {
            None
        };
        Some(QueueItem { row: shown.render(), floor })
    }

    /// The line about the panel's loading.
    pub fn render_load_state(&self) -> (banner: Option<LoadBanner>)
        ensures
            banner_view(banner) == panel_display(self@).banner,
    {
        load_banner(
            &self.load_state,
            self.projection.is_some(),
            "Loading priority queue…",
            "retry-altere-priority-queue",
        )
    }

    /// Shows the panel.
    pub fn render(&self) -> (panel: QueuePanel)
        ensures
            panel@ == panel_display(self@),
    {
        let count = self.row_count();
        let ready = match self.load_state {
            LoadState::Ready => true,
            _ => false,
        };
        let book = match &self.projection {
            Some(projection) => {
                let mut book = "BOOK ".to_string();
                book.append(decimal_text(projection.book_size).as_str());
                book
            },
            None => "BOOK —".to_string(),
        };
        let floor = match &self.projection {
            Some(projection) => {
                let mut floor = "FLOOR TOP ".to_string();
                floor.append(decimal_text(projection.protected_percentile as usize).as_str());
                floor.append("%");
                Some(floor)
            },
            None => None,
        };
        let headings = vec![
            heading_cell(Some(34), "RANK"),
            heading_cell(Some(42), "%ILE"),
            heading_cell(Some(86), "CLAIM"),
            heading_cell(Some(66), "LANE"),
            heading_cell(None, "ELEMENT"),
        ];
        assert(cell_views(headings@) =~= column_headings());
        QueuePanel {
            key_context: KEY_CONTEXT.to_string(),
            book,
            floor,
            headings,
            banner: self.render_load_state(),
            list_id: ElementId::named("altere-priority-queue-rows"),
            list_role: Role::List,
            list_label: "Priority queue".to_string(),
            empty_text: if count == 0 && ready {
                Some("Nothing in rotation.".to_string())
            } else {
                None
            },
            row_count: if count > 0 {
                Some(count)
            } else {
                None
            },
        }
    }

    /// Carries out an action of the panel, given the height of its viewport in
    /// whole pixels and the open items of the workspace where it is still there.
    pub fn on_action(
        &mut self,
        action: Action,
        viewport_height: usize,
        items: Option<&[OpenItem]>,
    ) -> (effect: QueueEffect)
        requires
            old(self).well_formed(),
            action is MoreImportant ==> (old(self)@.steppable(open_items(items)) matches Some(row)
                ==> i32::MIN + 5 <= row.priority.rounded),
            action is LessImportant ==> (old(self)@.steppable(open_items(items)) matches Some(row)
                ==> row.priority.rounded <= i32::MAX - 5),
        ensures
            final(self).well_formed(),
            (final(self)@, effect@) == acting(
                old(self)@,
                action,
                viewport_height as nat,
                open_items(items),
            ),
    {
        match action {
            Action::SelectNext => QueueEffect::Update(self.select_next()),
            Action::SelectPrevious => QueueEffect::Update(self.select_previous()),
            Action::SelectFirst => QueueEffect::Update(self.select_first()),
            Action::SelectLast => QueueEffect::Update(self.select_last()),
            Action::ScrollUp => QueueEffect::Update(self.scroll_up(viewport_height)),
            Action::ScrollDown => QueueEffect::Update(self.scroll_down(viewport_height)),
            Action::OpenQueueItem => QueueEffect::Open(self.open_selected()),
            Action::MoreImportant => QueueEffect::Priority(self.more_important(items)),
            Action::LessImportant => QueueEffect::Priority(self.less_important(items)),
            _ => QueueEffect::Unhandled,
        }
    }

    /// A click on a row: selects it, and opens the row that is selected then where
    /// it was the second click or a later one.
    pub fn click_at(&mut self, click: RowClick, click_count: usize) -> (outcome: (
        ViewUpdate,
        Option<String>,
    ))
        requires
            old(self).well_formed(),
        ensures
            final(self).well_formed(),
            (final(self)@, outcome.0) == old(self)@.selecting(click.place as int),
            owned_text(outcome.1) == if click_count >= 2 {
                final(self)@.selected_path()
            } else {
                None
            },
    {
        let update = self.select(click.place);
        if click_count >= 2 {
            (update, self.open_selected())
        } else {
            (update, None)
        }
    }

    /// Where the panel is docked.
    pub fn position(&self) -> (position: DockPosition)
        ensures
            position == self@.position,
    {
        self.position
    }

    /// Whether the panel can be docked somewhere: anywhere.
    pub fn position_is_valid(&self, position: DockPosition) -> (valid: bool)
        ensures
            valid,
    {
        match position {
            DockPosition::Left | DockPosition::Bottom | DockPosition::Right => true,
        }
    }

    /// Docks the panel elsewhere; the text is to be stored.
    pub fn set_position(&mut self, position: DockPosition) -> (stored: String)
        requires
            old(self).well_formed(),
        ensures
            final(self).well_formed(),
            final(self)@ == (QueueState { position, ..old(self)@ }),
            stored@ == stored_position(position),
    {
        self.position = position;
        position_for_storage(position)
    }

    /// The number beside the panel's icon: the size of the book.
    pub fn icon_label(&self) -> (label: Option<String>)
        ensures
            owned_text(label) == (match self@.projection {
                Some(projection) => Some(decimal(projection.book_size as nat)),
                None => None,
            }),
    {
        match &self.projection {
            Some(projection) => Some(decimal_text(projection.book_size)),
            None => None,
        }
    }
}

/// A row shows at its place with its own values; it is selected exactly where its place
/// is the selected one, its tooltip names its identity, rule and path, and a click on it
/// says its place.
pub proof fn rows_show_what_they_are(state: QueueState, row: QueueRow, place: int)
    requires
        0 <= place <= usize::MAX,
    ensures
        ({
            let parts = row_parts(state, row, place);
            &&& parts.id.name == "altere-priority-queue-row"@
            &&& parts.id.place is Some && parts.id.place->0 == place
            &&& parts.data.rank == row.rank
            &&& parts.data.percentile == row.percentile
            &&& parts.data.claim_cells == row.claim_cells
            &&& parts.data.lane == row.lane
            &&& parts.data.name == row.name
            &&& parts.data.priority == row.priority.text
            &&& parts.data.reads == row.reads
            &&& parts.selected <==> place == state.selected
            &&& parts.tooltip == Some(row.id + " · "@ + row.rule + " · "@ + row.path)
            &&& parts.on_click is Some && parts.on_click->0.place == place
        }),
{
}

/// The line below the protected rows is drawn below a row exactly where that row is
/// protected and no protected row follows it at once; it says how much is protected.
pub proof fn floor_is_below_protected_rows(state: QueueState, place: int)
    requires
        0 <= place < state.rows().len(),
    ensures
        ({
            let rows = state.rows();
            let item = item_display(state, place);
            &&& item.row == crate::queue_row::row_display(row_parts(state, rows[place], place))
            &&& item.floor is Some <==> rows[place].protected && !(place + 1 < rows.len()
                && rows[place + 1].protected)
            &&& item.floor matches Some(floor) ==> {
                &&& floor.height == 20
                &&& floor.title == "FLOOR"@
                &&& floor.text == "TOP "@ + decimal(
                    state.projection->0.protected_percentile as nat,
                ) + "% PROTECTED"@
            }
        }),
{
}

/// The panel says how large the book is and how much of it is protected, once that is
/// known; it says that nothing is in rotation only where that is known, and lists its
/// rows.
pub proof fn panel_says_what_was_projected(state: QueueState)
    requires
        state.rows().len() <= usize::MAX,
    ensures
        ({
            let panel = panel_display(state);
            let empty = state.rows().len() == 0 && state.load is Ready;
            &&& panel.key_context == "AlterePriorityQueue"@
            &&& state.projection is None ==> panel.book == "BOOK —"@ && panel.floor is None
            &&& state.projection matches Some(projection) ==> panel.book == "BOOK "@ + decimal(
                projection.book_size as nat,
            ) && panel.floor == Some(
                "FLOOR TOP "@ + decimal(projection.protected_percentile as nat) + "%"@,
            )
            &&& panel.banner == banner_for(
                state.load,
                state.projection is Some,
                "Loading priority queue…"@,
                "retry-altere-priority-queue"@,
            )
            &&& panel.list_id.name == "altere-priority-queue-rows"@
            &&& panel.list_id.place is None
            &&& panel.list_role is List
            &&& panel.list_label == "Priority queue"@
            &&& empty ==> panel.empty_text == Some("Nothing in rotation."@)
            &&& !empty ==> panel.empty_text is None
            &&& panel.row_count is Some <==> state.rows().len() > 0
            &&& panel.row_count is Some ==> panel.row_count->0 == state.rows().len()
        }),
{
}

/// The headings stand over the columns of the rows: each has the width of its column.
pub proof fn headings_stand_over_their_columns(data: RowDataView, lane: Seq<char>, i: int)
    requires
        0 <= i < 5,
    ensures
        column_headings().len() == 5,
        column_headings()[i].width == crate::queue_row::columns(data, lane)[i].width,
        column_headings()[i].tone is Muted,
        column_headings()[0].text == "RANK"@,
        column_headings()[1].text == "%ILE"@,
        column_headings()[2].text == "CLAIM"@,
        column_headings()[3].text == "LANE"@,
        column_headings()[4].text == "ELEMENT"@,
{
}

/// Each action of the panel does what it is named for, with five as the step of a
/// priority, and every other action leaves the panel as it is.
pub proof fn actions_do_what_they_are_named_for(
    state: QueueState,
    action: Action,
    viewport_height: nat,
    items: Option<Seq<OpenItem>>,
)
    ensures
        ({
            let (after, effect) = acting(state, action, viewport_height, items);
            let page = half_page(viewport_height) as int;
            let (next, next_update) = state.stepping(1);
            let (previous, previous_update) = state.stepping(-1);
            let (first, first_update) = state.selecting(0);
            let (last, last_update) = state.selecting(state.rows().len() - 1);
            let (up, up_update) = state.stepping(-page);
            let (down, down_update) = state.stepping(page);
            let (more, more_change) = state.repricing(-5, items);
            let (less, less_change) = state.repricing(5, items);
            &&& action is SelectNext ==> after == next && effect == QueueEffectView::Update(
                next_update,
            )
            &&& action is SelectPrevious ==> after == previous && effect
                == QueueEffectView::Update(previous_update)
            &&& action is SelectFirst ==> after == first && effect == QueueEffectView::Update(
                first_update,
            )
            &&& action is SelectLast ==> after == last && effect == QueueEffectView::Update(
                last_update,
            )
            &&& action is ScrollUp ==> after == up && effect == QueueEffectView::Update(up_update)
            &&& action is ScrollDown ==> after == down && effect == QueueEffectView::Update(
                down_update,
            )
            &&& action is OpenQueueItem ==> after == state && effect == QueueEffectView::Open(
                state.selected_path(),
            )
            &&& action is MoreImportant ==> after == more && effect == QueueEffectView::Priority(
                more_change,
            )
            &&& action is LessImportant ==> after == less && effect == QueueEffectView::Priority(
                less_change,
            )
            &&& effect is Unhandled <==> !(action is SelectNext || action is SelectPrevious
                || action is SelectFirst || action is SelectLast || action is ScrollUp
                || action is ScrollDown || action is OpenQueueItem || action is MoreImportant
                || action is LessImportant)
            &&& effect is Unhandled ==> after == state
        }),
{
}

/// A shown row, the shown panel and an effect say what they hold.
pub proof fn shown_parts_say_what_they_hold(item: QueueItem, panel: QueuePanel, effect: QueueEffect)
    ensures
        item@.row == item.row@,
        item.floor is None <==> item@.floor is None,
        item.floor matches Some(floor) ==> item@.floor == Some(
            FloorView { height: floor.height, title: floor.title@, text: floor.text@ },
        ),
        panel@ == (QueuePanelView {
            key_context: panel.key_context@,
            book: panel.book@,
            floor: owned_text(panel.floor),
            headings: cell_views(panel.headings@),
            banner: banner_view(panel.banner),
            list_id: panel.list_id@,
            list_role: panel.list_role,
            list_label: panel.list_label@,
            empty_text: owned_text(panel.empty_text),
            row_count: panel.row_count,
        }),
        effect matches QueueEffect::Update(update) ==> effect@ == QueueEffectView::Update(update),
        effect matches QueueEffect::Open(path) ==> effect@ == QueueEffectView::Open(
            owned_text(path),
        ),
        effect matches QueueEffect::Priority(change) ==> effect@ == QueueEffectView::Priority(
            change@,
        ),
        effect is Unhandled <==> effect@ is Unhandled,
{
}

} // verus!
