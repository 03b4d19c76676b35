//! What the knowledge-tree panel shows: its header, its rows and what a row takes.

use crate::display::{
    banner_for, banner_view, load_banner, BannerView, ElementId, ElementIdView, LoadBanner,
    LoadState, Role, ViewUpdate,
};
use crate::dock::{position_for_storage, stored_position, DockPosition};
use crate::hierarchy::RowView;
use crate::keys::Action;
use crate::knowledge_tree::{AltereKnowledgeTreePanel, MoveRequest, TreeState};
use crate::selection::ROW_HEIGHT;
use crate::text::{decimal, decimal_text, owned_text, same_text};
use vstd::prelude::*;
use vstd::string::*;

verus! {

/// The setting under which the panel's position is stored.
pub const PANEL_POSITION_KEY: &'static str = "altere_knowledge_tree_panel_position";

/// The name of the panel, and the key under which it is known.
pub const PANEL_NAME: &'static str = "AltereKnowledgeTreePanel";

/// The panel's width or height at first, in pixels.
pub const DEFAULT_SIZE: usize = 260;

/// What the panel's icon is called.
pub const ICON_TOOLTIP: &'static str = "Knowledge Tree";

/// Whether the panel is open at first.
pub const STARTS_OPEN: bool = true;

/// How far beyond its viewport the list is laid out, in pixels.
pub const LIST_OVERDRAW: usize = 32;

/// Where the panel comes among the others.
pub const ACTIVATION_PRIORITY: u32 = 4;

/// The indentation of a row by one level, in pixels.
pub const INDENT_STEP: usize = 16;

/// The context in which the panel's keys are bound.
pub const KEY_CONTEXT: &'static str = "AltereKnowledgeTree";

/// A row that is dragged.
#[derive(Debug, PartialEq, Eq)]
pub struct DraggedHierarchyItem {
    pub id: String,
    pub name: String,
}

impl Clone for DraggedHierarchyItem {
    fn clone(&self) -> (copy: Self)
        ensures
            copy.id@ == self.id@,
            copy.name@ == self.name@,
    {
        DraggedHierarchyItem { id: self.id.clone(), name: self.name.clone() }
    }
}

/// A row as it shows.
pub struct TreeRow {
    pub drag_id: ElementId,
    pub item_id: ElementId,
    pub height: usize,
    pub indent_level: usize,
    pub indent_step: usize,
    pub disclosure: Option<bool>,
    pub selected: bool,
    pub role: Role,
    pub label: String,
    pub tooltip: String,
    pub file_icon: bool,
    pub text: String,
    pub dragged: DraggedHierarchyItem,
    pub drop_target: String,
}

/// What a shown row says.
pub struct TreeRowView {
    pub drag_id: ElementIdView,
    pub item_id: ElementIdView,
    pub height: usize,
    pub indent_level: usize,
    pub indent_step: usize,
    pub disclosure: Option<bool>,
    pub selected: bool,
    pub role: Role,
    pub label: Seq<char>,
    pub tooltip: Seq<char>,
    pub file_icon: bool,
    pub text: Seq<char>,
    pub dragged_id: Seq<char>,
    pub dragged_name: Seq<char>,
    pub drop_target: Seq<char>,
}

impl View for TreeRow {
    type V = TreeRowView;

    open spec fn view(&self) -> TreeRowView {
        TreeRowView {
            drag_id: self.drag_id@,
            item_id: self.item_id@,
            height: self.height,
            indent_level: self.indent_level,
            indent_step: self.indent_step,
            disclosure: self.disclosure,
            selected: self.selected,
            role: self.role,
            label: self.label@,
            tooltip: self.tooltip@,
            file_icon: self.file_icon,
            text: self.text@,
            dragged_id: self.dragged.id@,
            dragged_name: self.dragged.name@,
            drop_target: self.drop_target@,
        }
    }
}

/// What a row is called: its name, its level and its parent.
pub open spec fn spoken_label(row: RowView) -> Seq<char> {
    row.name + " at hierarchy level "@ + decimal((row.depth + 1) as nat) + (match row.parent_id {
        Some(parent) => ", child of "@ + parent,
        None => seq![],
    })
}

/// How a row of the tree shows at its place: indented by its level, with a
/// disclosure where it has children and a file icon where it has none.
pub open spec fn row_display(state: TreeState, row: RowView, place: int) -> TreeRowView {
    TreeRowView {
        drag_id: ElementIdView {
            name: "altere-knowledge-tree-drag-row"@,
            place: Some(place as usize),
        },
        item_id: ElementIdView {
            name: "altere-knowledge-tree-row"@,
            place: Some(place as usize),
        },
        height: ROW_HEIGHT,
        indent_level: (row.depth + 1) as usize,
        indent_step: INDENT_STEP,
        disclosure: if row.has_children {
            Some(!state.collapsed.contains(row.id))
        } else {
            None
        },
        selected: place == state.selected,
        role: Role::TreeItem,
        label: spoken_label(row),
        tooltip: row.path,
        file_icon: !row.has_children,
        text: row.name,
        dragged_id: row.id,
        dragged_name: row.name,
        drop_target: row.id,
    }
}

/// The panel as it shows: its header, the line about its loading and its list,
/// which is empty or has a number of rows.
pub struct TreePanel {
    pub key_context: String,
    pub title: String,
    pub count: String,
    pub banner: Option<LoadBanner>,
    pub list_id: ElementId,
    pub list_role: Role,
    pub list_label: String,
    pub empty_text: Option<String>,
    pub row_count: Option<usize>,
}

/// What the shown panel says.
pub struct TreePanelView {
    pub key_context: Seq<char>,
    pub title: Seq<char>,
    pub count: Seq<char>,
    pub banner: Option<BannerView>,
    pub list_id: ElementIdView,
    pub list_role: Role,
    pub list_label: Seq<char>,
    pub empty_text: Option<Seq<char>>,
    pub row_count: Option<usize>,
}

impl View for TreePanel {
    type V = TreePanelView;

    open spec fn view(&self) -> TreePanelView {
        TreePanelView {
            key_context: self.key_context@,
            title: self.title@,
            count: self.count@,
            banner: banner_view(self.banner),
            list_id: self.list_id@,
            list_role: self.list_role,
            list_label: self.list_label@,
            empty_text: owned_text(self.empty_text),
            row_count: self.row_count,
        }
    }
}

/// The number of rows in the tree, shown or hidden.
pub open spec fn node_count(state: TreeState) -> nat {
    match state.projection {
        Some(projection) => projection.rows.len(),
        None => 0,
    }
}

/// How the panel shows.
pub open spec fn panel_display(state: TreeState) -> TreePanelView {
    TreePanelView {
        key_context: KEY_CONTEXT@,
        title: "KNOWLEDGE TREE"@,
        count: decimal(node_count(state)),
        banner: banner_for(
            state.load,
            state.projection is Some,
            "Loading knowledge tree…"@,
            "retry-altere-knowledge-tree"@,
        ),
        list_id: ElementIdView { name: "altere-knowledge-tree-rows"@, place: None },
        list_role: Role::Tree,
        list_label: "Knowledge tree"@,
        empty_text: if node_count(state) == 0 && state.load is Ready {
            Some("The knowledge tree is empty."@)
        } else {
            None
        },
        row_count: if state.shown().len() > 0 {
            Some(state.shown().len() as usize)
        } else {
            None
        },
    }
}

/// What an action comes to: a change of the view, a path to open where a row is
/// selected, or nothing, where it is none of the panel's.
pub enum TreeEffect {
    Update(ViewUpdate),
    Open(Option<String>),
    Unhandled,
}

/// What an effect says.
pub enum TreeEffectView {
    Update(ViewUpdate),
    Open(Option<Seq<char>>),
    Unhandled,
}

impl View for TreeEffect {
    type V = TreeEffectView;

    open spec fn view(&self) -> TreeEffectView {
        match self {
            TreeEffect::Update(update) => TreeEffectView::Update(*update),
            TreeEffect::Open(path) => TreeEffectView::Open(owned_text(*path)),
            TreeEffect::Unhandled => TreeEffectView::Unhandled,
        }
    }
}

/// What an operation on the panel comes to as an effect.
pub open spec fn updating(outcome: (TreeState, ViewUpdate)) -> (TreeState, TreeEffectView) {
    (outcome.0, TreeEffectView::Update(outcome.1))
}

/// What an action does to the panel.
pub open spec fn acting(state: TreeState, action: Action) -> (TreeState, TreeEffectView) {
    match action {
        Action::SelectNext => updating(state.stepping(1)),
        Action::SelectPrevious => updating(state.stepping(-1)),
        Action::SelectFirst => updating(state.selecting(0)),
        Action::SelectLast => updating(state.selecting(state.shown().len() - 1)),
        Action::CollapseSelected => updating(state.collapsing_selected()),
        Action::ExpandSelected => updating(state.expanding_selected()),
        Action::OpenTreeItem => (state, TreeEffectView::Open(state.selected_path())),
        _ => (state, TreeEffectView::Unhandled),
    }
}

impl TreeRow {
    /// Whether a dragged row may be dropped here: any but the row itself.
    pub fn can_drop(&self, dragged: &DraggedHierarchyItem) -> (allowed: bool)
        ensures
            allowed == (dragged.id@ != self@.drop_target),
    {
        !same_text(dragged.id.as_str(), self.drop_target.as_str())
    }
}

impl AltereKnowledgeTreePanel {
    fn rows_in_tree(&self) -> (count: usize)
        ensures
            count == node_count(self@),
    {
        match &self.projection {
            Some(projection) => projection.rows.len(),
            None => 0,
        }
    }

    /// Shows the row at a place; there is none behind the last one.
    pub fn render_row(&self, visible_index: usize) -> (row: Option<TreeRow>)
        requires
            self.well_formed(),
            self@.row_at(visible_index as int) matches Some(row) ==> row.depth < usize::MAX,
        ensures
            row is Some == (self@.row_at(visible_index as int) is Some),
            row matches Some(row) ==> row@ == row_display(
                self@,
                self@.row_at(visible_index as int)->0,
                visible_index as int,
            ),
    {
        let row = match self.row_at(visible_index) {
            Some(row) => row,
            None => return None,
        };
        let level = row.depth + 1;
        let mut label = row.name.clone();
        label.append(" at hierarchy level ");
        label.append(decimal_text(level).as_str());
        let ending = match &row.parent_id {
            Some(parent) => {
                let mut ending = ", child of ".to_string();
                ending.append(parent.as_str());
                ending
            },
            None => String::new(),
        };
        label.append(ending.as_str());
        assert(label@ =~= spoken_label(row@));
        let disclosure = if row.has_children {
            Some(!self.collapsed_ids.contains(row.id.as_str()))
        } else {
            None
        };
        Some(
            TreeRow {
                drag_id: ElementId::numbered("altere-knowledge-tree-drag-row", visible_index),
                item_id: ElementId::numbered("altere-knowledge-tree-row", visible_index),
                height: ROW_HEIGHT,
                indent_level: level,
                indent_step: INDENT_STEP,
                disclosure,
                selected: visible_index == self.selected_index,
                role: Role::TreeItem,
                label,
                tooltip: row.path.clone(),
                file_icon: !row.has_children,
                text: row.name.clone(),
                dragged: DraggedHierarchyItem { id: row.id.clone(), name: row.name.clone() },
                drop_target: row.id.clone(),
            },
        )
    }

    /// The line about the panel's loading.
    pub fn render_load_state(&self) -> (banner: Option<LoadBanner>)
        ensures
            banner_view(banner) == panel_display(self@).banner,
    {
        load_banner(
            &self.load_state,
            self.projection.is_some(),
            "Loading knowledge tree…",
            "retry-altere-knowledge-tree",
        )
    }

    /// Shows the panel.
    pub fn render(&self) -> (panel: TreePanel)
        requires
            self.well_formed(),
        ensures
            panel@ == panel_display(self@),
    {
        let count = self.rows_in_tree();
        let ready = match self.load_state {
            LoadState::Ready => true,
            _ => false,
        };
        let shown = self.visible_indices.len();
        assert(shown == self@.shown().len());
        TreePanel {
            key_context: KEY_CONTEXT.to_string(),
            title: "KNOWLEDGE TREE".to_string(),
            count: decimal_text(count),
            banner: self.render_load_state(),
            list_id: ElementId::named("altere-knowledge-tree-rows"),
            list_role: Role::Tree,
            list_label: "Knowledge tree".to_string(),
            empty_text: if count == 0 && ready {
                Some("The knowledge tree is empty.".to_string())
            } else {
                None
            },
            row_count: if shown > 0 {
                Some(shown)
            } else {
                None
            },
        }
    }

    /// Carries out an action of the panel.
    pub fn on_action(&mut self, action: Action) -> (effect: TreeEffect)
        requires
            old(self).well_formed(),
        ensures
            final(self).well_formed(),
            (final(self)@, effect@) == acting(old(self)@, action),
    {
        match action {
            Action::SelectNext => TreeEffect::Update(self.select_next()),
            Action::SelectPrevious => TreeEffect::Update(self.select_previous()),
            Action::SelectFirst => TreeEffect::Update(self.select_first()),
            Action::SelectLast => TreeEffect::Update(self.select_last()),
            Action::CollapseSelected => TreeEffect::Update(self.collapse_selected()),
            Action::ExpandSelected => TreeEffect::Update(self.expand_selected()),
            Action::OpenTreeItem => TreeEffect::Open(self.open_selected()),
            _ => TreeEffect::Unhandled,
        }
    }

    /// A click on a row's disclosure: selects the place and toggles the row that
    /// was shown there.
    pub fn toggle_at(&mut self, visible_index: usize, id: &str) -> (updates: (
        ViewUpdate,
        ViewUpdate,
    ))
        requires
            old(self).well_formed(),
        ensures
            final(self).well_formed(),
            ({
                let (selected, update) = old(self)@.selecting(visible_index as int);
                updates.0 == update && (final(self)@, updates.1) == selected.toggling(id@)
            }),
    {
        let selected = self.select(visible_index);
        let toggled = self.toggle_row(id);
        (selected, toggled)
    }

    /// A click on a row: selects the place and opens the row that is selected
    /// then.
    pub fn click_at(&mut self, visible_index: usize) -> (outcome: (ViewUpdate, Option<String>))
        requires
            old(self).well_formed(),
        ensures
            final(self).well_formed(),
            (final(self)@, outcome.0) == old(self)@.selecting(visible_index as int),
            owned_text(outcome.1) == final(self)@.selected_path(),
    {
        let update = self.select(visible_index);
        (update, self.open_selected())
    }

    /// A row dropped on another: moves it there.
    pub fn drop_on(&mut self, dragged: DraggedHierarchyItem, target: String) -> (request: Option<
        MoveRequest,
    >)
        requires
            old(self).well_formed(),
        ensures
            final(self).well_formed(),
            request is Some == old(self)@.can_move(dragged.id@, Some(target@)),
            request is None ==> final(self)@ == old(self)@,
            request matches Some(request) ==> {
                &&& (final(self)@, request.update) == old(self)@.moving(
                    dragged.id@,
                    Some(target@),
                )
                &&& Some(request.previous@) == old(self)@.projection
                &&& request.source_id@ == dragged.id@
                &&& owned_text(request.parent_id) == Some(target@)
            },
    {
        self.set_parent(dragged.id, Some(target))
    }

    /// Where the panel is docked.
    pub fn position(&self) -> (position: DockPosition)
        ensures
            position == self@.position,
    {
        self.position
    }

    /// Whether the panel can be docked somewhere: anywhere.
    pub fn position_is_valid(&self, position: DockPosition) -> (valid: bool)
        ensures
            valid,
    {
        match position {
            DockPosition::Left | DockPosition::Bottom | DockPosition::Right => true,
        }
    }

    /// Docks the panel elsewhere; the text is to be stored.
    pub fn set_position(&mut self, position: DockPosition) -> (stored: String)
        requires
            old(self).well_formed(),
        ensures
            final(self).well_formed(),
            final(self)@ == (TreeState { position, ..old(self)@ }),
            stored@ == stored_position(position),
    {
        self.position = position;
        position_for_storage(position)
    }

    /// The number beside the panel's icon: of the rows in the tree.
    pub fn icon_label(&self) -> (label: Option<String>)
        ensures
            owned_text(label) == (match self@.projection {
                Some(projection) => Some(decimal(projection.rows.len())),
                None => None,
            }),
    {
        match &self.projection {
            Some(projection) => Some(decimal_text(projection.rows.len())),
            None => None,
        }
    }
}

/// A row is called by its name, its level counted from 1, and its parent where it has
/// one.
pub proof fn labels_say_name_level_and_parent(row: RowView)
    ensures
        row.parent_id is None ==> spoken_label(row) == row.name + " at hierarchy level "@ + decimal(
            row.depth + 1,
        ),
        row.parent_id matches Some(parent) ==> spoken_label(row) == row.name
            + " at hierarchy level "@ + decimal(row.depth + 1) + (", child of "@ + parent),
{
    if row.parent_id is None {
        assert(spoken_label(row) =~= row.name + " at hierarchy level "@ + decimal(row.depth + 1));
    }
}

/// A row shows with its own name, path and identity, one level deeper than it is; it can
/// be disclosed exactly where it has children, is disclosed exactly where it is not
/// collapsed, and has a file icon exactly where it has none. It is selected exactly where
/// its place is the selected one.
pub proof fn rows_show_what_they_are(state: TreeState, row: RowView, place: int)
    requires
        0 <= place <= usize::MAX,
        row.depth < usize::MAX,
    ensures
        ({
            let shown = row_display(state, row, place);
            &&& shown.drag_id.name == "altere-knowledge-tree-drag-row"@
            &&& shown.item_id.name == "altere-knowledge-tree-row"@
            &&& shown.drag_id.place is Some && shown.drag_id.place->0 == place
            &&& shown.item_id.place is Some && shown.item_id.place->0 == place
            &&& shown.height == 28
            &&& shown.indent_level == row.depth + 1
            &&& shown.indent_step == 16
            &&& shown.disclosure is Some <==> row.has_children
            &&& row.has_children ==> (shown.disclosure->0 <==> !state.collapsed.contains(row.id))
            &&& shown.selected <==> place == state.selected
            &&& shown.role is TreeItem
            &&& shown.label == spoken_label(row)
            &&& shown.tooltip == row.path
            &&& shown.file_icon <==> !row.has_children
            &&& shown.text == row.name
            &&& shown.dragged_id == row.id
            &&& shown.dragged_name == row.name
            &&& shown.drop_target == row.id
        }),
{
}

/// The panel counts every row of the tree, shown or hidden; it says that the tree is empty
/// only where that is known, and lists the rows that show.
pub proof fn panel_counts_every_row(state: TreeState)
    requires
        state.shown().len() <= usize::MAX,
    ensures
        ({
            let panel = panel_display(state);
            let rows = if state.projection is Some {
                state.projection->0.rows.len()
            } else {
                0
            };
            &&& node_count(state) == rows
            &&& panel.key_context == "AltereKnowledgeTree"@
            &&& panel.title == "KNOWLEDGE TREE"@
            &&& panel.count == decimal(rows)
            &&& panel.banner == banner_for(
                state.load,
                state.projection is Some,
                "Loading knowledge tree…"@,
                "retry-altere-knowledge-tree"@,
            )
            &&& panel.list_id.name == "altere-knowledge-tree-rows"@
            &&& panel.list_id.place is None
            &&& panel.list_role is Tree
            &&& panel.list_label == "Knowledge tree"@
            &&& rows == 0 && state.load is Ready ==> panel.empty_text == Some(
                "The knowledge tree is empty."@,
            )
            &&& !(rows == 0 && state.load is Ready) ==> panel.empty_text is None
            &&& panel.row_count is Some <==> state.shown().len() > 0
            &&& panel.row_count is Some ==> panel.row_count->0 == state.shown().len()
        }),
{
}

/// Each action of the panel does what it is named for, and every other action leaves the
/// panel as it is.
pub proof fn actions_do_what_they_are_named_for(state: TreeState, action: Action)
    ensures
        ({
            let (after, effect) = acting(state, action);
            let (next, next_update) = state.stepping(1);
            let (previous, previous_update) = state.stepping(-1);
            let (first, first_update) = state.selecting(0);
            let (last, last_update) = state.selecting(state.shown().len() - 1);
            let (collapsed, collapsed_update) = state.collapsing_selected();
            let (opened, opened_update) = state.expanding_selected();
            &&& action is SelectNext ==> after == next && effect == TreeEffectView::Update(
                next_update,
            )
            &&& action is SelectPrevious ==> after == previous && effect == TreeEffectView::Update(
                previous_update,
            )
            &&& action is SelectFirst ==> after == first && effect == TreeEffectView::Update(
                first_update,
            )
            &&& action is SelectLast ==> after == last && effect == TreeEffectView::Update(
                last_update,
            )
            &&& action is CollapseSelected ==> after == collapsed && effect
                == TreeEffectView::Update(collapsed_update)
            &&& action is ExpandSelected ==> after == opened && effect == TreeEffectView::Update(
                opened_update,
            )
            &&& action is OpenTreeItem ==> after == state && effect == TreeEffectView::Open(
                state.selected_path(),
            )
            &&& effect is Unhandled <==> !(action is SelectNext || action is SelectPrevious
                || action is SelectFirst || action is SelectLast || action is CollapseSelected
                || action is ExpandSelected || action is OpenTreeItem)
            &&& effect is Unhandled ==> after == state
        }),
{
}

/// A shown row, the shown panel and an effect say what they hold.
pub proof fn shown_parts_say_what_they_hold(row: TreeRow, panel: TreePanel, effect: TreeEffect)
    ensures
        row@ == (TreeRowView {
            drag_id: row.drag_id@,
            item_id: row.item_id@,
            height: row.height,
            indent_level: row.indent_level,
            indent_step: row.indent_step,
            disclosure: row.disclosure,
            selected: row.selected,
            role: row.role,
            label: row.label@,
            tooltip: row.tooltip@,
            file_icon: row.file_icon,
            text: row.text@,
            dragged_id: row.dragged.id@,
            dragged_name: row.dragged.name@,
            drop_target: row.drop_target@,
        }),
        panel@ == (TreePanelView {
            key_context: panel.key_context@,
            title: panel.title@,
            count: panel.count@,
            banner: banner_view(panel.banner),
            list_id: panel.list_id@,
            list_role: panel.list_role,
            list_label: panel.list_label@,
            empty_text: owned_text(panel.empty_text),
            row_count: panel.row_count,
        }),
        effect matches TreeEffect::Update(update) ==> effect@ == TreeEffectView::Update(update),
        effect matches TreeEffect::Open(path) ==> effect@ == TreeEffectView::Open(
            owned_text(path),
        ),
        effect is Unhandled <==> effect@ is Unhandled,
{
}

} // verus!
