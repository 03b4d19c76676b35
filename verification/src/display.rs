//! What panels share: the state of their loading and what a change asks of the
//! view.

use vstd::prelude::*;
use vstd::string::*;

verus! {

/// Whether a panel waits for its projection, shows it, or could not get it.
pub enum LoadState {
    Loading,
    Ready,
    Error(String),
}

/// What a load state says.
pub enum LoadView {
    Loading,
    Ready,
    Error(Seq<char>),
}

impl View for LoadState {
    type V = LoadView;

    open spec fn view(&self) -> LoadView {
        match self {
            LoadState::Loading => LoadView::Loading,
            LoadState::Ready => LoadView::Ready,
            LoadState::Error(message) => LoadView::Error(message@),
        }
    }
}

impl LoadState {
    /// The state of a panel whose projection could not be had.
    pub fn error(message: String) -> (state: LoadState)
        ensures
            state@ == LoadView::Error(message@),
    {
        LoadState::Error(message)
    }
}

/// What a change asks of a panel's view, in this order: to lay the list out anew
/// for a number of rows, to scroll a row into sight, to take the focus and to
/// paint.
#[derive(Clone, Copy, Debug, PartialEq, Eq)]
pub struct ViewUpdate {
    pub reset_rows: Option<usize>,
    pub reveal_row: Option<usize>,
    pub focus_panel: bool,
    pub repaint: bool,
}

/// Nothing to do.
pub open spec fn no_update() -> ViewUpdate {
    ViewUpdate { reset_rows: None, reveal_row: None, focus_panel: false, repaint: false }
}

/// To paint, and nothing else.
pub open spec fn repaint_only() -> ViewUpdate {
    ViewUpdate { reset_rows: None, reveal_row: None, focus_panel: false, repaint: true }
}

impl ViewUpdate {
    /// An update that asks for nothing.
    pub fn none() -> (update: ViewUpdate)
        ensures
            update == no_update(),
    {
        ViewUpdate { reset_rows: None, reveal_row: None, focus_panel: false, repaint: false }
    }

    /// An update that asks to paint.
    pub fn paint() -> (update: ViewUpdate)
        ensures
            update == repaint_only(),
    {
        ViewUpdate { reset_rows: None, reveal_row: None, focus_panel: false, repaint: true }
    }
}

/// What an element is to assistive technology.
#[derive(Clone, Copy, Debug, PartialEq, Eq, Structural)]
pub enum Role {
    Tree,
    TreeItem,
    List,
    ListItem,
}

/// How strongly a text stands out.
#[derive(Clone, Copy, Debug, PartialEq, Eq, Structural)]
pub enum Tone {
    Plain,
    Muted,
    Accent,
}

/// A text in a line, in a column of a fixed width in pixels or in what is left.
pub struct Cell {
    pub width: Option<usize>,
    pub tone: Tone,
    pub text: String,
}

/// What a cell says.
pub struct CellView {
    pub width: Option<usize>,
    pub tone: Tone,
    pub text: Seq<char>,
}

impl View for Cell {
    type V = CellView;

    open spec fn view(&self) -> CellView {
        CellView { width: self.width, tone: self.tone, text: self.text@ }
    }
}

/// What a sequence of cells says.
pub open spec fn cell_views(cells: Seq<Cell>) -> Seq<CellView> {
    cells.map_values(|cell: Cell| cell@)
}

/// What an element is told apart by: a name, and its place where it is one of
/// many.
#[derive(Debug, PartialEq, Eq)]
pub struct ElementId {
    pub name: String,
    pub place: Option<usize>,
}

/// What an element's identity says.
pub struct ElementIdView {
    pub name: Seq<char>,
    pub place: Option<usize>,
}

impl View for ElementId {
    type V = ElementIdView;

    open spec fn view(&self) -> ElementIdView {
        ElementIdView { name: self.name@, place: self.place }
    }
}

impl ElementId {
    /// The identity of one of many elements.
    pub fn numbered(name: &str, place: usize) -> (id: ElementId)
        ensures
            id@ == (ElementIdView { name: name@, place: Some(place) }),
    {
        ElementId { name: name.to_string(), place: Some(place) }
    }

    /// The identity of a single element.
    pub fn named(name: &str) -> (id: ElementId)
        ensures
            id@ == (ElementIdView { name: name@, place: None }),
    {
        ElementId { name: name.to_string(), place: None }
    }
}

/// The line that a panel shows about its loading: that it loads for the first
/// time, that it loads again, or why it could not load, with a button to retry.
pub enum LoadBanner {
    Loading(String),
    Refreshing(String),
    Failed { message: String, retry_id: String, retry_label: String },
}

/// What such a line says.
pub enum BannerView {
    Loading(Seq<char>),
    Refreshing(Seq<char>),
    Failed { message: Seq<char>, retry_id: Seq<char>, retry_label: Seq<char> },
}

impl View for LoadBanner {
    type V = BannerView;

    open spec fn view(&self) -> BannerView {
        match self {
            LoadBanner::Loading(text) => BannerView::Loading(text@),
            LoadBanner::Refreshing(text) => BannerView::Refreshing(text@),
            LoadBanner::Failed { message, retry_id, retry_label } => BannerView::Failed {
                message: message@,
                retry_id: retry_id@,
                retry_label: retry_label@,
            },
        }
    }
}

/// What an optional line says.
pub open spec fn banner_view(banner: Option<LoadBanner>) -> Option<BannerView> {
    match banner {
        Some(banner) => Some(banner@),
        None => None,
    }
}

/// The line for a load state, given whether a projection is there already.
pub open spec fn banner_for(
    state: LoadView,
    loaded_before: bool,
    loading: Seq<char>,
    retry_id: Seq<char>,
) -> Option<BannerView> {
    match state {
        LoadView::Loading => if loaded_before {
            Some(BannerView::Refreshing("Refreshing…"@))
        } else {
            Some(BannerView::Loading(loading))
        },
        LoadView::Error(message) => Some(
            BannerView::Failed { message, retry_id, retry_label: "Retry"@ },
        ),
        LoadView::Ready => None,
    }
}

/// Writes the line for a load state.
pub(crate) fn load_banner(
    state: &LoadState,
    loaded_before: bool,
    loading: &str,
    retry_id: &str,
) -> (banner: Option<LoadBanner>)
    ensures
        banner_view(banner) == banner_for(state@, loaded_before, loading@, retry_id@),
{
    match state {
        LoadState::Loading => {
            if loaded_before {
                Some(LoadBanner::Refreshing("Refreshing…".to_string()))
            } else {
                Some(LoadBanner::Loading(loading.to_string()))
            }
        },
        LoadState::Error(message) => Some(
            LoadBanner::Failed {
                message: message.clone(),
                retry_id: retry_id.to_string(),
                retry_label: "Retry".to_string(),
            },
        ),
        LoadState::Ready => None,
    }
}

/// A panel that loads says so, in other words the first time than later; one that failed
/// says why and offers to retry; one that is ready says nothing.
pub proof fn banners_follow_the_load_state(
    loaded_before: bool,
    loading: Seq<char>,
    retry_id: Seq<char>,
    message: Seq<char>,
)
    ensures
        banner_for(LoadView::Ready, loaded_before, loading, retry_id) is None,
        banner_for(LoadView::Loading, false, loading, retry_id) == Some(
            BannerView::Loading(loading),
        ),
        banner_for(LoadView::Loading, true, loading, retry_id) == Some(
            BannerView::Refreshing("Refreshing…"@),
        ),
        banner_for(LoadView::Error(message), loaded_before, loading, retry_id) == Some(
            BannerView::Failed { message, retry_id, retry_label: "Retry"@ },
        ),
{
}

/// The smallest updates: one asks for nothing, the other to paint and for nothing more.
pub proof fn smallest_updates()
    ensures
        no_update().reset_rows is None,
        no_update().reveal_row is None,
        !no_update().focus_panel,
        !no_update().repaint,
        repaint_only().reset_rows is None,
        repaint_only().reveal_row is None,
        !repaint_only().focus_panel,
        repaint_only().repaint,
{
}

/// A load state, a cell and an identity say what they hold.
pub proof fn parts_say_what_they_hold(state: LoadState, cell: Cell, id: ElementId)
    ensures
        state is Loading <==> state@ is Loading,
        state is Ready <==> state@ is Ready,
        state matches LoadState::Error(message) ==> state@ == LoadView::Error(message@),
        cell@.width == cell.width,
        cell@.tone == cell.tone,
        cell@.text == cell.text@,
        id@.name == id.name@,
        id@.place == id.place,
{
}

/// A line about the loading says what it holds.
pub proof fn banners_say_what_they_hold(banner: LoadBanner)
    ensures
        banner_view(None) is None,
        banner_view(Some(banner)) == Some(banner@),
        banner matches LoadBanner::Loading(text) ==> banner@ == BannerView::Loading(text@),
        banner matches LoadBanner::Refreshing(text) ==> banner@ == BannerView::Refreshing(text@),
        banner matches LoadBanner::Failed { message, retry_id, retry_label } ==> banner@ == (
        BannerView::Failed {
            message: message@,
            retry_id: retry_id@,
            retry_label: retry_label@,
        }),
{
}

} // verus!
