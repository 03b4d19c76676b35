//! The reading position of a collection: kept when its source is saved, and taken
//! up again when its source is opened.

use crate::markdown_preview::WorkspaceEvent;
use crate::paths::{components, join, joined, paths_match, same_path};
use crate::text::owned_text;
use vstd::prelude::*;
use vstd::string::*;

verus! {

/// The source of a collection, by its path in the collection.
pub const SOURCE_NAME: &'static str = "source.md";

/// An item that was saved or opened: whether it belongs to a project, its absolute
/// path where that can be told, and whether it acts as an editor.
pub struct WorkspaceItem {
    pub in_project: bool,
    pub path: Option<String>,
    pub acts_as_editor: bool,
}

/// What is to be done about an item: nothing, to record that its path could not be
/// told, or to deal with its reading position.
#[derive(Clone, Copy, Debug, PartialEq, Eq, Structural)]
pub enum Attention {
    Ignore,
    Unresolved,
    Position,
}

/// What is to be done about an item: its reading position is dealt with where it
/// is the source of the collection in an editor.
pub open spec fn attention(item: Option<WorkspaceItem>, source: Seq<char>) -> Attention {
    match item {
        Some(item) => if !item.in_project {
            Attention::Ignore
        } else {
            match owned_text(item.path) {
                None => Attention::Unresolved,
                Some(path) => if same_path(path, source) && item.acts_as_editor {
                    Attention::Position
                } else {
                    Attention::Ignore
                },
            }
        },
        None => Attention::Ignore,
    }
}

fn attend(item: Option<WorkspaceItem>, source: &str) -> (decision: Attention)
    ensures
        decision == attention(item, source@),
{
    match item {
        Some(item) => {
            if !item.in_project {
                return Attention::Ignore;
            }
            match item.path {
                Some(path) => if paths_match(path.as_str(), source) && item.acts_as_editor {
                    Attention::Position
                } else {
                    Attention::Ignore
                },
                None => Attention::Unresolved,
            }
        },
        None => Attention::Ignore,
    }
}

/// Whether an event asks to keep the reading position: a save by the user does, and
/// nothing else.
pub fn keeps_position(event: WorkspaceEvent) -> (kept: bool)
    ensures
        kept == (event is UserSavedItem),
{
    match event {
        WorkspaceEvent::UserSavedItem => true,
        _ => false,
    }
}

/// Whether an event asks to take up the reading position: an item that was added
/// does, and nothing else.
pub fn restores_position(event: WorkspaceEvent) -> (restored: bool)
    ensures
        restored == (event is ItemAdded),
{
    match event {
        WorkspaceEvent::ItemAdded => true,
        _ => false,
    }
}

/// Keeps the reading position of a collection when its source is saved.
pub struct WorkbenchLifecycle {
    source_path: String,
}

/// Takes up the reading position of a collection when its source is opened.
pub struct WorkbenchRestoreLifecycle {
    source_path: String,
}

/// Starts to keep the reading position of a collection.
pub fn install_workbench_lifecycle(collection_root: &str) -> (lifecycle: WorkbenchLifecycle)
    ensures
        lifecycle@ == joined(collection_root@, SOURCE_NAME@),
{
    WorkbenchLifecycle { source_path: join(collection_root, SOURCE_NAME) }
}

/// Starts to take up the reading position of a collection.
pub fn install_workbench_restore_lifecycle(collection_root: &str) -> (lifecycle:
    WorkbenchRestoreLifecycle)
    ensures
        lifecycle@ == joined(collection_root@, SOURCE_NAME@),
{
    WorkbenchRestoreLifecycle { source_path: join(collection_root, SOURCE_NAME) }
}

impl View for WorkbenchLifecycle {
    type V = Seq<char>;

    closed spec fn view(&self) -> Seq<char> {
        self.source_path@
    }
}

impl View for WorkbenchRestoreLifecycle {
    type V = Seq<char>;

    closed spec fn view(&self) -> Seq<char> {
        self.source_path@
    }
}

/// What is recorded where the path of a saved item cannot be told.
pub const SAVED_UNRESOLVED: &'static str =
    "Workbench could not resolve the saved item's project path";

/// What is recorded where the path of an opened item cannot be told.
pub const OPENED_UNRESOLVED: &'static str =
    "Workbench could not resolve the opened item's project path";

impl WorkbenchLifecycle {
    /// Takes an event with the item that it is about, where that is still there.
    pub fn on_event(&self, event: WorkspaceEvent, item: Option<WorkspaceItem>) -> (decision:
        Attention)
        ensures
            decision == if event is UserSavedItem {
                attention(item, self@)
            } else {
                Attention::Ignore
            },
    {
        if keeps_position(event) {
            self.saved(item)
        } else {
            Attention::Ignore
        }
    }

    /// Decides what is to be done about an item that its user saved, where it is
    /// still there: its reading position is kept, or nothing.
    pub fn saved(&self, item: Option<WorkspaceItem>) -> (decision: Attention)
        ensures
            decision == attention(item, self@),
    {
        attend(item, self.source_path.as_str())
    }

    /// What is recorded of an attempt to keep the reading position.
    pub fn kept(&self, result: Result<(), String>) -> (record: Option<String>)
        ensures
            owned_text(record) == match result {
                Ok(_) => None,
                Err(error) => Some(
                    "Workbench failed to persist the saved reading position: "@ + error@,
                ),
            },
    {
        match result {
            Ok(_) => None,
            Err(error) => {
                let mut record =
                    "Workbench failed to persist the saved reading position: ".to_string();
                record.append(error.as_str());
                Some(record)
            },
        }
    }
}

/// What follows from an attempt to resolve the reading position: to move the
/// cursor to an offset, to record a failure, or nothing.
pub enum Restoration {
    MoveCursor(usize),
    Record(String),
    Nothing,
}

/// What that says.
pub enum RestorationView {
    MoveCursor(usize),
    Record(Seq<char>),
    Nothing,
}

impl View for Restoration {
    type V = RestorationView;

    open spec fn view(&self) -> RestorationView {
        match self {
            Restoration::MoveCursor(offset) => RestorationView::MoveCursor(*offset),
            Restoration::Record(text) => RestorationView::Record(text@),
            Restoration::Nothing => RestorationView::Nothing,
        }
    }
}

impl WorkbenchRestoreLifecycle {
    /// Takes an event with the item that it is about.
    pub fn on_event(&self, event: WorkspaceEvent, item: WorkspaceItem) -> (decision: Attention)
        ensures
            decision == if event is ItemAdded {
                attention(Some(item), self@)
            } else {
                Attention::Ignore
            },
    {
        if restores_position(event) {
            self.added(item)
        } else {
            Attention::Ignore
        }
    }

    /// Decides what is to be done about an item that was added: its reading
    /// position is taken up, or nothing.
    pub fn added(&self, item: WorkspaceItem) -> (decision: Attention)
        ensures
            decision == attention(Some(item), self@),
    {
        attend(Some(item), self.source_path.as_str())
    }

    /// Takes the reading position that the collection resolves for the text of the
    /// source, if it has one.
    pub fn resolved(&self, result: Result<Option<usize>, String>) -> (restoration: Restoration)
        ensures
            restoration@ == match result {
                Ok(Some(offset)) => RestorationView::MoveCursor(offset),
                Ok(None) => RestorationView::Nothing,
                Err(error) => RestorationView::Record(
                    "Workbench failed to restore the reading position: "@ + error@,
                ),
            },
    {
        match result {
            Ok(Some(offset)) => Restoration::MoveCursor(offset),
            Ok(None) => Restoration::Nothing,
            Err(error) => {
                let mut record = "Workbench failed to restore the reading position: ".to_string();
                record.append(error.as_str());
                Restoration::Record(record)
            },
        }
    }
}

/// Saving and opening look at the same file: what is kept when a source is saved
/// is taken up when that source is opened.
pub proof fn saved_source_is_the_restored_source(
    collection_root: Seq<char>,
    item: WorkspaceItem,
    saved: WorkbenchLifecycle,
    restored: WorkbenchRestoreLifecycle,
)
    requires
        saved@ == joined(collection_root, SOURCE_NAME@),
        restored@ == joined(collection_root, SOURCE_NAME@),
    ensures
        attention(Some(item), saved@) == attention(Some(item), restored@),
{
}

/// The reading position is dealt with exactly for the source of the collection in an
/// editor of the project; a path that cannot be told is recorded for items of the project
/// only.
pub proof fn only_the_source_has_a_position(item: Option<WorkspaceItem>, source: Seq<char>)
    ensures
        attention(item, source) is Position <==> item is Some && item->0.in_project
            && item->0.acts_as_editor && item->0.path is Some && components(item->0.path->0@)
            == components(source),
        attention(item, source) is Unresolved <==> item is Some && item->0.in_project
            && item->0.path is None,
{
}

/// What follows from a reading position says what it holds.
pub proof fn restorations_say_what_they_hold(restoration: Restoration)
    ensures
        restoration matches Restoration::MoveCursor(offset) ==> restoration@
            == RestorationView::MoveCursor(offset),
        restoration matches Restoration::Record(text) ==> restoration@ == RestorationView::Record(
            text@,
        ),
        restoration is Nothing <==> restoration@ is Nothing,
{
}

} // verus!
