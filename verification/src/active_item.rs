//! The item that is active in a workspace, as far as the workbench looks at it.

use crate::paths::{has_markdown_extension, is_markdown};
use crate::text::owned_text;
use vstd::prelude::*;
use vstd::string::*;

verus! {

/// An item: the absolute path of its file where it has one, whether it is an
/// editor and whether it acts as one.
pub struct ActiveItem {
    pub path: Option<String>,
    pub is_editor: bool,
    pub acts_as_editor: bool,
}

/// The path of an item that is an editor.
pub open spec fn editor_path(item: Option<ActiveItem>) -> Option<Seq<char>> {
    match item {
        Some(item) => if item.is_editor {
            owned_text(item.path)
        } else {
            None
        },
        None => None,
    }
}

/// The path of an item that acts as an editor of a Markdown file.
pub open spec fn document_path(item: Option<ActiveItem>) -> Option<Seq<char>> {
    match item {
        Some(item) => match owned_text(item.path) {
            Some(path) => if item.acts_as_editor && is_markdown(path) {
                Some(path)
            } else {
                None
            },
            None => None,
        },
        None => None,
    }
}

/// Finds the path that is being edited.
pub fn active_editor_path(item: Option<ActiveItem>) -> (path: Option<String>)
    ensures
        owned_text(path) == editor_path(item),
{
    match item {
        Some(item) => if item.is_editor {
            item.path
        } else {
            None
        },
        None => None,
    }
}

/// Finds the Markdown document that is being edited.
pub fn active_document(item: Option<ActiveItem>) -> (path: Option<String>)
    ensures
        owned_text(path) == document_path(item),
{
    match item {
        Some(item) => match item.path {
            Some(path) => if item.acts_as_editor && has_markdown_extension(path.as_str()) {
                Some(path)
            } else {
                None
            },
            None => None,
        },
        None => None,
    }
}

/// A path is being edited exactly where an item that is an editor has it; a document is,
/// where an item that acts as an editor has a Markdown path.
pub proof fn edited_paths_are_those_of_editors(item: Option<ActiveItem>)
    ensures
        editor_path(item) is Some <==> item is Some && item->0.is_editor && item->0.path is Some,
        editor_path(item) is Some ==> editor_path(item)->0 == item->0.path->0@,
        document_path(item) is Some <==> item is Some && item->0.acts_as_editor
            && item->0.path is Some && is_markdown(item->0.path->0@),
        document_path(item) is Some ==> document_path(item)->0 == item->0.path->0@,
{
}

} // verus!
