//! Where a panel is docked, and how that is remembered between sessions.

use crate::text::{borrowed_text, same_text};
use vstd::prelude::*;

verus! {

/// The sides of the window that take a panel.
#[derive(Clone, Copy, Debug, PartialEq, Eq, Structural)]
pub enum DockPosition {
    Left,
    Bottom,
    Right,
}

/// The text under which a position is stored.
pub open spec fn stored_position(position: DockPosition) -> Seq<char> {
    match position {
        DockPosition::Left => "left"@,
        DockPosition::Bottom => "bottom"@,
        DockPosition::Right => "right"@,
    }
}

/// The position that a stored text names.
pub open spec fn named_position(value: Seq<char>) -> Option<DockPosition> {
    if value == "left"@ {
        Some(DockPosition::Left)
    } else if value == "bottom"@ {
        Some(DockPosition::Bottom)
    } else if value == "right"@ {
        Some(DockPosition::Right)
    } else {
        None
    }
}

/// Reads a position back from storage; `None` where the text names none.
pub fn position_from_storage(value: &str) -> (position: Option<DockPosition>)
    ensures
        position == named_position(value@),
{
    if same_text(value, "left") {
        Some(DockPosition::Left)
    } else if same_text(value, "bottom") {
        Some(DockPosition::Bottom)
    } else if same_text(value, "right") {
        Some(DockPosition::Right)
    } else {
        None
    }
}

/// Writes a position for storage.
pub fn position_for_storage(position: DockPosition) -> (value: String)
    ensures
        value@ == stored_position(position),
{
    match position {
        DockPosition::Left => "left".to_string(),
        DockPosition::Bottom => "bottom".to_string(),
        DockPosition::Right => "right".to_string(),
    }
}

/// The position that a panel starts in: the stored one where it names a
/// position, else the panel's own default.
pub open spec fn initial_position(
    stored: Option<Seq<char>>,
    default: DockPosition,
) -> DockPosition {
    match stored {
        Some(value) => match named_position(value) {
            Some(position) => position,
            None => default,
        },
        None => default,
    }
}

/// Picks the position that a panel starts in.
pub fn starting_position(stored: Option<&str>, default: DockPosition) -> (position: DockPosition)
    ensures
        position == initial_position(borrowed_text(stored), default),
{
    match stored {
        Some(value) => match position_from_storage(value) {
            Some(position) => position,
            None => default,
        },
        None => default,
    }
}

/// What is written for a position is read back as that position.
pub proof fn stored_position_is_read_back(position: DockPosition)
    ensures
        named_position(stored_position(position)) == Some(position),
{
    reveal_strlit("left");
    reveal_strlit("bottom");
    reveal_strlit("right");
    assert("left"@.len() == 4 && "bottom"@.len() == 6 && "right"@.len() == 5);
}

/// A text that names a position is the one that is written for it.
pub proof fn named_position_is_written_back(value: Seq<char>)
    requires
        named_position(value) is Some,
    ensures
        stored_position(named_position(value)->0) == value,
{
}

/// The three positions are stored under their names, in lower case, and no other text
/// names a position.
pub proof fn positions_are_stored_by_name(position: DockPosition, value: Seq<char>)
    ensures
        position is Left ==> stored_position(position) == "left"@,
        position is Bottom ==> stored_position(position) == "bottom"@,
        position is Right ==> stored_position(position) == "right"@,
        named_position(value) is Some <==> value == "left"@ || value == "bottom"@ || value
            == "right"@,
{
}

/// A panel starts where it was stored, whatever its default is, and at its default where
/// nothing, or nothing that names a position, was stored.
pub proof fn panels_start_where_they_were(
    position: DockPosition,
    value: Seq<char>,
    default: DockPosition,
)
    ensures
        initial_position(Some(stored_position(position)), default) == position,
        initial_position(None, default) == default,
        value != "left"@ && value != "bottom"@ && value != "right"@ ==> initial_position(
            Some(value),
            default,
        ) == default,
{
    stored_position_is_read_back(position);
}

} // verus!
