//! Buttons as they show, and the action that a click on one dispatches.

use crate::keys::Action;
use vstd::prelude::*;
use vstd::string::*;

verus! {

/// A button: its identity and label, its width in pixels where it is fixed,
/// whether it stands out, holds the focus of its group and is toggled, the action
/// that a click dispatches and whether the keys for that action are shown.
pub struct Button {
    pub id: String,
    pub label: String,
    pub width: Option<usize>,
    pub accented: bool,
    pub tracks_focus: bool,
    pub toggled: bool,
    pub action: Action,
    pub shows_keys: bool,
}

/// What a button says.
pub struct ButtonView {
    pub id: Seq<char>,
    pub label: Seq<char>,
    pub width: Option<usize>,
    pub accented: bool,
    pub tracks_focus: bool,
    pub toggled: bool,
    pub action: Action,
    pub shows_keys: bool,
}

impl View for Button {
    type V = ButtonView;

    open spec fn view(&self) -> ButtonView {
        ButtonView {
            id: self.id@,
            label: self.label@,
            width: self.width,
            accented: self.accented,
            tracks_focus: self.tracks_focus,
            toggled: self.toggled,
            action: self.action,
            shows_keys: self.shows_keys,
        }
    }
}

/// What a sequence of buttons says.
pub open spec fn button_views(buttons: Seq<Button>) -> Seq<ButtonView> {
    buttons.map_values(|button: Button| button@)
}

/// A button that does not stand out.
pub open spec fn plain_button(id: Seq<char>, label: Seq<char>, action: Action) -> ButtonView {
    ButtonView {
        id,
        label,
        width: None,
        accented: false,
        tracks_focus: false,
        toggled: false,
        action,
        shows_keys: false,
    }
}

impl Button {
    /// A button that does not stand out.
    pub fn plain(id: &str, label: &str, action: Action) -> (button: Button)
        ensures
            button@ == plain_button(id@, label@, action),
    {
        Button {
            id: id.to_string(),
            label: label.to_string(),
            width: None,
            accented: false,
            tracks_focus: false,
            toggled: false,
            action,
            shows_keys: false,
        }
    }
}

/// A plain button has the identity, label and action that it is given, and nothing that
/// makes it stand out; a button says what it holds.
pub proof fn plain_buttons_do_not_stand_out(
    id: Seq<char>,
    label: Seq<char>,
    action: Action,
    button: Button,
    buttons: Seq<Button>,
)
    ensures
        plain_button(id, label, action).id == id,
        plain_button(id, label, action).label == label,
        plain_button(id, label, action).action == action,
        plain_button(id, label, action).width is None,
        !plain_button(id, label, action).accented,
        !plain_button(id, label, action).tracks_focus,
        !plain_button(id, label, action).toggled,
        !plain_button(id, label, action).shows_keys,
        button@.id == button.id@,
        button@.label == button.label@,
        button@.width == button.width,
        button@.accented == button.accented,
        button@.tracks_focus == button.tracks_focus,
        button@.toggled == button.toggled,
        button@.action == button.action,
        button@.shows_keys == button.shows_keys,
        button_views(buttons).len() == buttons.len(),
        forall|i: int| 0 <= i < buttons.len() ==> #[trigger] button_views(buttons)[i] == buttons[i]@,
{
}

} // verus!
