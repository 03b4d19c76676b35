//! The permanent button of the rotation: it asks for the next repetition, or for a
//! verdict where a proposal is under review.

use crate::button::{button_views, plain_button, Button, ButtonView};
use crate::keys::Action;
use crate::proposal_review::{reviewed, ProposalReviewRegistry};
use vstd::prelude::*;
use vstd::string::*;

verus! {

/// The label of the button for the next repetition.
pub const NEXT_REPETITION_LABEL: &'static str = "NEXT REPETITION";

/// The width of the button for the next repetition, in pixels.
pub const NEXT_REPETITION_WIDTH: usize = 240;

/// The width of the button that keeps a proposal, in pixels.
pub const KEEP_WIDTH: usize = 128;

/// The button, or the two buttons in its place while a proposal is reviewed.
pub struct AltereNextButton {
    reviewing_proposal: bool,
}

/// The button as it shows: the context of its keys, and one button or two.
pub struct NextButtonElement {
    pub key_context: String,
    pub buttons: Vec<Button>,
}

/// A large button that stands out and holds the focus.
pub open spec fn primary_button(
    id: Seq<char>,
    label: Seq<char>,
    width: usize,
    focused: bool,
    action: Action,
    shows_keys: bool,
) -> ButtonView {
    ButtonView {
        id,
        label,
        width: Some(width),
        accented: true,
        tracks_focus: true,
        toggled: focused,
        action,
        shows_keys,
    }
}

/// The context of the keys.
pub open spec fn key_context(reviewing: bool) -> Seq<char> {
    if reviewing {
        "AltereProposalReview"@
    } else {
        "AltereNextRepetition"@
    }
}

/// The buttons that show.
pub open spec fn shown_buttons(reviewing: bool, focused: bool) -> Seq<ButtonView> {
    if reviewing {
        seq![
            plain_button("altere-reject-proposal"@, "REJECT"@, Action::RejectProposal),
            primary_button(
                "altere-keep-proposal"@,
                "KEEP"@,
                KEEP_WIDTH,
                focused,
                Action::KeepProposal,
                false,
            ),
        ]
    } else {
        seq![
            primary_button(
                "altere-next-buffer"@,
                NEXT_REPETITION_LABEL@,
                NEXT_REPETITION_WIDTH,
                focused,
                Action::NextBuffer,
                true,
            ),
        ]
    }
}

fn primary(
    id: &str,
    label: &str,
    width: usize,
    focused: bool,
    action: Action,
    shows_keys: bool,
) -> (button: Button)
    ensures
        button@ == primary_button(id@, label@, width, focused, action, shows_keys),
{
    Button {
        id: id.to_string(),
        label: label.to_string(),
        width: Some(width),
        accented: true,
        tracks_focus: true,
        toggled: focused,
        action,
        shows_keys,
    }
}

impl AltereNextButton {
    /// Whether a proposal is reviewed.
    pub closed spec fn reviewing(&self) -> bool {
        self.reviewing_proposal
    }

    /// Changes between the rotation and a review; tells whether anything changed.
    pub fn set_reviewing_proposal(&mut self, reviewing_proposal: bool) -> (changed: bool)
        ensures
            final(self).reviewing() == reviewing_proposal,
            changed == (old(self).reviewing() != reviewing_proposal),
    {
        if self.reviewing_proposal != reviewing_proposal {
            self.reviewing_proposal = reviewing_proposal;
            true
        } else {
            false
        }
    }

    /// Whether a proposal is reviewed.
    pub fn is_reviewing_proposal(&self) -> (reviewing: bool)
        ensures
            reviewing == self.reviewing(),
    {
        self.reviewing_proposal
    }

    /// Follows the active item, given the comparison of texts that it is, if it is
    /// one; tells whether anything changed.
    pub fn set_active_pane_item(
        &mut self,
        active: Option<u64>,
        registry: &ProposalReviewRegistry,
    ) -> (changed: bool)
        ensures
            final(self).reviewing() == (reviewed(registry@, active) is Some),
            changed == (old(self).reviewing() != final(self).reviewing()),
    {
        self.set_reviewing_proposal(registry.is_proposal_review(active))
    }

    /// Shows the button.
    pub fn render(&self, focused: bool) -> (element: NextButtonElement)
        ensures
            element.key_context@ == key_context(self.reviewing()),
            button_views(element.buttons@) == shown_buttons(self.reviewing(), focused),
    {
        let mut buttons: Vec<Button> = Vec::new();
        if self.reviewing_proposal {
            buttons.push(
                Button::plain("altere-reject-proposal", "REJECT", Action::RejectProposal),
            );
            buttons.push(
                primary(
                    "altere-keep-proposal",
                    "KEEP",
                    KEEP_WIDTH,
                    focused,
                    Action::KeepProposal,
                    false,
                ),
            );
        } else {
            buttons.push(
                primary(
                    "altere-next-buffer",
                    NEXT_REPETITION_LABEL,
                    NEXT_REPETITION_WIDTH,
                    focused,
                    Action::NextBuffer,
                    true,
                ),
            );
        }
        assert(button_views(buttons@) =~= shown_buttons(self.reviewing(), focused));
        let key_context = if self.reviewing_proposal {
            "AltereProposalReview".to_string()
        } else {
            "AltereNextRepetition".to_string()
        };
        NextButtonElement { key_context, buttons }
    }
}

/// The button as it is at first, for the rotation.
pub fn next_button() -> (button: AltereNextButton)
    ensures
        !button.reviewing(),
{
    AltereNextButton { reviewing_proposal: false }
}

/// Outside a review there is one button, for the next repetition; in a review there are
/// two, of which the first rejects and the second keeps. The last button always stands
/// out, holds the focus, and is toggled exactly where it is focused.
pub proof fn buttons_follow_the_review(reviewing: bool, focused: bool)
    ensures
        ({
            let buttons = shown_buttons(reviewing, focused);
            &&& buttons.len() == if reviewing {
                2int
            } else {
                1int
            }
            &&& buttons.last().accented
            &&& buttons.last().tracks_focus
            &&& buttons.last().toggled == focused
            &&& buttons.last().shows_keys == !reviewing
            &&& !reviewing ==> buttons[0].action == Action::NextBuffer && buttons[0].label
                == "NEXT REPETITION"@ && buttons[0].id == "altere-next-buffer"@
                && buttons[0].width == Some(240usize)
            &&& reviewing ==> {
                &&& buttons[0].action == Action::RejectProposal
                &&& buttons[0].label == "REJECT"@
                &&& buttons[0].id == "altere-reject-proposal"@
                &&& buttons[0].width is None
                &&& !buttons[0].accented
                &&& !buttons[0].tracks_focus
                &&& !buttons[0].toggled
                &&& !buttons[0].shows_keys
                &&& buttons[1].action == Action::KeepProposal
                &&& buttons[1].label == "KEEP"@
                &&& buttons[1].id == "altere-keep-proposal"@
                &&& buttons[1].width == Some(128usize)
            }
        }),
        key_context(true) == "AltereProposalReview"@,
        key_context(false) == "AltereNextRepetition"@,
{
}

} // verus!
