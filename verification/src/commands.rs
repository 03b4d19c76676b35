//! What the actions of a workspace lead to.

use crate::keys::Action;
use crate::mode::{registrations, AltereMode, Registration};
use crate::next_button::AltereNextButton;
use crate::proposal_review::Outcome;
use vstd::prelude::*;

verus! {

/// The panels of the workbench.
#[derive(Clone, Copy, Debug, PartialEq, Eq, Structural)]
pub enum Panel {
    PriorityQueue,
    KnowledgeTree,
}

/// What a workspace does on an action.
#[derive(Clone, Copy, Debug, PartialEq, Eq, Structural)]
pub enum WorkspaceCommand {
    ToggleFocus(Panel),
    Resolve(Outcome),
    TogglePreviewTracking,
    FocusNextRepetition,
    NextBuffer,
}

/// What becomes of the proposal under review on an action.
pub open spec fn verdict(action: Action) -> Option<Outcome> {
    match action {
        Action::KeepProposal => Some(Outcome::Keep),
        Action::RejectProposal => Some(Outcome::Reject),
        _ => None,
    }
}

/// Tells which outcome an action leads to, if it is a verdict.
pub fn proposal_outcome(action: Action) -> (outcome: Option<Outcome>)
    ensures
        outcome == verdict(action),
{
    match action {
        Action::KeepProposal => Some(Outcome::Keep),
        Action::RejectProposal => Some(Outcome::Reject),
        _ => None,
    }
}

/// What an action leads to in a workspace that the mode has taken over. The other
/// actions are the panels' own, or the editor's.
pub open spec fn command_for(action: Action) -> Option<WorkspaceCommand> {
    match action {
        Action::ToggleQueueFocus => Some(WorkspaceCommand::ToggleFocus(Panel::PriorityQueue)),
        Action::ToggleTreeFocus => Some(WorkspaceCommand::ToggleFocus(Panel::KnowledgeTree)),
        Action::KeepProposal => Some(WorkspaceCommand::Resolve(Outcome::Keep)),
        Action::RejectProposal => Some(WorkspaceCommand::Resolve(Outcome::Reject)),
        Action::ToggleMarkdownPreviewTracking => Some(WorkspaceCommand::TogglePreviewTracking),
        Action::FocusNextRepetition => Some(WorkspaceCommand::FocusNextRepetition),
        Action::NextBuffer => Some(WorkspaceCommand::NextBuffer),
        _ => None,
    }
}

/// Tells what an action leads to in a workspace: nothing, where the mode is off.
pub fn workspace_command(mode: AltereMode, action: Action) -> (command: Option<WorkspaceCommand>)
    ensures
        command == if mode.is_on() {
            command_for(action)
        } else {
            None
        },
{
    if !mode.show_next_button() {
        return None;
    }
    if let Some(outcome) = proposal_outcome(action) {
        return Some(WorkspaceCommand::Resolve(outcome));
    }
    match action {
        Action::ToggleQueueFocus => Some(WorkspaceCommand::ToggleFocus(Panel::PriorityQueue)),
        Action::ToggleTreeFocus => Some(WorkspaceCommand::ToggleFocus(Panel::KnowledgeTree)),
        Action::ToggleMarkdownPreviewTracking => Some(WorkspaceCommand::TogglePreviewTracking),
        Action::FocusNextRepetition => Some(WorkspaceCommand::FocusNextRepetition),
        Action::NextBuffer => Some(WorkspaceCommand::NextBuffer),
        _ => None,
    }
}

/// Whether to focus the button for the next repetition: wherever it is in the
/// status bar. Nothing else comes of it.
pub fn focuses_button(button: Option<&AltereNextButton>) -> (focused: bool)
    ensures
        focused == (button is Some),
{
    button.is_some()
}

/// The part of the workspace that takes a command.
pub open spec fn taken_by(command: WorkspaceCommand) -> Registration {
    match command {
        WorkspaceCommand::ToggleFocus(Panel::PriorityQueue) => Registration::PriorityQueue,
        WorkspaceCommand::ToggleFocus(Panel::KnowledgeTree) => Registration::KnowledgeTree,
        WorkspaceCommand::Resolve(_) => Registration::ProposalReview,
        WorkspaceCommand::TogglePreviewTracking => Registration::MarkdownPreview,
        WorkspaceCommand::FocusNextRepetition => Registration::FocusNextRepetition,
        WorkspaceCommand::NextBuffer => Registration::NextBuffer,
    }
}

/// An action leads to something only where the mode has taken over what takes it.
pub proof fn commands_are_registered(mode: AltereMode, action: Action)
    requires
        mode.is_on(),
        command_for(action) is Some,
    ensures
        registrations(mode.is_on()).contains(taken_by(command_for(action)->0)),
{
    let taken = registrations(true);
    assert(taken[0] is PriorityQueue && taken[1] is KnowledgeTree && taken[2] is ProposalReview);
    assert(taken[5] is MarkdownPreview && taken[6] is FocusNextRepetition);
    assert(taken[7] is NextBuffer);
}

/// An action resolves a proposal exactly where it is a verdict, and then to that
/// outcome.
pub proof fn verdicts_resolve(action: Action, outcome: Outcome)
    ensures
        command_for(action) == Some(WorkspaceCommand::Resolve(outcome)) <==> verdict(action) == Some(
            outcome,
        ),
{
}

/// Each of the seven actions of a workspace leads to its own command, and every other
/// action to none.
pub proof fn actions_lead_to_their_commands(action: Action)
    ensures
        command_for(action) == Some(WorkspaceCommand::ToggleFocus(Panel::PriorityQueue))
            <==> action is ToggleQueueFocus,
        command_for(action) == Some(WorkspaceCommand::ToggleFocus(Panel::KnowledgeTree))
            <==> action is ToggleTreeFocus,
        command_for(action) == Some(WorkspaceCommand::Resolve(Outcome::Keep))
            <==> action is KeepProposal,
        command_for(action) == Some(WorkspaceCommand::Resolve(Outcome::Reject))
            <==> action is RejectProposal,
        command_for(action) == Some(WorkspaceCommand::TogglePreviewTracking)
            <==> action is ToggleMarkdownPreviewTracking,
        command_for(action) == Some(WorkspaceCommand::FocusNextRepetition)
            <==> action is FocusNextRepetition,
        command_for(action) == Some(WorkspaceCommand::NextBuffer) <==> action is NextBuffer,
        verdict(action) == Some(Outcome::Keep) <==> action is KeepProposal,
        verdict(action) == Some(Outcome::Reject) <==> action is RejectProposal,
{
}

} // verus!
