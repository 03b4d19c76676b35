use altere_workbench::commands::{
    focuses_button, proposal_outcome, workspace_command, Panel, WorkspaceCommand,
};
use altere_workbench::extension::language_server_command;
use altere_workbench::hierarchy::IdSet;
use altere_workbench::keys::{key_bindings, Action};
use altere_workbench::mode::{apply_capability_policy, register_actions, AltereMode, Registration};
use altere_workbench::next_button::next_button;
use altere_workbench::proposal_review::Outcome;
use altere_workbench::workbench::{EditorAction, ModeTracker, WorkbenchMode};

#[test]
fn altere_mode_is_reversible() {
    let upstream = AltereMode::from_value(None);
    assert!(!upstream.show_next_button());
    assert!(upstream.show_debugger());
    assert!(upstream.show_terminal());
    assert!(upstream.show_collaboration());
    assert!(upstream.show_edit_prediction());
    assert!(!upstream.keep_markdown_preview_open());
    assert!(upstream.hidden_command_namespaces().is_empty());

    let altere = AltereMode::from_value(Some("1"));
    assert!(altere.show_next_button());
    assert!(altere.show_priority_queue());
    assert!(!altere.show_debugger());
    assert!(!altere.show_terminal());
    assert!(!altere.show_collaboration());
    assert!(!altere.show_edit_prediction());
    assert!(altere.keep_markdown_preview_open());
    assert_eq!(
        altere.hidden_command_namespaces(),
        &["terminal_panel", "terminal"]
    );
}

#[test]
fn mode_is_reversible() {
    let upstream = AltereMode::from_value(None);
    assert!(!upstream.show_next_button());
    assert!(upstream.show_debugger());

    let altere = AltereMode::from_value(Some("1"));
    assert!(altere.show_next_button());
    assert!(!altere.show_debugger());
}

#[test]
fn only_the_setting_one_turns_the_mode_on() {
    for value in ["", "0", "11", "true", " 1"] {
        let mode = AltereMode::from_value(Some(value));
        assert!(!mode.show_knowledge_tree());
        assert!(register_actions(mode).is_empty());
        assert!(key_bindings(mode).is_empty());
    }
    assert_eq!(
        register_actions(AltereMode::from_value(Some("1"))),
        vec![
            Registration::PriorityQueue,
            Registration::KnowledgeTree,
            Registration::ProposalReview,
            Registration::DocumentDepartures,
            Registration::GuidedAttention,
            Registration::MarkdownPreview,
            Registration::FocusNextRepetition,
            Registration::NextBuffer,
        ]
    );
}

#[test]
fn the_policy_hides_the_terminal_beside_what_is_hidden() {
    let mut hidden = IdSet::new();
    hidden.insert("debugger".to_string());
    apply_capability_policy(AltereMode::from_value(None), &mut hidden);
    assert!(!hidden.contains("terminal"));

    apply_capability_policy(AltereMode::from_value(Some("1")), &mut hidden);
    assert!(hidden.contains("terminal"));
    assert!(hidden.contains("terminal_panel"));
    assert!(hidden.contains("debugger"));
    assert!(!hidden.contains("editor"));
}

#[test]
fn keys_are_bound_in_order() {
    let bindings = key_bindings(AltereMode::from_value(Some("1")));
    assert_eq!(bindings.len(), 4 + 12 + 11);
    let bound = |index: usize| {
        let binding = &bindings[index];
        (binding.keys.as_str(), binding.action, binding.context.as_deref())
    };

    assert_eq!(bound(0), ("ctrl-`", Action::UnbindTerminalToggle, None));
    assert_eq!(
        bound(1),
        (
            "escape",
            Action::FocusNextRepetition,
            Some("Editor && vim_mode == normal && !menu")
        )
    );
    assert_eq!(
        bound(2),
        ("escape", Action::FocusNextRepetition, Some("Workspace && !Editor && !menu"))
    );
    assert_eq!(bound(3), ("enter", Action::NextBuffer, Some("AltereNextRepetition")));
    assert_eq!(bound(4), ("j", Action::SelectNext, Some("AlterePriorityQueue")));
    assert_eq!(bound(15), ("-", Action::LessImportant, Some("AlterePriorityQueue")));
    assert_eq!(bound(16), ("j", Action::SelectNext, Some("AltereKnowledgeTree")));
    assert_eq!(bound(26), ("enter", Action::OpenTreeItem, Some("AltereKnowledgeTree")));
}

#[test]
fn the_mode_follows_the_editor() {
    let mut tracker = ModeTracker::launch();
    assert_eq!(tracker.active_mode(), WorkbenchMode::Normal);
    tracker.on_action(EditorAction::SwitchToInsertMode);
    tracker.on_action(EditorAction::Other);
    assert_eq!(tracker.active_mode(), WorkbenchMode::Insert);
    tracker.on_action(EditorAction::SwitchToNormalMode);
    assert_eq!(tracker.active_mode(), WorkbenchMode::Normal);
}

#[test]
fn the_language_server_is_started_where_it_is_found() {
    let command = language_server_command(Some("/usr/bin/altere-language-server".into())).unwrap_or_else(|_| panic!("found"));
    assert_eq!(command.command, "/usr/bin/altere-language-server");
    assert_eq!(command.arguments, ["--stdio"]);
    assert_eq!(
        language_server_command(None).err().as_deref(),
        Some("'altere-language-server' is not available in the Workbench PATH")
    );
}

#[test]
fn actions_lead_to_what_is_registered() {
    let on = AltereMode::from_value(Some("1"));
    for (action, command) in [
        (Action::ToggleQueueFocus, Some(WorkspaceCommand::ToggleFocus(Panel::PriorityQueue))),
        (Action::ToggleTreeFocus, Some(WorkspaceCommand::ToggleFocus(Panel::KnowledgeTree))),
        (Action::KeepProposal, Some(WorkspaceCommand::Resolve(Outcome::Keep))),
        (Action::RejectProposal, Some(WorkspaceCommand::Resolve(Outcome::Reject))),
        (
            Action::ToggleMarkdownPreviewTracking,
            Some(WorkspaceCommand::TogglePreviewTracking),
        ),
        (Action::FocusNextRepetition, Some(WorkspaceCommand::FocusNextRepetition)),
        (Action::NextBuffer, Some(WorkspaceCommand::NextBuffer)),
        (Action::SelectNext, None),
        (Action::UnbindTerminalToggle, None),
    ] {
        assert_eq!(workspace_command(on, action), command);
        assert_eq!(workspace_command(AltereMode::from_value(None), action), None);
    }
    assert_eq!(proposal_outcome(Action::KeepProposal), Some(Outcome::Keep));
    assert_eq!(proposal_outcome(Action::RejectProposal), Some(Outcome::Reject));
    assert_eq!(proposal_outcome(Action::NextBuffer), None);
    assert!(focuses_button(Some(&next_button())));
    assert!(!focuses_button(None));
}
