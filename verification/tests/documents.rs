use agent_client_protocol::v1::schema::ContentBlock;
use altere_workbench::active_item::ActiveItem;
use altere_workbench::departure::{
    depart_document, dispatch_departed_document, AgentThreadSource, DepartedDocumentAgentRequest, Departure,
    DepartureAction, DepartureEvent, DepartureObserver, AnnotationDepartureRequest,
};
use altere_workbench::invocation::{
    annotation_acknowledgement_invocation, annotation_departure_invocation, proposal_invocation,
    proposal_resolution_invocation,
};
use altere_workbench::keys::Action;
use altere_workbench::lifecycle::{
    install_workbench_lifecycle, install_workbench_restore_lifecycle, keeps_position,
    restores_position, Attention, Restoration, WorkspaceItem,
};
use altere_workbench::markdown_preview::{
    deferred_preview_ensure, defers_preview_ensure, ensure_preview, preview_tracking, register,
    toggle_tracking, AltereMarkdownPreviewToolbar, PreviewTrackingPolicy, PreviewTrackingState,
    WorkspaceEvent,
};
use altere_workbench::next_button::{next_button, NEXT_REPETITION_LABEL, NEXT_REPETITION_WIDTH};
use altere_workbench::proposal_review::{
    open_detached_proposal_review, resolve_active_proposal, review_closed, review_opened,
    AltereProposalReviewToolbar, DetachedProposalHunk, DetachedProposalProjection,
    DetachedProposalSource, Outcome, ProposalReviewRegistry, Resolution, ResolutionAction,
    ResolutionEvent, ToolbarItemLocation,
};
use altere_workbench::runtime::{CommandOutput, ConfigurationError, RuntimeConfiguration};

fn configuration() -> RuntimeConfiguration {
    RuntimeConfiguration {
        bun: "/opt/bun".into(),
        runtime: "/opt/altere/ir.ts".into(),
        collection: "/collection".into(),
    }
}

fn succeeded() -> CommandOutput {
    CommandOutput { success: true, stdout: Vec::new(), stderr: Vec::new() }
}

fn failed(stderr: &str) -> CommandOutput {
    CommandOutput { success: false, stdout: Vec::new(), stderr: stderr.as_bytes().to_vec() }
}

fn proposal() -> DetachedProposalProjection {
    DetachedProposalProjection {
        proposal_id: "proposal-1".into(),
        source: DetachedProposalSource { path: "note.md".into() },
        hunk: DetachedProposalHunk {
            original_text: "# Durable note\n".into(),
            proposed_text: "# Changed note\n".into(),
        },
    }
}

fn texts(blocks: &[ContentBlock]) -> Vec<&str> {
    blocks
        .iter()
        .map(|block| match block {
            ContentBlock::Text(content) => content.text.as_str(),
            _ => panic!("a prompt should be a text"),
        })
        .collect()
}

fn item(path: &str) -> Option<ActiveItem> {
    Some(ActiveItem { path: Some(path.into()), is_editor: true, acts_as_editor: true })
}

#[test]
fn proposal_resolution_remains_an_atomic_bun_command() {
    assert_eq!(
        proposal_resolution_invocation("/runtime/ir.ts", "/collection", "proposal-1", "keep"),
        [
            "/runtime/ir.ts",
            "proposal",
            "keep",
            "--collection",
            "/collection",
            "--proposal-id",
            "proposal-1",
        ]
    );
}

#[test]
fn annotation_commands_name_their_source_and_thread() {
    assert_eq!(
        proposal_invocation("/runtime/ir.ts", "/collection", "note.md"),
        [
            "/runtime/ir.ts",
            "annotation",
            "proposal",
            "--collection",
            "/collection",
            "--source",
            "note.md",
        ]
    );
    assert_eq!(annotation_departure_invocation("r", "c", "note.md")[2], "depart");
    assert_eq!(
        annotation_acknowledgement_invocation("r", "c", "annotation-1", "thread-1"),
        [
            "r",
            "annotation",
            "acknowledge",
            "--collection",
            "c",
            "--annotation-id",
            "annotation-1",
            "--thread-id",
            "thread-1",
        ]
    );
}

#[test]
fn tracking_repeatedly_ensures_preview_until_explicitly_disabled() {
    let policy = PreviewTrackingPolicy::default();

    assert!(policy.should_ensure_preview());
    assert!(
        policy.should_ensure_preview(),
        "closing and reopening does not disable tracking"
    );
}

#[test]
fn explicit_disable_prevents_preview_ensure() {
    let mut policy = PreviewTrackingPolicy::default();

    policy.toggle();

    assert!(!policy.should_ensure_preview());
}

#[test]
fn explicit_enable_rearms_preview_ensure() {
    let mut policy = PreviewTrackingPolicy::default();
    policy.toggle();

    policy.toggle();

    assert!(policy.should_ensure_preview());
}

#[test]
fn a_closed_preview_is_opened_again_while_it_is_tracked() {
    let mut state = preview_tracking(None);
    assert!(register(&state, true));
    assert!(!register(&state, false));
    assert!(defers_preview_ensure(WorkspaceEvent::ItemRemoved));
    assert!(defers_preview_ensure(WorkspaceEvent::PaneRemoved));
    assert!(!defers_preview_ensure(WorkspaceEvent::ItemAdded));
    assert!(deferred_preview_ensure(&state, true));
    assert!(!deferred_preview_ensure(&state, false));

    assert_eq!(toggle_tracking(&mut state, true), (false, false));
    assert!(!deferred_preview_ensure(&state, true));
    assert!(!register(&state, true));
    let mut state = preview_tracking(Some(state));
    assert!(!state.enabled());
    assert_eq!(toggle_tracking(&mut state, true), (true, true));
    assert!(ensure_preview(true));
}

#[test]
fn the_preview_toolbar_shows_on_previews() {
    let mut state = PreviewTrackingState::default();
    let mut toolbar = AltereMarkdownPreviewToolbar::new();
    assert_eq!(toolbar.set_active_pane_item(true), ToolbarItemLocation::PrimaryRight);
    assert_eq!(toolbar.set_active_pane_item(false), ToolbarItemLocation::Hidden);

    let button = toolbar.render(&state);
    assert!(button.toggled);
    assert_eq!(button.tooltip, "Stop Tracking Markdown Preview");
    assert_eq!(button.action, Action::ToggleMarkdownPreviewTracking);
    state.toggle();
    assert_eq!(toolbar.render(&state).tooltip, "Track Markdown Preview");
}

#[test]
fn next_repetition_is_the_primary_visible_action() {
    assert_eq!(NEXT_REPETITION_LABEL, "NEXT REPETITION");
    assert!(NEXT_REPETITION_WIDTH >= 240);
}

#[test]
fn the_next_button_gives_way_to_a_verdict() {
    let mut registry = ProposalReviewRegistry::new();
    let mut button = next_button();
    let shown = button.render(true);
    assert_eq!(shown.key_context, "AltereNextRepetition");
    assert_eq!(shown.buttons.len(), 1);
    assert_eq!(shown.buttons[0].label, "NEXT REPETITION");
    assert_eq!(shown.buttons[0].width, Some(240));
    assert_eq!(shown.buttons[0].action, Action::NextBuffer);
    assert!(shown.buttons[0].toggled && shown.buttons[0].shows_keys);

    assert!(!button.set_active_pane_item(Some(7), &registry));
    review_opened(&mut registry, 7, open_detached_proposal_review(proposal()).reference, None);
    assert!(button.set_active_pane_item(Some(7), &registry));
    assert!(!button.set_reviewing_proposal(true));
    assert!(button.is_reviewing_proposal());

    let shown = button.render(false);
    assert_eq!(shown.key_context, "AltereProposalReview");
    assert_eq!(
        shown
            .buttons
            .iter()
            .map(|button| (button.label.as_str(), button.action, button.width, button.toggled))
            .collect::<Vec<_>>(),
        vec![
            ("REJECT", Action::RejectProposal, None, false),
            ("KEEP", Action::KeepProposal, Some(128), false),
        ]
    );
    assert!(button.set_active_pane_item(None, &registry));
}

#[test]
fn a_review_shows_detached_texts_under_its_title() {
    let plan = open_detached_proposal_review(proposal());
    assert_eq!(plan.title, "Proposal proposal-1 · note.md");
    assert_eq!(plan.original_text, "# Durable note\n");
    assert_eq!(plan.proposed_text, "# Changed note\n");

    let mut registry = ProposalReviewRegistry::new();
    let opened = review_opened(&mut registry, 7, plan.reference, Some(7));
    assert!(opened.reviewing);
    let mut toolbar = AltereProposalReviewToolbar::new();
    assert!(toolbar.active().is_none());
    let reference = opened.toolbar.expect("the review is active");
    assert_eq!(toolbar.show(reference), ToolbarItemLocation::PrimaryRight);
    assert_eq!(
        toolbar.active().map(|reference| reference.proposal_id),
        Some("proposal-1".into())
    );
    assert_eq!(
        toolbar.set_active_pane_item(Some(8), &registry),
        ToolbarItemLocation::Hidden
    );
    assert_eq!(
        toolbar.set_active_pane_item(Some(7), &registry),
        ToolbarItemLocation::PrimaryRight
    );
    let buttons = toolbar.render();
    assert_eq!((buttons[0].label.as_str(), buttons[0].accented), ("Reject", false));
    assert_eq!((buttons[1].label.as_str(), buttons[1].accented), ("Keep", true));

    let other = review_opened(
        &mut registry,
        9,
        open_detached_proposal_review(proposal()).reference,
        Some(7),
    );
    assert!(other.toolbar.is_none());
    assert!(registry.is_proposal_review(Some(9)));
    assert!(!review_closed(&mut registry, 9));
    assert!(!registry.is_proposal_review(Some(9)));
    assert!(registry.is_proposal_review(Some(7)));
    assert!(!registry.is_proposal_review(None));
}

#[test]
fn a_verdict_closes_the_review_and_opens_its_source() {
    let mut registry = ProposalReviewRegistry::new();
    review_opened(&mut registry, 7, open_detached_proposal_review(proposal()).reference, Some(7));

    let (resolution, action) =
        resolve_active_proposal(Outcome::Keep, Some(7), &registry, Ok(configuration()));
    assert!(matches!(
        action,
        ResolutionAction::Run(command)
            if command.arguments[1..3] == ["proposal", "keep"]
                && command.arguments[6] == "proposal-1"
    ));
    let (resolution, action) = resolution.step(ResolutionEvent::Answered(succeeded()));
    assert!(matches!(action, ResolutionAction::CloseReview(7)));
    let (resolution, action) = resolution.step(ResolutionEvent::Opened);
    assert!(matches!(action, ResolutionAction::Wait));
    let (resolution, action) = resolution.step(ResolutionEvent::Closed);
    assert!(matches!(action, ResolutionAction::Open(path) if path == "/collection/note.md"));
    let (resolution, action) = resolution.step(ResolutionEvent::Opened);
    assert!(matches!(action, ResolutionAction::Stop));
    assert!(matches!(resolution, Resolution::Finished));
}

#[test]
fn a_verdict_can_fail() {
    let mut registry = ProposalReviewRegistry::new();
    let (_, action) =
        resolve_active_proposal(Outcome::Keep, Some(7), &registry, Ok(configuration()));
    assert!(matches!(action, ResolutionAction::Stop));

    review_opened(&mut registry, 7, open_detached_proposal_review(proposal()).reference, Some(7));
    let (_, action) = resolve_active_proposal(
        Outcome::Reject,
        Some(7),
        &registry,
        Err(ConfigurationError::Collection),
    );
    assert!(matches!(
        action,
        ResolutionAction::Fail(text) if text == "ALTERE_COLLECTION is required in Altere mode"
    ));
    let (resolution, _) =
        resolve_active_proposal(Outcome::Reject, Some(7), &registry, Ok(configuration()));
    let (_, action) = resolution.step(ResolutionEvent::Answered(failed("stale\n")));
    assert!(matches!(
        action,
        ResolutionAction::Fail(text)
            if text == "Altere could not reject proposal proposal-1: stale"
    ));
}

#[test]
fn a_document_departs_when_another_becomes_active() {
    let mut observer =
        DepartureObserver::observe_document_departures(item("/collection/a.md"), 1);

    assert!(observer
        .on_event(WorkspaceEvent::ItemAdded, item("/collection/b.md"), 2)
        .is_none());
    assert!(observer
        .on_event(WorkspaceEvent::ActiveItemChanged, item("/collection/./a.md"), 2)
        .is_none());
    let left = observer
        .on_event(WorkspaceEvent::ActiveItemChanged, item("/collection/b.md"), 3)
        .expect("another document is active");
    assert_eq!((left.path.as_str(), left.editor), ("/collection/./a.md", 2));
    let left = observer
        .on_event(WorkspaceEvent::ActiveItemChanged, item("/collection/b.txt"), 4)
        .expect("no document is active");
    assert_eq!(left.path, "/collection/b.md");
    assert!(observer.on_event(WorkspaceEvent::ActiveItemChanged, None, 0).is_none());
}

#[test]
fn a_correction_is_sent_at_once() {
    let options = dispatch_departed_document(DepartedDocumentAgentRequest {
        title: "Correction · note.md".into(),
        prompt: "Continue the correction attached to note.md without editing the source.".into(),
        agent: None,
    });
    assert_eq!(options.title.as_deref(), Some("Correction · note.md"));
    assert_eq!(
        texts(&options.blocks),
        ["Continue the correction attached to note.md without editing the source."]
    );
    assert!(options.auto_submit);
    assert_eq!(options.source, AgentThreadSource::AgentPanel);
    assert!(options.agent.is_none() && options.model.is_none() && options.work_dirs.is_none());
}

fn requested() -> Departure {
    let (departure, _) =
        depart_document("/collection/note.md", "# Note\n".into(), Ok(configuration()));
    departure
        .step(DepartureEvent::Answered {
            output: succeeded(),
            request: Ok(Some(AnnotationDepartureRequest {
                annotation_id: "annotation-1".into(),
                title: "Correction".into(),
                prompt: "Continue.".into(),
            })),
        })
        .0
}

#[test]
fn a_departure_is_handed_to_an_agent_and_acknowledged() {
    let (_, action) =
        depart_document("/collection/note.md", "# Note\n".into(), Ok(configuration()));
    assert!(matches!(
        action,
        DepartureAction::Run(command)
            if command.arguments[2] == "depart"
                && command.arguments[6] == "note.md"
                && command.input.as_deref() == Some("# Note\n")
    ));

    let (departure, action) = requested().step(DepartureEvent::PanelFound(true));
    assert!(matches!(action, DepartureAction::ReadAgent));
    let (departure, action) = departure.step(DepartureEvent::Agent(Some("scribe".into())));
    assert!(matches!(
        action,
        DepartureAction::CreateThread(options)
            if options.agent.as_deref() == Some("scribe") && texts(&options.blocks) == ["Continue."]
    ));
    let (departure, action) = departure.step(DepartureEvent::ThreadCreated("thread-1".into()));
    assert!(matches!(
        action,
        DepartureAction::Run(command)
            if command.arguments[6] == "annotation-1" && command.arguments[8] == "thread-1"
    ));
    let (departure, action) = departure.step(DepartureEvent::Acknowledged(succeeded()));
    assert!(matches!(action, DepartureAction::Stop));
    assert!(matches!(departure, Departure::Finished));
}

#[test]
fn a_missing_agent_panel_is_loaded_and_added_once() {
    let (departure, action) = requested().step(DepartureEvent::PanelFound(false));
    assert!(matches!(action, DepartureAction::LoadPanel));
    let (departure, action) = departure.step(DepartureEvent::PanelLoaded);
    assert!(matches!(action, DepartureAction::FindPanel));
    let (departure, action) = departure.step(DepartureEvent::PanelFound(false));
    assert!(matches!(action, DepartureAction::AddPanel));
    let (_, action) = departure.step(DepartureEvent::PanelAdded);
    assert!(matches!(action, DepartureAction::ReadAgent));

    let (departure, _) = requested().step(DepartureEvent::PanelFound(false));
    let (departure, _) = departure.step(DepartureEvent::PanelLoaded);
    let (_, action) = departure.step(DepartureEvent::PanelFound(true));
    assert!(matches!(action, DepartureAction::ReadAgent));
}

#[test]
fn a_departure_can_fail() {
    let text = |action: DepartureAction| match action {
        DepartureAction::Fail(message) => message,
        _ => panic!("the departure should fail"),
    };
    let (_, action) = depart_document("/elsewhere/a.md", String::new(), Ok(configuration()));
    assert_eq!(
        text(action),
        "Departed document /elsewhere/a.md is outside Altere Collection /collection"
    );
    let (departure, _) = depart_document("/collection/a.md", String::new(), Ok(configuration()));
    let (_, action) =
        departure.step(DepartureEvent::Answered { output: failed("locked"), request: Ok(None) });
    assert_eq!(text(action), "Altere annotation departure failed: locked");
    let (departure, _) = depart_document("/collection/a.md", String::new(), Ok(configuration()));
    let (_, action) =
        departure.step(DepartureEvent::Answered { output: succeeded(), request: Ok(None) });
    assert!(matches!(action, DepartureAction::Stop));

    let (departure, _) = requested().step(DepartureEvent::PanelFound(true));
    let (_, action) = departure.step(DepartureEvent::Agent(None));
    assert_eq!(
        text(action),
        "ALTERE_ANNOTATION_AGENT is required for annotation departure"
    );
    let (departure, _) = requested().step(DepartureEvent::PanelFound(true));
    let (departure, _) = departure.step(DepartureEvent::Agent(Some("scribe".into())));
    let (departure, _) = departure.step(DepartureEvent::ThreadCreated("thread-1".into()));
    let (_, action) = departure.step(DepartureEvent::Acknowledged(failed("unknown")));
    assert_eq!(text(action), "Altere annotation acknowledgement failed: unknown");
}

#[test]
fn reading_positions_are_kept_for_the_source_only() {
    let saved = install_workbench_lifecycle("/collection");
    let opened = install_workbench_restore_lifecycle("/collection/");
    let source = |path: Option<&str>, in_project: bool, acts_as_editor: bool| WorkspaceItem {
        in_project,
        path: path.map(str::to_string),
        acts_as_editor,
    };

    assert_eq!(
        saved.saved(Some(source(Some("/collection/source.md"), true, true))),
        Attention::Position
    );
    assert_eq!(
        opened.added(source(Some("/collection/source.md"), true, true)),
        Attention::Position
    );
    assert_eq!(saved.saved(None), Attention::Ignore);
    assert_eq!(
        saved.saved(Some(source(Some("/collection/source.md"), false, true))),
        Attention::Ignore
    );
    assert_eq!(saved.saved(Some(source(None, true, true))), Attention::Unresolved);
    assert_eq!(
        saved.saved(Some(source(Some("/collection/source.md"), true, false))),
        Attention::Ignore
    );
    assert_eq!(
        opened.added(source(Some("/collection/other.md"), true, true)),
        Attention::Ignore
    );

    assert_eq!(saved.kept(Ok(())), None);
    assert_eq!(
        saved.kept(Err("disk full".into())).as_deref(),
        Some("Workbench failed to persist the saved reading position: disk full")
    );
    assert!(matches!(opened.resolved(Ok(Some(42))), Restoration::MoveCursor(42)));
    assert!(matches!(opened.resolved(Ok(None)), Restoration::Nothing));
    assert!(matches!(
        opened.resolved(Err("no collection".into())),
        Restoration::Record(text)
            if text == "Workbench failed to restore the reading position: no collection"
    ));
}

#[test]
fn only_saves_keep_and_only_additions_restore_a_position() {
    let saved = install_workbench_lifecycle("/collection");
    let opened = install_workbench_restore_lifecycle("/collection");
    let source = || WorkspaceItem {
        in_project: true,
        path: Some("/collection/source.md".into()),
        acts_as_editor: true,
    };
    for event in [
        WorkspaceEvent::ActiveItemChanged,
        WorkspaceEvent::ItemAdded,
        WorkspaceEvent::ItemRemoved,
        WorkspaceEvent::PaneRemoved,
        WorkspaceEvent::UserSavedItem,
        WorkspaceEvent::Other,
    ] {
        let keeps = event == WorkspaceEvent::UserSavedItem;
        let restores = event == WorkspaceEvent::ItemAdded;
        assert_eq!(keeps_position(event), keeps);
        assert_eq!(restores_position(event), restores);
        assert_eq!(saved.on_event(event, Some(source())) == Attention::Position, keeps);
        assert_eq!(opened.on_event(event, source()) == Attention::Position, restores);
    }
    assert_eq!(
        saved.on_event(WorkspaceEvent::UserSavedItem, None),
        Attention::Ignore
    );
}
