use altere_workbench::active_item::ActiveItem;
use altere_workbench::guided_attention::{
    apply_to_active_editor, follows, guided_read_only, guides_attention, Guidance,
    GuidanceAction, GuidanceEvent,
};
use altere_workbench::invocation::{
    current_invocation, current_runtime_invocation, runtime_invocation,
};
use altere_workbench::markdown_preview::WorkspaceEvent;
use altere_workbench::next_repetition::{
    advance_command, next_repetition_intent, rotation_command, NextBuffer, NextBufferAction,
    NextBufferEvent, NextRepetitionIntent,
};
use altere_workbench::proposal_review::{
    DetachedProposalHunk, DetachedProposalProjection, DetachedProposalSource,
};
use altere_workbench::runtime::{
    runtime_configuration, CommandOutput, ConfigurationError, RuntimeConfiguration,
};

fn configuration() -> RuntimeConfiguration {
    RuntimeConfiguration {
        bun: "/opt/bun".into(),
        runtime: "/opt/altere/ir.ts".into(),
        collection: "/tmp/collection".into(),
    }
}

fn succeeded() -> CommandOutput {
    CommandOutput { success: true, stdout: Vec::new(), stderr: Vec::new() }
}

fn failed(stderr: &str) -> CommandOutput {
    CommandOutput { success: false, stdout: Vec::new(), stderr: stderr.as_bytes().to_vec() }
}

fn editor(path: &str) -> Option<ActiveItem> {
    Some(ActiveItem { path: Some(path.into()), is_editor: true, acts_as_editor: true })
}

fn proposal() -> DetachedProposalProjection {
    DetachedProposalProjection {
        proposal_id: "proposal-1".into(),
        source: DetachedProposalSource { path: "note.md".into() },
        hunk: DetachedProposalHunk {
            original_text: "old".into(),
            proposed_text: "new".into(),
        },
    }
}

fn advancing() -> NextBuffer {
    let (request, _) = NextBuffer::begin(Ok(configuration()));
    request
        .step(NextBufferEvent::CurrentAnswered { output: succeeded(), current: Ok(None) })
        .0
}

fn message(action: NextBufferAction) -> String {
    match action {
        NextBufferAction::Fail(message) => message,
        _ => panic!("the request should fail"),
    }
}

#[test]
fn zed_is_only_an_adapter_to_the_standalone_rotation_command() {
    let invocation = runtime_invocation("/opt/altere/ir.ts", "/tmp/collection", "gesture-42");

    assert_eq!(
        invocation,
        [
            "/opt/altere/ir.ts",
            "rotation",
            "next",
            "--collection",
            "/tmp/collection",
            "--operation-id",
            "gesture-42",
        ]
    );
    assert_eq!(
        current_runtime_invocation("/opt/altere/ir.ts", "/tmp/collection"),
        [
            "/opt/altere/ir.ts",
            "rotation",
            "current",
            "--collection",
            "/tmp/collection",
        ]
    );
}

#[test]
fn next_repetition_returns_to_the_current_repetition_before_advancing() {
    let current = "/tmp/collection/current.md";

    assert_eq!(
        next_repetition_intent(Some(current), Some("/tmp/collection/other.md")),
        NextRepetitionIntent::FocusCurrent
    );
    assert_eq!(
        next_repetition_intent(Some(current), None),
        NextRepetitionIntent::FocusCurrent
    );
    assert_eq!(
        next_repetition_intent(Some(current), Some(current)),
        NextRepetitionIntent::Advance
    );
    assert_eq!(
        next_repetition_intent(None, Some("/tmp/collection/other.md")),
        NextRepetitionIntent::Advance
    );
}

#[test]
fn guided_attention_only_allows_the_current_rotation_document_to_edit() {
    let current = "/collection/current.md";

    assert!(!guided_read_only(current, Some(current)));
    assert!(guided_read_only("/collection/other.md", Some(current)));
    assert!(guided_read_only(current, None));
}

#[test]
fn zed_only_requests_the_current_rotation_projection() {
    assert_eq!(
        current_invocation("/opt/altere/ir.ts", "/collection"),
        [
            "/opt/altere/ir.ts",
            "rotation",
            "current",
            "--collection",
            "/collection",
        ]
    );
}

#[test]
fn a_request_goes_back_to_the_current_repetition() {
    let (request, action) = NextBuffer::begin(Ok(configuration()));
    assert!(matches!(
        action,
        NextBufferAction::Run(command)
            if command.program == "/opt/bun" && command.arguments[1..3] == ["rotation", "current"]
    ));
    let (request, action) = request.step(NextBufferEvent::CurrentAnswered {
        output: succeeded(),
        current: Ok(Some("/tmp/collection/current.md".into())),
    });
    assert!(matches!(action, NextBufferAction::FindActiveItem));
    let (request, action) =
        request.step(NextBufferEvent::ActiveItem(editor("/tmp/collection/other.md")));
    assert!(matches!(action, NextBufferAction::Open(path) if path == "/tmp/collection/current.md"));
    let (request, action) = request.step(NextBufferEvent::Opened);
    assert!(matches!(action, NextBufferAction::Stop));
    assert!(matches!(request, NextBuffer::Finished));
}

#[test]
fn a_request_advances_from_the_current_repetition() {
    for (item, advances) in [
        (editor("/tmp/collection//current.md"), true),
        (editor("/tmp/collection/other.md"), false),
        (None, false),
        (
            Some(ActiveItem {
                path: Some("/tmp/collection/current.md".into()),
                is_editor: false,
                acts_as_editor: true,
            }),
            false,
        ),
    ] {
        let (request, _) = NextBuffer::begin(Ok(configuration()));
        let (request, _) = request.step(NextBufferEvent::CurrentAnswered {
            output: succeeded(),
            current: Ok(Some("/tmp/collection/current.md".into())),
        });
        let (_, action) = request.step(NextBufferEvent::ActiveItem(item));
        assert_eq!(matches!(action, NextBufferAction::Advance(_)), advances);
    }
}

#[test]
fn a_request_opens_the_next_repetition_and_its_proposal() {
    let (request, action) = advancing().step(NextBufferEvent::RotationAnswered {
        output: succeeded(),
        opened: Ok(Some("/tmp/collection/deep/note.md".into())),
    });
    assert!(matches!(
        action,
        NextBufferAction::Run(command)
            if command.arguments[1..] == [
                "annotation",
                "proposal",
                "--collection",
                "/tmp/collection",
                "--source",
                "deep/note.md",
            ]
    ));
    let (request, action) = request.step(NextBufferEvent::ProposalAnswered {
        output: succeeded(),
        proposal: Ok(Some(proposal())),
    });
    assert!(matches!(action, NextBufferAction::Open(path) if path == "/tmp/collection/deep/note.md"));
    let (request, action) = request.step(NextBufferEvent::Opened);
    assert!(matches!(
        action,
        NextBufferAction::Review(proposal) if proposal.proposal_id == "proposal-1"
    ));
    let (request, action) = request.step(NextBufferEvent::Reviewed);
    assert!(matches!(action, NextBufferAction::RefreshQueue));
    let (_, action) = request.step(NextBufferEvent::Opened);
    assert!(matches!(action, NextBufferAction::Wait));
}

#[test]
fn a_request_without_proposal_refreshes_the_queue() {
    let (request, _) = advancing().step(NextBufferEvent::RotationAnswered {
        output: succeeded(),
        opened: Ok(Some("/tmp/collection/note.md".into())),
    });
    let (request, action) = request.step(NextBufferEvent::Reviewed);
    assert!(matches!(action, NextBufferAction::Wait));
    let (request, _) = request.step(NextBufferEvent::ProposalAnswered {
        output: succeeded(),
        proposal: Ok(None),
    });
    let (_, action) = request.step(NextBufferEvent::Opened);
    assert!(matches!(action, NextBufferAction::RefreshQueue));

    let (_, action) = advancing().step(NextBufferEvent::RotationAnswered {
        output: succeeded(),
        opened: Ok(None),
    });
    assert!(matches!(action, NextBufferAction::Stop));
}

#[test]
fn a_request_fails_with_what_went_wrong() {
    let (_, action) = NextBuffer::begin(Err(ConfigurationError::Runtime));
    assert_eq!(message(action), "ALTERE_RUNTIME is required in Altere mode");

    let (request, _) = NextBuffer::begin(Ok(configuration()));
    let (_, action) = request.step(NextBufferEvent::CurrentAnswered {
        output: failed("  broken\n"),
        current: Ok(None),
    });
    assert_eq!(message(action), "Altere runtime failed: broken");

    let (request, _) = NextBuffer::begin(Ok(configuration()));
    let (_, action) = request.step(NextBufferEvent::CurrentAnswered {
        output: succeeded(),
        current: Err("expected value".into()),
    });
    assert_eq!(message(action), "expected value");

    let (_, action) = advancing().step(NextBufferEvent::RotationAnswered {
        output: succeeded(),
        opened: Ok(Some("/elsewhere/note.md".into())),
    });
    assert_eq!(
        message(action),
        "Rotated path /elsewhere/note.md is outside Altere Collection /tmp/collection"
    );

    let (request, _) = advancing().step(NextBufferEvent::RotationAnswered {
        output: succeeded(),
        opened: Ok(Some("/tmp/collection/note.md".into())),
    });
    let (_, action) = request.step(NextBufferEvent::ProposalAnswered {
        output: failed("no proposals"),
        proposal: Ok(None),
    });
    assert_eq!(message(action), "Altere proposal projection failed: no proposals");

    let (request, action) = advancing().step(NextBufferEvent::Failed("window closed".into()));
    assert_eq!(message(action), "window closed");
    assert!(matches!(request, NextBuffer::Finished));
}

#[test]
fn every_gesture_has_an_identity_of_its_own() {
    let one = advance_command(&configuration());
    let other = advance_command(&configuration());
    assert_eq!(one.arguments[..6], other.arguments[..6]);
    assert_ne!(one.arguments[6], other.arguments[6]);

    let id = &one.arguments[6];
    assert_eq!(id.len(), 36);
    for (place, c) in id.chars().enumerate() {
        match place {
            8 | 13 | 18 | 23 => assert_eq!(c, '-'),
            14 => assert_eq!(c, '4'),
            19 => assert!("89ab".contains(c)),
            _ => assert!(c.is_ascii_digit() || ('a'..='f').contains(&c)),
        }
    }
    assert_eq!(
        rotation_command(&configuration(), "gesture-42").arguments[5..],
        ["--operation-id", "gesture-42"]
    );
}

#[test]
fn the_runtime_is_found_from_the_settings() {
    let setting = |text: &str| Some(text.to_string());
    let found = runtime_configuration(
        setting("/opt/bun"),
        setting("/home/reader"),
        setting("/opt/ir.ts"),
        setting("/books"),
    )
    .unwrap_or_else(|_| panic!("everything is set"));
    assert_eq!((found.bun.as_str(), found.collection.as_str()), ("/opt/bun", "/books"));

    let found = runtime_configuration(
        None,
        setting("/home/reader"),
        setting("/opt/ir.ts"),
        setting("/books"),
    )
    .unwrap_or_else(|_| panic!("the home directory is set"));
    assert_eq!(found.bun, "/home/reader/.bun/bin/bun");

    let lacking = |bun, home, runtime, collection| {
        runtime_configuration(bun, home, runtime, collection)
            .err()
            .map(|error| error.message())
    };
    assert_eq!(
        lacking(None, None, None, None).as_deref(),
        Some("ALTERE_BUN or HOME is required")
    );
    assert_eq!(
        lacking(setting("b"), None, None, None).as_deref(),
        Some("ALTERE_RUNTIME is required in Altere mode")
    );
    assert_eq!(
        lacking(setting("b"), None, setting("r"), None).as_deref(),
        Some("ALTERE_COLLECTION is required in Altere mode")
    );
}

#[test]
fn guidance_tells_the_editor_what_it_may_do() {
    for (path, read_only) in [("/tmp/collection/current.md", false), ("/tmp/x.md", true)] {
        let (guidance, action) = apply_to_active_editor(editor(path), Ok(configuration()));
        assert!(matches!(action, GuidanceAction::Run(_)));
        let (guidance, action) = guidance.step(GuidanceEvent::Answered {
            output: succeeded(),
            current: Ok(Some("/tmp/collection/current.md".into())),
        });
        assert!(matches!(action, GuidanceAction::SetReadOnly(told) if told == read_only));
        let (guidance, action) = guidance.step(GuidanceEvent::Told);
        assert!(matches!(action, GuidanceAction::Stop));
        assert!(matches!(guidance, Guidance::Finished));
    }
}

#[test]
fn guidance_looks_at_markdown_editors_only() {
    for item in [
        None,
        editor("/tmp/collection/notes.txt"),
        editor("/tmp/collection/.md"),
        Some(ActiveItem { path: None, is_editor: true, acts_as_editor: true }),
        Some(ActiveItem {
            path: Some("/tmp/a.md".into()),
            is_editor: false,
            acts_as_editor: false,
        }),
    ] {
        let (_, action) = apply_to_active_editor(item, Ok(configuration()));
        assert!(matches!(action, GuidanceAction::Stop));
    }
}

#[test]
fn guidance_fails_with_what_went_wrong() {
    let (_, action) =
        apply_to_active_editor(editor("/tmp/a.md"), Err(ConfigurationError::Interpreter));
    assert!(matches!(
        action,
        GuidanceAction::Fail(text) if text == "ALTERE_BUN or HOME is required"
    ));
    let (guidance, _) = apply_to_active_editor(editor("/tmp/a.md"), Ok(configuration()));
    let (_, action) = guidance.step(GuidanceEvent::Answered {
        output: failed("offline"),
        current: Ok(None),
    });
    assert!(matches!(
        action,
        GuidanceAction::Fail(text) if text == "Altere current rotation projection failed: offline"
    ));
    let (guidance, _) = apply_to_active_editor(editor("/tmp/a.md"), Ok(configuration()));
    let (_, action) = guidance.step(GuidanceEvent::Failed("gone".into()));
    assert!(matches!(action, GuidanceAction::Fail(text) if text == "gone"));
}

#[test]
fn attention_is_guided_unless_it_is_open() {
    assert!(guides_attention(None));
    assert!(guides_attention(Some("guided")));
    assert!(!guides_attention(Some("open")));
    assert!(follows(WorkspaceEvent::ActiveItemChanged));
    assert!(!follows(WorkspaceEvent::ItemRemoved));
}
