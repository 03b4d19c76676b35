use altere_workbench::display::{LoadBanner, LoadState, ViewUpdate};
use altere_workbench::dock::{position_for_storage, position_from_storage, DockPosition};
use altere_workbench::invocation::{priority_invocation, queue_invocation};
use altere_workbench::keys::Action;
use altere_workbench::priority_queue::change::{
    load_projection, set_priority, Change, ChangeAction, ChangeEvent,
};
use altere_workbench::priority_queue::loading::{
    accept_priority, accept_projection, load_command, set_priority_command,
};
use altere_workbench::priority_queue::rendering::{QueueEffect, RowClick};
use altere_workbench::priority_queue::{
    path_is_dirty, selected_index_after_refresh, stepped_priority, AlterePriorityQueuePanel,
    OpenItem, PriorityChange, QueuePriority, QueueProjection, QueueProjectionRow,
};
use altere_workbench::runtime::{CommandOutput, ConfigurationError, RuntimeConfiguration};
use altere_workbench::selection::{clamp_selected_index, half_page_rows, move_selection};

fn priority(value: f32) -> QueuePriority {
    QueuePriority {
        text: format!("{value}"),
        rounded: value.round() as i32,
        whole: value == value.round(),
    }
}

fn row(id: &str, rank: usize, value: f32, protected: bool) -> QueueProjectionRow {
    QueueProjectionRow {
        id: id.into(),
        path: format!("/tmp/collection/{id}"),
        fingerprint: format!("{id}-fingerprint"),
        name: id.into(),
        rank,
        percentile: format!("{:.0}", 12.4f32),
        claim_cells: 7,
        lane: "reading".into(),
        priority: priority(value),
        reads: 4,
        protected,
        rule: "rank".into(),
    }
}

fn projection(rows: Vec<QueueProjectionRow>) -> QueueProjection {
    QueueProjection { version: 1, book_size: 12, protected_percentile: 10, rows }
}

fn panel() -> AlterePriorityQueuePanel {
    let mut panel = AlterePriorityQueuePanel::load(None);
    panel.finish_refresh(Ok(projection(vec![
        row("one.md", 1, 3., true),
        row("two.md", 2, 50., true),
        row("three.md", 3, 98.4, false),
    ])));
    panel
}

fn selected(panel: &AlterePriorityQueuePanel) -> Option<&str> {
    panel.selected_row().map(|row| row.id.as_str())
}

fn configuration() -> RuntimeConfiguration {
    RuntimeConfiguration {
        bun: "/opt/bun".into(),
        runtime: "/opt/altere/ir.ts".into(),
        collection: "/tmp/collection".into(),
    }
}

#[test]
fn failed_projection_load_becomes_retryable_panel_state() {
    let state = LoadState::error(anyhow::Error::msg("runtime offline").to_string());

    assert!(matches!(
        state,
        LoadState::Error(message) if message.contains("runtime offline")
    ));
}

#[test]
fn replacement_projection_clamps_selection_without_owning_queue_order() {
    assert_eq!(clamp_selected_index(12, 3), 2);
    assert_eq!(clamp_selected_index(12, 0), 0);
    assert_eq!(clamp_selected_index(1, 3), 1);
}

#[test]
fn replacement_projection_preserves_selection_by_stable_row_identity() {
    let rows = vec![
        QueueProjectionRow {
            id: "two.md".into(),
            path: "/tmp/collection/two.md".into(),
            fingerprint: "two".into(),
            name: "two.md".into(),
            rank: 1,
            percentile: format!("{:.0}", 0.0f32),
            claim_cells: 10,
            lane: "reading".into(),
            priority: priority(20.),
            reads: 0,
            protected: true,
            rule: "rank".into(),
        },
        QueueProjectionRow {
            id: "one.md".into(),
            path: "/tmp/collection/one.md".into(),
            fingerprint: "one".into(),
            name: "one.md".into(),
            rank: 2,
            percentile: format!("{:.0}", 100.0f32),
            claim_cells: 1,
            lane: "reading".into(),
            priority: priority(42.),
            reads: 0,
            protected: false,
            rule: "rank".into(),
        },
    ];

    assert_eq!(selected_index_after_refresh(Some("one.md"), 0, &rows), 1);
    assert_eq!(
        selected_index_after_refresh(Some("missing.md"), 8, &rows),
        1
    );
}

#[test]
fn queue_shortcuts_derive_exact_bounded_priorities() {
    assert_eq!(stepped_priority(priority(50.).rounded, -5), 45);
    assert_eq!(stepped_priority(priority(3.).rounded, -5), 1);
    assert_eq!(stepped_priority(priority(98.).rounded, 5), 100);
}

#[test]
fn vim_navigation_clamps_at_queue_edges() {
    assert_eq!(move_selection(0, 3, -1), 0);
    assert_eq!(move_selection(0, 3, 1), 1);
    assert_eq!(move_selection(2, 3, 1), 2);
    assert_eq!(move_selection(0, 0, 1), 0);
}

#[test]
fn half_page_navigation_uses_the_visible_row_count() {
    assert_eq!(half_page_rows(280), 5);
    assert_eq!(half_page_rows(27), 1);
    assert_eq!(half_page_rows(0), 1);
}

#[test]
fn panel_position_storage_round_trips_all_supported_docks() {
    for position in [
        DockPosition::Left,
        DockPosition::Bottom,
        DockPosition::Right,
    ] {
        assert_eq!(
            position_from_storage(&position_for_storage(position)),
            Some(position)
        );
    }
    assert_eq!(position_from_storage("unsupported"), None);
}

#[test]
fn zed_requests_a_projection_without_owning_queue_policy() {
    assert_eq!(
        queue_invocation("/opt/altere/ir.ts", "/tmp/collection"),
        [
            "/opt/altere/ir.ts",
            "rotation",
            "queue",
            "--collection",
            "/tmp/collection",
        ]
    );
}

#[test]
fn zed_requests_one_atomic_priority_set() {
    assert_eq!(
        priority_invocation(
            "/opt/altere/ir.ts",
            "/tmp/collection",
            "one.md",
            45,
            "fingerprint-1",
        ),
        [
            "/opt/altere/ir.ts",
            "priority",
            "set",
            "--collection",
            "/tmp/collection",
            "--source",
            "one.md",
            "--value",
            "45",
            "--expected-fingerprint",
            "fingerprint-1",
        ]
    );
}

#[test]
fn queue_projection_is_a_renderer_contract() {
    let value: serde_json::Value = serde_json::from_str(
        r#"{
            "version": 1,
            "bookSize": 1,
            "protectedPercentile": 10,
            "rows": [{
                "id": "problem.md",
                "path": "/tmp/collection/problem.md",
                "fingerprint": "abc123",
                "name": "problem.md",
                "rank": 1,
                "percentile": 0,
                "claimCells": 10,
                "lane": "problem",
                "priority": 99,
                "reads": 0,
                "protected": true,
                "rule": "rank"
            }]
        }"#,
    )
    .expect("valid projection fixture");
    let text = |row: &serde_json::Value, key: &str| row[key].as_str().unwrap().to_string();
    let count = |row: &serde_json::Value, key: &str| row[key].as_u64().unwrap() as usize;
    let projection = QueueProjection {
        version: count(&value, "version") as u8,
        book_size: count(&value, "bookSize"),
        protected_percentile: count(&value, "protectedPercentile") as u8,
        rows: value["rows"]
            .as_array()
            .unwrap()
            .iter()
            .map(|row| QueueProjectionRow {
                id: text(row, "id"),
                path: text(row, "path"),
                fingerprint: text(row, "fingerprint"),
                name: text(row, "name"),
                rank: count(row, "rank"),
                percentile: format!("{:.0}", row["percentile"].as_f64().unwrap()),
                claim_cells: count(row, "claimCells"),
                lane: text(row, "lane"),
                priority: priority(row["priority"].as_f64().unwrap() as f32),
                reads: count(row, "reads"),
                protected: row["protected"].as_bool().unwrap(),
                rule: text(row, "rule"),
            })
            .collect(),
    };

    assert_eq!(projection.book_size, 1);
    assert_eq!(projection.rows[0].claim_cells, 10);
    assert_eq!(projection.rows[0].path, "/tmp/collection/problem.md");
    let accepted = accept_projection(
        &CommandOutput { success: true, stdout: Vec::new(), stderr: Vec::new() },
        Some(projection),
    );
    assert!(accepted.is_ok());
}

#[test]
fn the_queue_selection_follows_its_row() {
    let mut panel = panel();
    panel.select(1);

    panel.finish_refresh(Ok(projection(vec![
        row("three.md", 1, 98.4, true),
        row("one.md", 2, 3., false),
        row("two.md", 3, 55., false),
    ])));
    assert_eq!(selected(&panel), Some("two.md"));

    let update = panel.finish_refresh(Ok(projection(vec![row("one.md", 1, 3., true)])));
    assert_eq!(selected(&panel), Some("one.md"));
    assert_eq!(update.reset_rows, Some(1));

    panel.finish_refresh(Err("offline".into()));
    assert_eq!(selected(&panel), Some("one.md"));
    assert!(matches!(
        panel.render_load_state(),
        Some(LoadBanner::Failed { message, .. }) if message == "offline"
    ));
}

#[test]
fn queue_actions_move_by_rows_and_half_pages() {
    let mut panel = AlterePriorityQueuePanel::load(Some("left"));
    assert_eq!(panel.position(), DockPosition::Left);
    panel.finish_refresh(Ok(projection(
        (0..20).map(|i| row(&format!("{i}.md"), i, 10., false)).collect(),
    )));

    panel.on_action(Action::ScrollDown, 280, None);
    assert_eq!(selected(&panel), Some("5.md"));
    panel.on_action(Action::ScrollUp, 28, None);
    assert_eq!(selected(&panel), Some("4.md"));
    panel.on_action(Action::SelectLast, 0, None);
    panel.on_action(Action::ScrollDown, 280, None);
    assert_eq!(selected(&panel), Some("19.md"));
    panel.on_action(Action::SelectFirst, 0, None);
    panel.on_action(Action::ScrollUp, 280, None);
    assert_eq!(selected(&panel), Some("0.md"));
    panel.on_action(Action::SelectNext, 0, None);
    panel.on_action(Action::SelectNext, 0, None);
    panel.on_action(Action::SelectPrevious, 0, None);
    assert!(matches!(
        panel.on_action(Action::OpenQueueItem, 0, None),
        QueueEffect::Open(Some(path)) if path == "/tmp/collection/1.md"
    ));
    assert!(matches!(
        panel.on_action(Action::CollapseSelected, 0, None),
        QueueEffect::Unhandled
    ));
}

#[test]
fn a_priority_step_asks_for_the_projected_row() {
    let mut panel = panel();
    panel.select(1);

    match panel.more_important(Some(&[])) {
        PriorityChange::Requested { id, priority, fingerprint, update } => {
            assert_eq!((id.as_str(), priority), ("two.md", 45));
            assert_eq!(fingerprint, "two.md-fingerprint");
            assert_eq!(update, ViewUpdate::paint());
        }
        _ => panic!("a step from 50 to 45 should be requested"),
    }
    assert!(matches!(
        panel.render_load_state(),
        Some(LoadBanner::Refreshing(_))
    ));
    assert!(matches!(
        panel.less_important(Some(&[])),
        PriorityChange::Requested { priority: 55, .. }
    ));
    assert!(matches!(
        panel.less_important(None),
        PriorityChange::Unchanged
    ));

    panel.select(2);
    assert!(matches!(
        panel.less_important(Some(&[])),
        PriorityChange::Requested { priority: 100, .. }
    ));
}

#[test]
fn a_priority_at_its_bound_asks_for_nothing() {
    let mut panel = AlterePriorityQueuePanel::load(None);
    assert!(matches!(
        panel.more_important(Some(&[])),
        PriorityChange::Unchanged
    ));
    panel.finish_refresh(Ok(projection(vec![
        row("first.md", 1, 1., true),
        row("nearly.md", 2, 0.6, false),
    ])));
    assert!(matches!(
        panel.more_important(Some(&[])),
        PriorityChange::Unchanged
    ));
    panel.select(1);
    assert!(matches!(
        panel.more_important(Some(&[])),
        PriorityChange::Requested { priority: 1, .. }
    ));
}

#[test]
fn unsaved_changes_refuse_a_priority_step() {
    let mut panel = panel();
    let dirty = [
        OpenItem { dirty: true, path: None },
        OpenItem { dirty: false, path: Some("/tmp/collection/one.md".into()) },
        OpenItem { dirty: true, path: Some("/tmp//collection/./one.md".into()) },
    ];

    assert!(path_is_dirty(&dirty, "/tmp/collection/one.md"));
    assert!(!path_is_dirty(&dirty[..2], "/tmp/collection/one.md"));
    assert!(!path_is_dirty(&dirty, "/tmp/collection/two.md"));
    assert!(matches!(
        panel.on_action(Action::MoreImportant, 0, Some(&dirty)),
        QueueEffect::Priority(PriorityChange::Refused(_))
    ));
    assert!(matches!(
        panel.render_load_state(),
        Some(LoadBanner::Failed { message, .. })
            if message == "Save one.md before changing its priority."
    ));
}

#[test]
fn the_floor_is_drawn_below_the_last_protected_row() {
    let panel = panel();

    assert!(panel.render_row(0).unwrap().floor.is_none());
    let floor = panel.render_row(1).unwrap().floor.unwrap();
    assert_eq!((floor.title.as_str(), floor.text.as_str()), ("FLOOR", "TOP 10% PROTECTED"));
    assert_eq!(floor.height, 20);
    assert!(panel.render_row(2).unwrap().floor.is_none());
    assert!(panel.render_row(3).is_none());
}

#[test]
fn queue_rows_show_in_the_panel() {
    let mut panel = panel();
    panel.select(2);

    let item = panel.render_row(2).unwrap();
    assert_eq!(
        item.row.tooltip.as_deref(),
        Some("three.md · rank · /tmp/collection/three.md")
    );
    assert_eq!(item.row.on_click, Some(RowClick { place: 2 }));
    assert!(item.row.selected);
    assert_eq!(item.row.id.name, "altere-priority-queue-row");
    assert_eq!(item.row.cells[3].text, "READING");
    assert_eq!(
        item.row.label,
        "Rank 3, percentile 12, reading, three.md, priority 98.4, 4 reads"
    );

    let (_, path) = panel.click_at(RowClick { place: 0 }, 1);
    assert_eq!(path, None);
    let (update, path) = panel.click_at(RowClick { place: 0 }, 2);
    assert_eq!(path.as_deref(), Some("/tmp/collection/one.md"));
    assert!(update.focus_panel);
}

#[test]
fn the_queue_panel_names_its_state() {
    let waiting = AlterePriorityQueuePanel::load(None);
    let view = waiting.render();
    assert_eq!(view.book, "BOOK —");
    assert_eq!(view.floor, None);
    assert_eq!(waiting.icon_label(), None);
    assert!(matches!(view.banner, Some(LoadBanner::Loading(text)) if text == "Loading priority queue…"));

    let mut panel = panel();
    let view = panel.render();
    assert_eq!(view.book, "BOOK 12");
    assert_eq!(view.floor.as_deref(), Some("FLOOR TOP 10%"));
    assert_eq!(
        view.headings.iter().map(|cell| (cell.width, cell.text.as_str())).collect::<Vec<_>>(),
        vec![
            (Some(34), "RANK"),
            (Some(42), "%ILE"),
            (Some(86), "CLAIM"),
            (Some(66), "LANE"),
            (None, "ELEMENT"),
        ]
    );
    assert_eq!(view.row_count, Some(3));
    assert_eq!(panel.icon_label().as_deref(), Some("12"));

    panel.finish_refresh(Ok(projection(Vec::new())));
    assert_eq!(panel.render().empty_text.as_deref(), Some("Nothing in rotation."));
    assert_eq!(panel.set_position(DockPosition::Right), "right");
    assert!(panel.position_is_valid(DockPosition::Left));
}

#[test]
fn queue_commands_and_answers_are_exact() {
    assert_eq!(load_command(&configuration()).arguments[1..3], ["rotation", "queue"]);
    let command = set_priority_command(&configuration(), "one.md", 7, "abc");
    assert_eq!(command.program, "/opt/bun");
    assert_eq!(command.arguments[7..9], ["--value", "7"]);

    let failed = CommandOutput {
        success: false,
        stdout: Vec::new(),
        stderr: "\u{a0} stale fingerprint \n".as_bytes().to_vec(),
    };
    assert_eq!(
        accept_priority(&failed),
        Some("Altere priority mutation failed: stale fingerprint".to_string())
    );
    assert_eq!(
        accept_projection(&failed, None).err(),
        Some("Altere queue runtime failed: stale fingerprint".to_string())
    );
    let written = CommandOutput { success: true, stdout: Vec::new(), stderr: Vec::new() };
    assert_eq!(accept_priority(&written), None);
    assert_eq!(
        accept_projection(&written, None).err(),
        Some("decoding the Altere queue projection".to_string())
    );
    let newer = QueueProjection { version: 3, ..projection(Vec::new()) };
    assert_eq!(
        accept_projection(&written, Some(newer)).err(),
        Some("unsupported Altere queue projection".to_string())
    );
}

fn queue_result(action: ChangeAction) -> Result<usize, String> {
    match action {
        ChangeAction::Finish(result) => result.map(|queue| queue.rows.len()),
        _ => panic!("the change should be over"),
    }
}

fn answer(success: bool, stderr: &str) -> CommandOutput {
    CommandOutput { success, stdout: Vec::new(), stderr: stderr.as_bytes().to_vec() }
}

#[test]
fn a_priority_that_is_set_is_followed_by_a_load() {
    let (change, action) = set_priority("one.md", 45, "abc", Ok(configuration()));
    assert!(matches!(
        action,
        ChangeAction::Run(command)
            if command.arguments[1..3] == ["priority", "set"] && command.arguments[8] == "45"
    ));
    let (change, action) = change.step(ChangeEvent::Answered {
        output: answer(true, ""),
        configuration: Ok(configuration()),
    });
    assert!(matches!(
        action,
        ChangeAction::Run(command) if command.arguments[1..3] == ["rotation", "queue"]
    ));
    let (change, action) = change.step(ChangeEvent::Answered {
        output: answer(true, ""),
        configuration: Ok(configuration()),
    });
    assert!(matches!(action, ChangeAction::Wait));
    let (change, action) = change.step(ChangeEvent::Loaded {
        output: answer(true, ""),
        decoded: Some(projection(vec![row("one.md", 1, 45., true)])),
    });
    assert_eq!(queue_result(action), Ok(1));
    assert!(matches!(change, Change::Finished));
}

#[test]
fn a_priority_that_is_refused_loads_nothing() {
    let (_, action) = set_priority("one.md", 45, "abc", Err(ConfigurationError::Runtime));
    assert_eq!(
        queue_result(action),
        Err("ALTERE_RUNTIME is required in Altere mode".to_string())
    );
    let (change, _) = set_priority("one.md", 45, "abc", Ok(configuration()));
    let (change, action) = change.step(ChangeEvent::Answered {
        output: answer(false, "stale\n"),
        configuration: Ok(configuration()),
    });
    assert_eq!(
        queue_result(action),
        Err("Altere priority mutation failed: stale".to_string())
    );
    assert!(matches!(change, Change::Finished));

    let (change, _) = load_projection(Ok(configuration()));
    let (_, action) = change.step(ChangeEvent::Loaded {
        output: answer(false, "offline"),
        decoded: None,
    });
    assert_eq!(queue_result(action), Err("Altere queue runtime failed: offline".to_string()));
    let (_, action) = load_projection(Err(ConfigurationError::Collection));
    assert_eq!(
        queue_result(action),
        Err("ALTERE_COLLECTION is required in Altere mode".to_string())
    );
}
