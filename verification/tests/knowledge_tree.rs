use altere_workbench::display::{LoadBanner, LoadState, ViewUpdate};
use altere_workbench::dock::DockPosition;
use altere_workbench::hierarchy::{
    visible_row_indices, HierarchyProjection, HierarchyProjectionRow, IdSet,
};
use altere_workbench::invocation::{hierarchy_invocation, set_parent_invocation};
use altere_workbench::keys::Action;
use altere_workbench::knowledge_tree::change::{
    load_projection, set_parent, Change, ChangeAction, ChangeEvent,
};
use altere_workbench::knowledge_tree::loading::{
    accept_move, accept_projection, load_command, set_parent_command,
};
use altere_workbench::knowledge_tree::rendering::{DraggedHierarchyItem, TreeEffect};
use altere_workbench::knowledge_tree::{selected_index_after_refresh, AltereKnowledgeTreePanel};
use altere_workbench::reparent::optimistic_reparent;
use altere_workbench::runtime::{CommandOutput, ConfigurationError, RuntimeConfiguration};
use altere_workbench::selection::move_selection;

fn row(
    id: &str,
    parent_id: Option<&str>,
    depth: usize,
    has_children: bool,
) -> HierarchyProjectionRow {
    HierarchyProjectionRow {
        id: id.into(),
        path: format!("/tmp/collection/{id}"),
        name: id.into(),
        parent_id: parent_id.map(str::to_string),
        depth,
        has_children,
    }
}

fn ids(names: &[&str]) -> IdSet {
    let mut set = IdSet::new();
    for name in names {
        set.insert(name.to_string());
    }
    set
}

fn forest() -> Vec<HierarchyProjectionRow> {
    vec![
        row("root.md", None, 0, true),
        row("child.md", Some("root.md"), 1, true),
        row("grandchild.md", Some("child.md"), 2, false),
        row("sibling.md", Some("root.md"), 1, false),
        row("other.md", None, 0, false),
    ]
}

fn projection(rows: Vec<HierarchyProjectionRow>) -> HierarchyProjection {
    HierarchyProjection { version: 1, rows }
}

fn panel() -> AltereKnowledgeTreePanel {
    let mut panel = AltereKnowledgeTreePanel::load(None);
    panel.finish_refresh(Ok(projection(forest())));
    panel
}

fn shown(panel: &AltereKnowledgeTreePanel) -> Vec<String> {
    let mut names = Vec::new();
    while let Some(row) = panel.row_at(names.len()) {
        names.push(row.id.clone());
    }
    names
}

fn selected(panel: &AltereKnowledgeTreePanel) -> Option<&str> {
    panel.selected_row().map(|row| row.id.as_str())
}

fn configuration() -> RuntimeConfiguration {
    RuntimeConfiguration {
        bun: "/opt/bun".into(),
        runtime: "/opt/altere/ir.ts".into(),
        collection: "/tmp/collection".into(),
    }
}

fn output(success: bool, stderr: &[u8]) -> CommandOutput {
    CommandOutput { success, stdout: Vec::new(), stderr: stderr.to_vec() }
}

#[test]
fn zed_invokes_only_the_standalone_hierarchy_projection() {
    assert_eq!(
        hierarchy_invocation("/opt/altere/ir.ts", "/tmp/collection"),
        [
            "/opt/altere/ir.ts",
            "hierarchy",
            "tree",
            "--collection",
            "/tmp/collection"
        ]
    );
}

#[test]
fn zed_sends_only_reparent_intent_to_the_standalone_runtime() {
    assert_eq!(
        set_parent_invocation(
            "/opt/altere/ir.ts",
            "/tmp/collection",
            "child.md",
            Some("parent.md"),
        ),
        vec![
            "/opt/altere/ir.ts",
            "hierarchy",
            "set-parent",
            "--collection",
            "/tmp/collection",
            "--source",
            "child.md",
            "--parent",
            "parent.md",
        ]
    );
    assert_eq!(
        set_parent_invocation("/opt/altere/ir.ts", "/tmp/collection", "child.md", None),
        vec![
            "/opt/altere/ir.ts",
            "hierarchy",
            "set-parent",
            "--collection",
            "/tmp/collection",
            "--source",
            "child.md",
        ]
    );
}

#[test]
fn collapse_filters_only_descendants_from_the_bun_order() {
    let rows = forest();

    assert_eq!(
        visible_row_indices(&rows, &ids(&["child.md"])),
        vec![0, 1, 3, 4]
    );
    assert_eq!(visible_row_indices(&rows, &ids(&["root.md"])), vec![0, 4]);
}

#[test]
fn selection_survives_projection_refresh_by_stable_identity() {
    let rows = vec![
        row("root.md", None, 0, true),
        row("child.md", Some("root.md"), 1, false),
        row("other.md", None, 0, false),
    ];

    assert_eq!(
        selected_index_after_refresh(Some("child.md"), 0, &rows, &[0, 1, 2]),
        1
    );
    assert_eq!(
        selected_index_after_refresh(Some("child.md"), 1, &rows, &[0, 2]),
        1
    );
}

#[test]
fn optimistic_reparent_moves_the_complete_subtree_under_its_new_parent() {
    let rows = forest();

    let moved = optimistic_reparent(&rows, "child.md", Some("other.md")).unwrap();

    assert_eq!(
        moved
            .iter()
            .map(|row| (row.id.as_str(), row.parent_id.as_deref(), row.depth))
            .collect::<Vec<_>>(),
        vec![
            ("root.md", None, 0),
            ("sibling.md", Some("root.md"), 1),
            ("other.md", None, 0),
            ("child.md", Some("other.md"), 1),
            ("grandchild.md", Some("child.md"), 2),
        ]
    );
    assert!(
        moved
            .iter()
            .find(|row| row.id == "other.md")
            .unwrap()
            .has_children
    );
    assert!(
        moved
            .iter()
            .find(|row| row.id == "child.md")
            .unwrap()
            .has_children
    );
}

#[test]
fn optimistic_root_drop_promotes_the_subtree_without_flattening_it() {
    let rows = vec![
        row("root.md", None, 0, true),
        row("child.md", Some("root.md"), 1, true),
        row("grandchild.md", Some("child.md"), 2, false),
        row("other.md", None, 0, false),
    ];

    let moved = optimistic_reparent(&rows, "child.md", None).unwrap();
    let child = moved.iter().find(|row| row.id == "child.md").unwrap();
    let grandchild = moved.iter().find(|row| row.id == "grandchild.md").unwrap();

    assert_eq!((child.parent_id.as_deref(), child.depth), (None, 0));
    assert_eq!(
        (grandchild.parent_id.as_deref(), grandchild.depth),
        (Some("child.md"), 1)
    );
}

#[test]
fn optimistic_reparent_refuses_self_and_descendant_targets() {
    let rows = vec![
        row("root.md", None, 0, true),
        row("child.md", Some("root.md"), 1, true),
        row("grandchild.md", Some("child.md"), 2, false),
    ];

    assert!(optimistic_reparent(&rows, "child.md", Some("child.md")).is_none());
    assert!(optimistic_reparent(&rows, "child.md", Some("grandchild.md")).is_none());
}

#[test]
fn vim_navigation_clamps_at_visible_tree_edges() {
    assert_eq!(move_selection(0, 3, -1), 0);
    assert_eq!(move_selection(0, 3, 1), 1);
    assert_eq!(move_selection(2, 3, 1), 2);
    assert_eq!(move_selection(4, 0, -1), 0);
}

#[test]
fn reparent_refuses_unknown_rows_and_parents() {
    let rows = forest();

    assert!(optimistic_reparent(&rows, "missing.md", None).is_none());
    assert!(optimistic_reparent(&rows, "child.md", Some("missing.md")).is_none());
    assert!(optimistic_reparent(&[], "child.md", None).is_none());
}

#[test]
fn reparent_clears_the_mark_of_a_parent_without_children() {
    let rows = vec![
        row("root.md", None, 0, true),
        row("child.md", Some("root.md"), 1, false),
        row("other.md", None, 0, false),
    ];

    let moved = optimistic_reparent(&rows, "child.md", Some("other.md")).unwrap();

    assert_eq!(
        moved
            .iter()
            .map(|row| (row.id.as_str(), row.has_children))
            .collect::<Vec<_>>(),
        vec![("root.md", false), ("other.md", true), ("child.md", false)]
    );
}

#[test]
fn reparent_refuses_depths_that_no_machine_word_holds() {
    let rows = vec![
        row("deep.md", None, usize::MAX - 1, true),
        row("source.md", None, 0, true),
        row("leaf.md", Some("source.md"), 1, false),
    ];

    assert!(optimistic_reparent(&rows, "source.md", Some("deep.md")).is_none());
}

#[test]
fn moved_rows_stay_a_listing_of_the_same_rows() {
    let rows = forest();

    let moved = optimistic_reparent(&rows, "sibling.md", Some("grandchild.md")).unwrap();
    let mut before = rows.iter().map(|row| row.id.clone()).collect::<Vec<_>>();
    let mut after = moved.iter().map(|row| row.id.clone()).collect::<Vec<_>>();
    before.sort();
    after.sort();
    assert_eq!(before, after);

    for (index, row) in moved.iter().enumerate() {
        match &row.parent_id {
            None => assert_eq!(row.depth, 0),
            Some(parent) => {
                let above = moved[..index]
                    .iter()
                    .rev()
                    .find(|above| above.depth < row.depth)
                    .unwrap();
                assert_eq!((&above.id, above.depth + 1), (parent, row.depth));
            }
        }
    }
}

#[test]
fn a_panel_starts_where_it_was_docked() {
    assert_eq!(
        AltereKnowledgeTreePanel::load(Some("right")).position(),
        DockPosition::Right
    );
    assert_eq!(
        AltereKnowledgeTreePanel::load(Some("elsewhere")).position(),
        DockPosition::Left
    );
    assert_eq!(
        AltereKnowledgeTreePanel::load(None).position(),
        DockPosition::Left
    );
    let mut panel = AltereKnowledgeTreePanel::load(None);
    assert_eq!(panel.set_position(DockPosition::Bottom), "bottom");
    assert_eq!(panel.position(), DockPosition::Bottom);
    assert!(panel.position_is_valid(DockPosition::Right));
}

#[test]
fn a_refresh_keeps_the_selected_row() {
    let mut panel = panel();
    panel.select(3);
    assert_eq!(selected(&panel), Some("sibling.md"));

    let update = panel.finish_refresh(Ok(projection(vec![
        row("new.md", None, 0, false),
        row("root.md", None, 0, true),
        row("sibling.md", Some("root.md"), 1, false),
    ])));

    assert_eq!(selected(&panel), Some("sibling.md"));
    assert_eq!(
        update,
        ViewUpdate { reset_rows: Some(3), reveal_row: None, focus_panel: false, repaint: true }
    );

    panel.finish_refresh(Ok(projection(vec![row("only.md", None, 0, false)])));
    assert_eq!(selected(&panel), Some("only.md"));
    panel.finish_refresh(Ok(projection(Vec::new())));
    assert_eq!(selected(&panel), None);
}

#[test]
fn a_failed_refresh_keeps_the_rows_and_offers_a_retry() {
    let mut panel = panel();
    let before = shown(&panel);
    panel.refresh();
    assert!(matches!(
        panel.render_load_state(),
        Some(LoadBanner::Refreshing(text)) if text == "Refreshing…"
    ));

    panel.finish_refresh(Err("runtime offline".into()));

    assert_eq!(shown(&panel), before);
    assert!(matches!(
        panel.render_load_state(),
        Some(LoadBanner::Failed { message, retry_id, retry_label })
            if message == "runtime offline"
                && retry_id == "retry-altere-knowledge-tree"
                && retry_label == "Retry"
    ));
    assert!(matches!(
        AltereKnowledgeTreePanel::load(None).render_load_state(),
        Some(LoadBanner::Loading(text)) if text == "Loading knowledge tree…"
    ));
    assert!(matches!(LoadState::error("late".into()), LoadState::Error(message) if message == "late"));
}

#[test]
fn toggling_a_row_twice_shows_what_showed_before() {
    let mut panel = panel();
    let before = shown(&panel);

    panel.toggle_row("child.md");
    assert_eq!(shown(&panel), ["root.md", "child.md", "sibling.md", "other.md"]);
    panel.toggle_row("child.md");
    assert_eq!(shown(&panel), before);
}

#[test]
fn collapsing_keeps_the_selected_row_in_sight() {
    let mut panel = panel();
    panel.select(1);

    let update = panel.collapse_selected();
    assert_eq!(selected(&panel), Some("child.md"));
    assert_eq!(
        update,
        ViewUpdate {
            reset_rows: Some(4),
            reveal_row: Some(1),
            focus_panel: false,
            repaint: true
        }
    );
    assert_eq!(panel.collapse_selected(), ViewUpdate::none());
    panel.expand_selected();
    assert_eq!(shown(&panel).len(), 5);
    assert_eq!(panel.expand_selected(), ViewUpdate::none());

    panel.select(4);
    assert_eq!(panel.collapse_selected(), ViewUpdate::none());
}

#[test]
fn hiding_the_selected_row_selects_the_nearest_place() {
    let mut panel = panel();
    panel.select(2);
    panel.toggle_row("root.md");
    assert_eq!(shown(&panel), ["root.md", "other.md"]);
    assert_eq!(selected(&panel), Some("other.md"));
}

#[test]
fn a_move_shows_at_once_and_is_undone_where_it_is_refused() {
    let mut panel = panel();
    let before = shown(&panel);

    let request = panel
        .set_parent("child.md".into(), Some("other.md".into()))
        .unwrap();
    assert_eq!(request.source_id, "child.md");
    assert_eq!(request.parent_id.as_deref(), Some("other.md"));
    assert_eq!(
        shown(&panel),
        ["root.md", "sibling.md", "other.md", "child.md", "grandchild.md"]
    );
    assert_eq!(selected(&panel), Some("child.md"));
    assert_eq!(request.update.reveal_row, Some(3));

    let (_, refusal) = panel.finish_move(request.previous, Err("no such parent".into()));
    assert_eq!(refusal.as_deref(), Some("no such parent"));
    assert_eq!(shown(&panel), before);
    assert_eq!(selected(&panel), Some("child.md"));

    let request = panel.set_parent("child.md".into(), None).unwrap();
    let (_, refusal) = panel.finish_move(
        request.previous,
        Ok(projection(vec![row("fresh.md", None, 0, false)])),
    );
    assert_eq!(refusal, None);
    assert_eq!(shown(&panel), ["fresh.md"]);
}

#[test]
fn moves_that_cannot_be_made_change_nothing() {
    let mut empty = AltereKnowledgeTreePanel::load(None);
    assert!(empty.set_parent("child.md".into(), None).is_none());

    let mut panel = panel();
    let before = shown(&panel);
    assert!(panel.set_parent("child.md".into(), Some("child.md".into())).is_none());
    assert!(panel.set_parent("child.md".into(), Some("grandchild.md".into())).is_none());
    assert!(panel.set_parent("missing.md".into(), None).is_none());
    assert_eq!(shown(&panel), before);
}

#[test]
fn rows_show_their_level_and_take_other_rows() {
    let mut panel = panel();
    panel.select(1);

    let child = panel.render_row(1).unwrap();
    assert_eq!(child.label, "child.md at hierarchy level 2, child of root.md");
    assert_eq!(child.tooltip, "/tmp/collection/child.md");
    assert_eq!((child.height, child.indent_level, child.indent_step), (28, 2, 16));
    assert_eq!(child.disclosure, Some(true));
    assert!(child.selected && !child.file_icon);
    assert_eq!(child.item_id.name, "altere-knowledge-tree-row");
    assert_eq!(child.drag_id.place, Some(1));

    let other = panel.render_row(4).unwrap();
    assert_eq!(other.label, "other.md at hierarchy level 1");
    assert_eq!(other.disclosure, None);
    assert!(!other.selected && other.file_icon);
    assert!(!other.can_drop(&other.dragged));
    assert!(other.can_drop(&child.dragged));
    assert!(panel.render_row(5).is_none());

    panel.toggle_at(1, "child.md");
    assert_eq!(panel.render_row(1).unwrap().disclosure, Some(false));

    let dragged = DraggedHierarchyItem { id: "sibling.md".into(), name: "sibling.md".into() };
    let request = panel.drop_on(dragged, "other.md".into()).unwrap();
    assert_eq!(request.parent_id.as_deref(), Some("other.md"));
}

#[test]
fn the_tree_panel_names_its_state() {
    let empty = AltereKnowledgeTreePanel::load(None);
    let view = empty.render();
    assert_eq!((view.title.as_str(), view.count.as_str()), ("KNOWLEDGE TREE", "0"));
    assert_eq!(view.empty_text, None);
    assert_eq!(view.row_count, None);
    assert_eq!(empty.icon_label(), None);

    let mut panel = panel();
    let view = panel.render();
    assert_eq!(view.count, "5");
    assert_eq!(view.row_count, Some(5));
    assert_eq!(view.key_context, "AltereKnowledgeTree");
    assert_eq!(panel.icon_label().as_deref(), Some("5"));

    panel.finish_refresh(Ok(projection(Vec::new())));
    let view = panel.render();
    assert_eq!(view.empty_text.as_deref(), Some("The knowledge tree is empty."));
    assert_eq!(view.row_count, None);
}

#[test]
fn tree_actions_move_the_selection() {
    let mut panel = panel();
    panel.on_action(Action::SelectLast);
    assert_eq!(selected(&panel), Some("other.md"));
    panel.on_action(Action::SelectNext);
    assert_eq!(selected(&panel), Some("other.md"));
    panel.on_action(Action::SelectPrevious);
    assert_eq!(selected(&panel), Some("sibling.md"));
    panel.on_action(Action::SelectFirst);
    assert_eq!(selected(&panel), Some("root.md"));
    panel.on_action(Action::CollapseSelected);
    assert_eq!(shown(&panel), ["root.md", "other.md"]);
    panel.on_action(Action::ExpandSelected);
    assert_eq!(shown(&panel).len(), 5);
    assert!(matches!(
        panel.on_action(Action::OpenTreeItem),
        TreeEffect::Open(Some(path)) if path == "/tmp/collection/root.md"
    ));
    assert!(matches!(panel.on_action(Action::NextBuffer), TreeEffect::Unhandled));
    let (update, path) = panel.click_at(4);
    assert_eq!(update.reveal_row, Some(4));
    assert_eq!(path.as_deref(), Some("/tmp/collection/other.md"));

    let mut empty = AltereKnowledgeTreePanel::load(None);
    assert_eq!(empty.select_last(), ViewUpdate::none());
    assert_eq!(empty.select_next(), ViewUpdate::none());
    assert_eq!(empty.open_selected(), None);
}

#[test]
fn tree_commands_go_to_the_interpreter() {
    let command = load_command(&configuration());
    assert_eq!(command.program, "/opt/bun");
    assert_eq!(command.arguments[1..3], ["hierarchy", "tree"]);
    assert_eq!(command.input, None);

    let command = set_parent_command(&configuration(), "a.md", Some("b.md"));
    assert_eq!(command.arguments[5..], ["--source", "a.md", "--parent", "b.md"]);
}

#[test]
fn tree_answers_are_checked() {
    assert!(accept_projection(&output(true, b""), Some(projection(forest()))).is_ok());
    assert_eq!(
        accept_projection(&output(false, b" no\xff tree \n"), Some(projection(forest()))).err(),
        Some("Altere hierarchy runtime failed: no\u{fffd} tree".to_string())
    );
    assert_eq!(
        accept_projection(&output(true, b"ignored"), None).err(),
        Some("decoding the Altere hierarchy projection".to_string())
    );
    assert_eq!(
        accept_projection(
            &output(true, b""),
            Some(HierarchyProjection { version: 2, rows: forest() })
        )
        .err(),
        Some("unsupported Altere hierarchy projection".to_string())
    );
    assert_eq!(accept_move(&output(true, b"ignored")), None);
    assert_eq!(
        accept_move(&output(false, b"cycle")),
        Some("Altere hierarchy mutation failed: cycle".to_string())
    );
}

fn tree_result(action: ChangeAction) -> Result<Vec<String>, String> {
    match action {
        ChangeAction::Finish(result) => {
            result.map(|tree| tree.rows.into_iter().map(|row| row.id).collect())
        }
        _ => panic!("the change should be over"),
    }
}

#[test]
fn a_move_that_is_made_is_followed_by_a_load() {
    let (change, action) = set_parent("a.md", Some("b.md"), Ok(configuration()));
    assert!(matches!(
        action,
        ChangeAction::Run(command) if command.arguments[1..3] == ["hierarchy", "set-parent"]
    ));
    let early = ChangeEvent::Loaded { output: output(true, b""), decoded: None };
    let (change, action) = change.step(early);
    assert!(matches!(action, ChangeAction::Wait));
    let elsewhere = RuntimeConfiguration { collection: "/elsewhere".into(), ..configuration() };
    let (change, action) = change.step(ChangeEvent::Answered {
        output: output(true, b""),
        configuration: Ok(elsewhere),
    });
    assert!(matches!(
        action,
        ChangeAction::Run(command)
            if command.arguments[1..] == ["hierarchy", "tree", "--collection", "/elsewhere"]
    ));
    let (change, action) = change.step(ChangeEvent::Loaded {
        output: output(true, b""),
        decoded: Some(projection(vec![row("fresh.md", None, 0, false)])),
    });
    assert_eq!(tree_result(action), Ok(vec!["fresh.md".to_string()]));
    let (change, action) = change.step(ChangeEvent::Failed("late".into()));
    assert!(matches!(action, ChangeAction::Wait));
    assert!(matches!(change, Change::Finished));
}

#[test]
fn a_move_that_is_refused_loads_nothing() {
    let (_, action) = set_parent("a.md", None, Err(ConfigurationError::Interpreter));
    assert_eq!(tree_result(action), Err("ALTERE_BUN or HOME is required".to_string()));

    let (change, _) = set_parent("a.md", None, Ok(configuration()));
    let (change, action) = change.step(ChangeEvent::Answered {
        output: output(false, b"cycle"),
        configuration: Ok(configuration()),
    });
    assert_eq!(
        tree_result(action),
        Err("Altere hierarchy mutation failed: cycle".to_string())
    );
    assert!(matches!(change, Change::Finished));

    let (change, _) = set_parent("a.md", None, Ok(configuration()));
    let (_, action) = change.step(ChangeEvent::Answered {
        output: output(true, b""),
        configuration: Err(ConfigurationError::Collection),
    });
    assert_eq!(
        tree_result(action),
        Err("ALTERE_COLLECTION is required in Altere mode".to_string())
    );
}

#[test]
fn a_load_of_the_tree_can_fail() {
    let (change, action) = load_projection(Ok(configuration()));
    assert!(matches!(
        action,
        ChangeAction::Run(command) if command.arguments[1..3] == ["hierarchy", "tree"]
    ));
    let (_, action) =
        change.step(ChangeEvent::Loaded { output: output(true, b""), decoded: None });
    assert_eq!(
        tree_result(action),
        Err("decoding the Altere hierarchy projection".to_string())
    );
    let (change, _) = load_projection(Ok(configuration()));
    let (_, action) = change.step(ChangeEvent::Failed("no such file".into()));
    assert_eq!(tree_result(action), Err("no such file".to_string()));
    let (_, action) = load_projection(Err(ConfigurationError::Runtime));
    assert_eq!(
        tree_result(action),
        Err("ALTERE_RUNTIME is required in Altere mode".to_string())
    );
}
