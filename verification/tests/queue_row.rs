use altere_workbench::display::{ElementId, Role, Tone};
use altere_workbench::queue_row::{
    claim_text, row_cells, ComponentScope, PriorityQueueRow, PriorityQueueRowData,
};

fn data(rank: usize, claim_cells: usize, lane: &str) -> PriorityQueueRowData {
    PriorityQueueRowData::new(
        rank,
        format!("{:.0}", 12.0f32),
        claim_cells,
        lane.to_string(),
        "example.md".to_string(),
        format!("{}", 25.0f32),
        4,
    )
}

#[test]
fn accessibility_label_is_derived_only_from_projected_display_data() {
    let row = data(3, 7, "reading");

    assert_eq!(
        row.accessibility_label(),
        "Rank 3, percentile 12, reading, example.md, priority 25, 4 reads"
    );
}

#[test]
fn claims_fill_ten_cells() {
    assert_eq!(claim_text(0), "░░░░░░░░░░");
    assert_eq!(claim_text(7), "███████░░░");
    assert_eq!(claim_text(10), "██████████");
    assert_eq!(claim_text(99), "██████████");
}

#[test]
fn rows_are_put_into_columns() {
    let row = PriorityQueueRow::new(ElementId::numbered("row", 2), data(3, 7, "straße"))
        .selected(true)
        .tooltip("where it is".to_string())
        .on_click("open");
    let element = row.render();

    assert_eq!(
        element
            .cells
            .iter()
            .map(|cell| (cell.width, cell.tone, cell.text.as_str()))
            .collect::<Vec<_>>(),
        vec![
            (Some(34), Tone::Muted, "03"),
            (Some(42), Tone::Accent, "12%"),
            (Some(86), Tone::Accent, "███████░░░"),
            (Some(66), Tone::Muted, "STRASSE"),
            (None, Tone::Plain, "example.md"),
            (None, Tone::Muted, "p25 · r4"),
        ]
    );
    assert_eq!(element.height, 28);
    assert_eq!(element.role, Role::ListItem);
    assert!(element.selected);
    assert_eq!(element.tooltip.as_deref(), Some("where it is"));
    assert_eq!(element.on_click, Some("open"));
    assert_eq!(element.id, ElementId::numbered("row", 2));
}

#[test]
fn a_new_row_is_plain() {
    let element = PriorityQueueRow::<()>::new(ElementId::named("row"), data(123, 1, "a")).render();

    assert!(!element.selected);
    assert_eq!(element.tooltip, None);
    assert_eq!(element.on_click, None);
    assert_eq!(element.cells[0].text, "123");
    assert_eq!(element.cells[3].text, "A");
    let copy = data(1, 2, "x").clone();
    assert_eq!(row_cells(&copy, "LANE".to_string())[3].text, "LANE");
}

#[test]
fn the_catalogue_shows_three_specimens() {
    let specimens = PriorityQueueRow::<()>::preview();
    let shown = specimens.map(|specimen| {
        let element = specimen.row.render();
        (
            specimen.title,
            element.id.name,
            specimen.width,
            element.cells[4].text.clone(),
            element.selected,
        )
    });

    assert_eq!(
        shown,
        [
            (
                "Representative".to_string(),
                "altere-row-representative".to_string(),
                900,
                "example.md".to_string(),
                false
            ),
            (
                "Selected".to_string(),
                "altere-row-selected".to_string(),
                900,
                "example.md".to_string(),
                true
            ),
            (
                "Narrow".to_string(),
                "altere-row-narrow".to_string(),
                320,
                "a-very-long-reading-name-that-must-not-break-the-panel.md".to_string(),
                false
            ),
        ]
    );
    assert_eq!(PriorityQueueRow::<()>::scope(), ComponentScope::Altere);
    assert_eq!(PriorityQueueRow::<()>::PREVIEW_TITLE, "Altere Priority Queue Row");
    assert!(PriorityQueueRow::<()>::description().contains("owns no queue rules"));
}
