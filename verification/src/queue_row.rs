//! A row of the priority queue as it shows: projected values, put into words and
//! columns. It decides nothing about the queue.

use crate::display::{cell_views, Cell, CellView, ElementId, ElementIdView, Role, Tone};
use crate::selection::ROW_HEIGHT;
use crate::text::{
    ascii_upper, decimal, decimal_text, in_upper_case, owned_text, repeat, repeated,
    repetitions_follow_each_other, to_upper_case, two_digit_decimal, two_digit_text,
};
use vstd::prelude::*;
use vstd::string::*;
use vstd::utf8::is_ascii_chars;

verus! {

/// The number of cells in which a claim is drawn.
pub const CLAIM_CELLS: usize = 10;

/// What a row shows. The percentile is written without decimals and the priority
/// as it is.
pub struct PriorityQueueRowData {
    rank: usize,
    percentile: String,
    claim_cells: usize,
    lane: String,
    name: String,
    priority: String,
    reads: usize,
}

/// What a row's values say.
pub struct RowDataView {
    pub rank: usize,
    pub percentile: Seq<char>,
    pub claim_cells: usize,
    pub lane: Seq<char>,
    pub name: Seq<char>,
    pub priority: Seq<char>,
    pub reads: usize,
}

impl View for PriorityQueueRowData {
    type V = RowDataView;

    closed spec fn view(&self) -> RowDataView {
        RowDataView {
            rank: self.rank,
            percentile: self.percentile@,
            claim_cells: self.claim_cells,
            lane: self.lane@,
            name: self.name@,
            priority: self.priority@,
            reads: self.reads,
        }
    }
}

impl Clone for PriorityQueueRowData {
    fn clone(&self) -> (copy: Self)
        ensures
            copy@ == self@,
    {
        PriorityQueueRowData {
            rank: self.rank,
            percentile: self.percentile.clone(),
            claim_cells: self.claim_cells,
            lane: self.lane.clone(),
            name: self.name.clone(),
            priority: self.priority.clone(),
            reads: self.reads,
        }
    }
}

/// What a row is called.
pub open spec fn spoken_label(data: RowDataView) -> Seq<char> {
    "Rank "@ + decimal(data.rank as nat) + ", percentile "@ + data.percentile + ", "@ + data.lane
        + ", "@ + data.name + ", priority "@ + data.priority + ", "@ + decimal(data.reads as nat)
        + " reads"@
}

impl PriorityQueueRowData {
    /// Collects what a row shows.
    pub fn new(
        rank: usize,
        percentile: String,
        claim_cells: usize,
        lane: String,
        name: String,
        priority: String,
        reads: usize,
    ) -> (data: PriorityQueueRowData)
        ensures
            data@ == (RowDataView {
                rank,
                percentile: percentile@,
                claim_cells,
                lane: lane@,
                name: name@,
                priority: priority@,
                reads,
            }),
    {
        PriorityQueueRowData { rank, percentile, claim_cells, lane, name, priority, reads }
    }

    /// What the row is called.
    pub fn accessibility_label(&self) -> (label: String)
        ensures
            label@ == spoken_label(self@),
    {
        let mut label = "Rank ".to_string();
        label.append(decimal_text(self.rank).as_str());
        label.append(", percentile ");
        label.append(self.percentile.as_str());
        label.append(", ");
        label.append(self.lane.as_str());
        label.append(", ");
        label.append(self.name.as_str());
        label.append(", priority ");
        label.append(self.priority.as_str());
        label.append(", ");
        label.append(decimal_text(self.reads).as_str());
        label.append(" reads");
        label
    }
}

/// A claim drawn in full and empty cells, all full where it is larger than what
/// there is room for.
pub open spec fn claim_bar(cells: nat) -> Seq<char> {
    let full = if cells < CLAIM_CELLS {
        cells
    } else {
        CLAIM_CELLS as nat
    };
    repeated("█"@, full) + repeated("░"@, (CLAIM_CELLS - full) as nat)
}

/// Draws a claim.
pub fn claim_text(cells: usize) -> (bar: String)
    ensures
        bar@ == claim_bar(cells as nat),
{
    let full: usize = if cells < CLAIM_CELLS {
        cells
    } else {
        CLAIM_CELLS
    };
    let mut bar = repeat("█", full);
    bar.append(repeat("░", CLAIM_CELLS - full).as_str());
    bar
}

/// The columns of a row, given what stands in the column for the lane.
pub open spec fn columns(data: RowDataView, lane: Seq<char>) -> Seq<CellView> {
    seq![
        CellView {
            width: Some(34),
            tone: Tone::Muted,
            text: two_digit_decimal(data.rank as nat),
        },
        CellView { width: Some(42), tone: Tone::Accent, text: data.percentile + "%"@ },
        CellView {
            width: Some(86),
            tone: Tone::Accent,
            text: claim_bar(data.claim_cells as nat),
        },
        CellView { width: Some(66), tone: Tone::Muted, text: lane },
        CellView { width: None, tone: Tone::Plain, text: data.name },
        CellView {
            width: None,
            tone: Tone::Muted,
            text: "p"@ + data.priority + " · r"@ + decimal(data.reads as nat),
        },
    ]
}

/// Puts a row into columns, given what stands in the column for the lane.
pub fn row_cells(data: &PriorityQueueRowData, lane: String) -> (cells: Vec<Cell>)
    ensures
        cell_views(cells@) == columns(data@, lane@),
{
    let mut percentile = data.percentile.clone();
    percentile.append("%");
    let mut standing = "p".to_string();
    standing.append(data.priority.as_str());
    standing.append(" · r");
    standing.append(decimal_text(data.reads).as_str());
    let cells = vec![
        Cell { width: Some(34), tone: Tone::Muted, text: two_digit_text(data.rank) },
        Cell { width: Some(42), tone: Tone::Accent, text: percentile },
        Cell { width: Some(86), tone: Tone::Accent, text: claim_text(data.claim_cells) },
        Cell { width: Some(66), tone: Tone::Muted, text: lane },
        Cell { width: None, tone: Tone::Plain, text: data.name.clone() },
        Cell { width: None, tone: Tone::Muted, text: standing },
    ];
    assert(cell_views(cells@) =~= columns(data@, lane@));
    cells
}

/// A row with what a click on it does.
pub struct PriorityQueueRow<H> {
    id: ElementId,
    data: PriorityQueueRowData,
    selected: bool,
    tooltip: Option<String>,
    on_click: Option<H>,
}

/// What a row is made of.
pub struct QueueRowParts<H> {
    pub id: ElementIdView,
    pub data: RowDataView,
    pub selected: bool,
    pub tooltip: Option<Seq<char>>,
    pub on_click: Option<H>,
}

impl<H> View for PriorityQueueRow<H> {
    type V = QueueRowParts<H>;

    closed spec fn view(&self) -> QueueRowParts<H> {
        QueueRowParts {
            id: self.id@,
            data: self.data@,
            selected: self.selected,
            tooltip: owned_text(self.tooltip),
            on_click: self.on_click,
        }
    }
}

/// A row as it shows: an item of a list with a height, a label, columns and,
/// where it has them, a tooltip and what a click does.
pub struct QueueRowElement<H> {
    pub id: ElementId,
    pub height: usize,
    pub selected: bool,
    pub role: Role,
    pub label: String,
    pub tooltip: Option<String>,
    pub on_click: Option<H>,
    pub cells: Vec<Cell>,
}

/// What a shown row says.
pub struct QueueRowView<H> {
    pub id: ElementIdView,
    pub height: usize,
    pub selected: bool,
    pub role: Role,
    pub label: Seq<char>,
    pub tooltip: Option<Seq<char>>,
    pub on_click: Option<H>,
    pub cells: Seq<CellView>,
}

impl<H> View for QueueRowElement<H> {
    type V = QueueRowView<H>;

    open spec fn view(&self) -> QueueRowView<H> {
        QueueRowView {
            id: self.id@,
            height: self.height,
            selected: self.selected,
            role: self.role,
            label: self.label@,
            tooltip: owned_text(self.tooltip),
            on_click: self.on_click,
            cells: cell_views(self.cells@),
        }
    }
}

/// How a row shows.
pub open spec fn row_display<H>(row: QueueRowParts<H>) -> QueueRowView<H> {
    QueueRowView {
        id: row.id,
        height: ROW_HEIGHT,
        selected: row.selected,
        role: Role::ListItem,
        label: spoken_label(row.data),
        tooltip: row.tooltip,
        on_click: row.on_click,
        cells: columns(row.data, in_upper_case(row.data.lane)),
    }
}

/// The part of the catalogue of components that one belongs to.
#[derive(Clone, Copy, Debug, PartialEq, Eq, Structural)]
pub enum ComponentScope {
    Altere,
}

/// A row in the catalogue of components, at a width in pixels.
pub struct Specimen<H> {
    pub title: String,
    pub width: usize,
    pub row: PriorityQueueRow<H>,
}

/// What a specimen shows: an ordinary row under a name, selected or not.
pub open spec fn is_specimen<H>(
    specimen: Specimen<H>,
    title: Seq<char>,
    id: Seq<char>,
    width: usize,
    name: Seq<char>,
    selected: bool,
) -> bool {
    &&& specimen.title@ == title
    &&& specimen.width == width
    &&& specimen.row@ == QueueRowParts {
        id: ElementIdView { name: id, place: None },
        data: RowDataView {
            rank: 3,
            percentile: "12"@,
            claim_cells: 7,
            lane: "reading"@,
            name,
            priority: "25"@,
            reads: 4,
        },
        selected,
        tooltip: None,
        on_click: None::<H>,
    }
}

impl<H> PriorityQueueRow<H> {
    /// The title under which the specimens stand.
    pub const PREVIEW_TITLE: &'static str = "Altere Priority Queue Row";

    /// A row that is not selected, without a tooltip and without a reaction to
    /// clicks.
    pub fn new(id: ElementId, data: PriorityQueueRowData) -> (row: PriorityQueueRow<H>)
        ensures
            row@ == (QueueRowParts {
                id: id@,
                data: data@,
                selected: false,
                tooltip: None,
                on_click: None::<H>,
            }),
    {
        PriorityQueueRow { id, data, selected: false, tooltip: None, on_click: None }
    }

    /// The row, selected or not.
    pub fn selected(self, selected: bool) -> (row: PriorityQueueRow<H>)
        ensures
            row@ == (QueueRowParts { selected, ..self@ }),
    {
        PriorityQueueRow { selected, ..self }
    }

    /// The row with a tooltip.
    pub fn tooltip(self, tooltip: String) -> (row: PriorityQueueRow<H>)
        ensures
            row@ == (QueueRowParts { tooltip: Some(tooltip@), ..self@ }),
    {
        PriorityQueueRow { tooltip: Some(tooltip), ..self }
    }

    /// The row with a reaction to clicks.
    pub fn on_click(self, handler: H) -> (row: PriorityQueueRow<H>)
        ensures
            row@ == (QueueRowParts { on_click: Some(handler), ..self@ }),
    {
        PriorityQueueRow { on_click: Some(handler), ..self }
    }

    /// Shows the row.
    pub fn render(self) -> (element: QueueRowElement<H>)
        ensures
            element@ == row_display(self@),
            is_ascii_chars(self@.data.lane) ==> element@.cells[3].text
                == self@.data.lane.map_values(|c: char| ascii_upper(c)),
    {
        let lane = to_upper_case(self.data.lane.as_str());
        let cells = row_cells(&self.data, lane);
        QueueRowElement {
            id: self.id,
            height: ROW_HEIGHT,
            selected: self.selected,
            role: Role::ListItem,
            label: self.data.accessibility_label(),
            tooltip: self.tooltip,
            on_click: self.on_click,
            cells,
        }
    }

    /// Where the row stands in the catalogue of components.
    pub fn scope() -> (scope: ComponentScope)
        ensures
            scope == ComponentScope::Altere,
    {
        ComponentScope::Altere
    }

    /// What the catalogue says of the row.
    pub fn description() -> (text: &'static str)
        ensures
            text@
                == "A projected Altere priority queue row. It formats immutable display data and owns no queue rules."@,
    {
        "A projected Altere priority queue row. It formats immutable display data and owns no queue rules."
    }

    fn specimen(title: &str, id: &str, width: usize, name: &str, selected: bool) -> (specimen:
        Specimen<H>)
        ensures
            is_specimen(specimen, title@, id@, width, name@, selected),
    {
        let data = PriorityQueueRowData::new(
            3,
            "12".to_string(),
            7,
            "reading".to_string(),
            name.to_string(),
            "25".to_string(),
            4,
        );
        Specimen {
            title: title.to_string(),
            width,
            row: PriorityQueueRow::new(ElementId::named(id), data).selected(selected),
        }
    }

    /// The specimens for the catalogue of components: an ordinary row, a selected
    /// one, and a long name in a narrow panel.
    pub fn preview() -> (specimens: [Specimen<H>; 3])
        ensures
            is_specimen(
                specimens@[0],
                "Representative"@,
                "altere-row-representative"@,
                900,
                "example.md"@,
                false,
            ),
            is_specimen(
                specimens@[1],
                "Selected"@,
                "altere-row-selected"@,
                900,
                "example.md"@,
                true,
            ),
            is_specimen(
                specimens@[2],
                "Narrow"@,
                "altere-row-narrow"@,
                320,
                "a-very-long-reading-name-that-must-not-break-the-panel.md"@,
                false,
            ),
    {
        [
            Self::specimen(
                "Representative",
                "altere-row-representative",
                900,
                "example.md",
                false,
            ),
            Self::specimen("Selected", "altere-row-selected", 900, "example.md", true),
            Self::specimen(
                "Narrow",
                "altere-row-narrow",
                320,
                "a-very-long-reading-name-that-must-not-break-the-panel.md",
                false,
            ),
        ]
    }
}

proof fn lemma_repeated_len(text: Seq<char>, count: nat)
    requires
        text.len() == 1,
    ensures
        repeated(text, count).len() == count,
    decreases count,
{
    if count > 0 {
        lemma_repeated_len(text, (count - 1) as nat);
    }
}

/// A claim is drawn in the same number of cells, whatever it is.
pub proof fn claims_are_drawn_alike(cells: nat)
    ensures
        claim_bar(cells).len() == CLAIM_CELLS,
{
    reveal_strlit("█");
    reveal_strlit("░");
    assert("█"@.len() == 1 && "░"@.len() == 1);
    let full = if cells < CLAIM_CELLS {
        cells
    } else {
        CLAIM_CELLS as nat
    };
    lemma_repeated_len("█"@, full);
    lemma_repeated_len("░"@, (CLAIM_CELLS - full) as nat);
}

/// A claim is drawn as that many full cells, but at most all of them, followed by empty
/// ones.
pub proof fn claims_fill_from_the_left(cells: nat, i: int)
    requires
        0 <= i < 10,
    ensures
        claim_bar(cells).len() == 10,
        claim_bar(cells)[i] == if i < cells {
            '█'
        } else {
            '░'
        },
{
    reveal_strlit("█");
    reveal_strlit("░");
    assert("█"@.len() == 1 && "░"@.len() == 1);
    assert("█"@[0] == '█' && "░"@[0] == '░');
    claims_are_drawn_alike(cells);
    let full = if cells < CLAIM_CELLS {
        cells
    } else {
        CLAIM_CELLS as nat
    };
    lemma_repeated_len("█"@, full);
    if i < full {
        repetitions_follow_each_other("█"@, full, i);
    } else {
        repetitions_follow_each_other("░"@, (CLAIM_CELLS - full) as nat, i - full);
    }
}

/// A row is called by its rank, percentile, lane, name, priority and reads, in this order
/// and each as it is.
pub proof fn labels_say_every_value(data: RowDataView)
    ensures
        spoken_label(data) == "Rank "@ + decimal(data.rank as nat) + ", percentile "@
            + data.percentile + ", "@ + data.lane + ", "@ + data.name + ", priority "@
            + data.priority + ", "@ + decimal(data.reads as nat) + " reads"@,
{
}

/// A row has six columns: its rank on two digits, its percentile, its claim, the lane that
/// is given, its name, and its priority with its reads.
pub proof fn columns_show_every_value(data: RowDataView, lane: Seq<char>)
    ensures
        ({
            let cells = columns(data, lane);
            &&& cells.len() == 6
            &&& cells[0].text == two_digit_decimal(data.rank as nat)
            &&& cells[0].width == Some(34usize)
            &&& cells[0].tone is Muted
            &&& cells[1].text == data.percentile + "%"@
            &&& cells[1].width == Some(42usize)
            &&& cells[1].tone is Accent
            &&& cells[2].text == claim_bar(data.claim_cells as nat)
            &&& cells[2].width == Some(86usize)
            &&& cells[2].tone is Accent
            &&& cells[3].text == lane
            &&& cells[3].width == Some(66usize)
            &&& cells[3].tone is Muted
            &&& cells[4].text == data.name
            &&& cells[4].width is None
            &&& cells[4].tone is Plain
            &&& cells[5].text == "p"@ + data.priority + " · r"@ + decimal(data.reads as nat)
            &&& cells[5].width is None
            &&& cells[5].tone is Muted
        }),
{
}

/// A row shows as an item of a list with what it was given: its identity, selection,
/// tooltip and reaction to clicks are not touched, and its lane is in upper case.
pub proof fn rows_show_what_they_were_given<H>(row: QueueRowParts<H>)
    ensures
        row_display(row).id == row.id,
        row_display(row).height == 28,
        row_display(row).selected == row.selected,
        row_display(row).role is ListItem,
        row_display(row).label == spoken_label(row.data),
        row_display(row).tooltip == row.tooltip,
        row_display(row).on_click == row.on_click,
        row_display(row).cells == columns(row.data, in_upper_case(row.data.lane)),
{
}

/// A shown row says what it holds.
pub proof fn shown_rows_say_what_they_hold<H>(row: QueueRowElement<H>)
    ensures
        row@.id == row.id@,
        row@.height == row.height,
        row@.selected == row.selected,
        row@.role == row.role,
        row@.label == row.label@,
        row@.tooltip == owned_text(row.tooltip),
        row@.on_click == row.on_click,
        row@.cells.len() == row.cells@.len(),
        forall|i: int| 0 <= i < row.cells@.len() ==> #[trigger] row@.cells[i] == row.cells@[i]@,
{
}

} // verus!
