//! Moving a row of the knowledge tree, with everything below it, under another
//! row or to the roots, ahead of the runtime's answer.

use crate::hierarchy::{row_views, HierarchyProjectionRow, RowView};
use crate::text::{borrow_text, borrowed_text, is_text, same_text};
use vstd::prelude::*;

verus! {

/// The first row from `from` on with the given identity, or the row count.
pub open spec fn index_from(rows: Seq<RowView>, id: Seq<char>, from: int) -> int
    decreases rows.len() - from,
{
    if 0 <= from < rows.len() && rows[from].id != id {
        index_from(rows, id, from + 1)
    } else {
        from
    }
}

/// The first row with the given identity, or the row count where none has it.
pub open spec fn index_of(rows: Seq<RowView>, id: Seq<char>) -> int {
    index_from(rows, id, 0)
}

/// Whether some row has the given identity.
pub open spec fn has_id(rows: Seq<RowView>, id: Seq<char>) -> bool {
    exists|i: int| 0 <= i < rows.len() && (#[trigger] rows[i]).id == id
}

/// The end of the run of rows from `from` on that are deeper than `depth`.
pub open spec fn run_end(rows: Seq<RowView>, depth: nat, from: int) -> int
    decreases rows.len() - from,
{
    if 0 <= from < rows.len() && rows[from].depth > depth {
        run_end(rows, depth, from + 1)
    } else {
        from
    }
}

/// The end of a row's subtree: of the row itself and the deeper rows after it.
pub open spec fn subtree_end(rows: Seq<RowView>, root: int) -> int {
    run_end(rows, rows[root].depth, root + 1)
}

/// The rows of a subtree, its root first.
pub open spec fn subtree(rows: Seq<RowView>, root: int) -> Seq<RowView> {
    rows.subrange(root, subtree_end(rows, root))
}

/// The rows outside a subtree, in their order.
pub open spec fn without_subtree(rows: Seq<RowView>, root: int) -> Seq<RowView> {
    rows.subrange(0, root) + rows.subrange(subtree_end(rows, root), rows.len() as int)
}

/// Where a subtree goes among the other rows, and the depth that its root gets
/// there: behind everything below the parent, or behind everything.
pub open spec fn landing(rest: Seq<RowView>, parent_id: Option<Seq<char>>) -> (int, nat) {
    match parent_id {
        Some(id) => {
            let parent = index_of(rest, id);
            (subtree_end(rest, parent), rest[parent].depth + 1)
        },
        None => (rest.len() as int, 0),
    }
}

/// A subtree at another depth and under another parent; rows below its root
/// keep their parents and their depth relative to the root.
pub open spec fn replanted(
    moved: Seq<RowView>,
    parent_id: Option<Seq<char>>,
    depth: nat,
) -> Seq<RowView> {
    Seq::new(
        moved.len(),
        |i: int|
            RowView {
                parent_id: if i == 0 {
                    parent_id
                } else {
                    moved[i].parent_id
                },
                depth: (moved[i].depth - moved[0].depth + depth) as nat,
                ..moved[i]
            },
    )
}

/// Whether some row names `id` as its parent.
pub open spec fn is_a_parent(rows: Seq<RowView>, id: Seq<char>) -> bool {
    exists|i: int| 0 <= i < rows.len() && (#[trigger] rows[i]).parent_id == Some(id)
}

/// The rows, each marked as having children where another one names it as its
/// parent.
pub open spec fn marked(rows: Seq<RowView>) -> Seq<RowView> {
    rows.map_values(
        |row: RowView| RowView { has_children: is_a_parent(rows, row.id), ..row },
    )
}

/// Whether a subtree's depths can be held at their new place: the change fits a
/// signed machine word and every new depth an unsigned one.
pub open spec fn depths_fit(moved: Seq<RowView>, depth: nat) -> bool {
    &&& isize::MIN <= depth - moved[0].depth <= isize::MAX
    &&& forall|i: int|
        0 <= i < moved.len() ==> (#[trigger] moved[i]).depth - moved[0].depth + depth <= usize::MAX
}

/// Whether the move can be made: the row is there, the parent is there and not
/// the row itself or below it, and the depths fit.
pub open spec fn can_reparent(
    rows: Seq<RowView>,
    source_id: Seq<char>,
    parent_id: Option<Seq<char>>,
) -> bool {
    let source = index_of(rows, source_id);
    let rest = without_subtree(rows, source);
    &&& has_id(rows, source_id)
    &&& parent_id matches Some(id) ==> !has_id(subtree(rows, source), id) && has_id(rest, id)
    &&& depths_fit(subtree(rows, source), landing(rest, parent_id).1)
}

/// The rows after the move.
pub open spec fn reparented(
    rows: Seq<RowView>,
    source_id: Seq<char>,
    parent_id: Option<Seq<char>>,
) -> Seq<RowView> {
    let source = index_of(rows, source_id);
    let rest = without_subtree(rows, source);
    let (place, depth) = landing(rest, parent_id);
    marked(
        rest.take(place) + replanted(subtree(rows, source), parent_id, depth) + rest.skip(place),
    )
}

proof fn lemma_index_from(rows: Seq<RowView>, id: Seq<char>, from: int)
    requires
        0 <= from <= rows.len(),
    ensures
        from <= index_from(rows, id, from) <= rows.len(),
        index_from(rows, id, from) < rows.len() ==> rows[index_from(rows, id, from)].id == id,
        forall|i: int| from <= i < index_from(rows, id, from) ==> (#[trigger] rows[i]).id != id,
    decreases rows.len() - from,
{
    if from < rows.len() && rows[from].id != id {
        lemma_index_from(rows, id, from + 1);
    }
}

/// The first row with an identity has it, and no earlier row does.
pub(crate) proof fn lemma_index_of(rows: Seq<RowView>, id: Seq<char>)
    ensures
        0 <= index_of(rows, id) <= rows.len(),
        index_of(rows, id) < rows.len() ==> rows[index_of(rows, id)].id == id,
        forall|i: int| 0 <= i < index_of(rows, id) ==> (#[trigger] rows[i]).id != id,
        has_id(rows, id) == (index_of(rows, id) < rows.len()),
{
    lemma_index_from(rows, id, 0);
}

pub(crate) proof fn lemma_run_end(rows: Seq<RowView>, depth: nat, from: int)
    requires
        0 <= from <= rows.len(),
    ensures
        from <= run_end(rows, depth, from) <= rows.len(),
        forall|i: int| from <= i < run_end(rows, depth, from) ==> (#[trigger] rows[i]).depth > depth,
        run_end(rows, depth, from) < rows.len() ==> rows[run_end(rows, depth, from)].depth <= depth,
    decreases rows.len() - from,
{
    if from < rows.len() && rows[from].depth > depth {
        lemma_run_end(rows, depth, from + 1);
    }
}

/// Finds the first row with an identity; the row count where none has it.
fn find_row(rows: &[HierarchyProjectionRow], id: &str) -> (index: usize)
    ensures
        index == index_of(row_views(rows@), id@),
        index <= rows.len(),
        (index < rows.len()) == has_id(row_views(rows@), id@),
{
    let ghost views = row_views(rows@);
    let mut i: usize = 0;
    proof {
        lemma_index_of(views, id@);
    }
    while i < rows.len()
        invariant
            i <= rows.len(),
            views == row_views(rows@),
            index_of(views, id@) == index_from(views, id@, i as int),
            has_id(views, id@) == (index_of(views, id@) < views.len()),
        decreases rows.len() - i,
    {
        assert(views[i as int] == rows@[i as int]@);
        if same_text(rows[i].id.as_str(), id) {
            return i;
        }
        i += 1;
    }
    i
}

/// Finds the end of a row's subtree.
fn find_subtree_end(rows: &[HierarchyProjectionRow], root: usize) -> (end: usize)
    requires
        root < rows.len(),
    ensures
        end == subtree_end(row_views(rows@), root as int),
        root < end <= rows.len(),
{
    let ghost views = row_views(rows@);
    let depth = rows[root].depth;
    assert(views[root as int] == rows@[root as int]@);
    let mut end: usize = root + 1;
    while end < rows.len() && rows[end].depth > depth
        invariant
            root < end <= rows.len(),
            views == row_views(rows@),
            run_end(views, depth as nat, root + 1) == run_end(views, depth as nat, end as int),
        decreases rows.len() - end,
    {
        assert(views[end as int] == rows@[end as int]@);
        end += 1;
    }
    proof {
        if end < rows.len() {
            assert(views[end as int] == rows@[end as int]@);
        }
    }
    end
}

/// Appends copies of the rows from `from` up to `to`.
fn append_rows(
    target: &mut Vec<HierarchyProjectionRow>,
    rows: &[HierarchyProjectionRow],
    from: usize,
    to: usize,
)
    requires
        from <= to <= rows.len(),
    ensures
        row_views(final(target)@) == row_views(old(target)@) + row_views(rows@).subrange(
            from as int,
            to as int,
        ),
{
    let ghost start = row_views(target@);
    let ghost views = row_views(rows@);
    let mut i: usize = from;
    assert(start + views.subrange(from as int, i as int) =~= start);
    while i < to
        invariant
            from <= i <= to <= rows.len(),
            views == row_views(rows@),
            row_views(target@) == start + views.subrange(from as int, i as int),
        decreases to - i,
    {
        let ghost before = row_views(target@);
        target.push(rows[i].clone());
        assert(row_views(target@) =~= before.push(views[i as int]));
        assert(start + views.subrange(from as int, i + 1) =~= before.push(views[i as int]));
        i += 1;
    }
}

/// Appends copies of a subtree at its new depth and under its new parent;
/// `false` where a depth does not fit.
fn append_replanted(
    target: &mut Vec<HierarchyProjectionRow>,
    moved: &[HierarchyProjectionRow],
    parent_id: Option<&str>,
    depth: usize,
) -> (fits: bool)
    requires
        moved.len() > 0,
        forall|i: int|
            0 <= i < moved.len() ==> (#[trigger] row_views(moved@)[i]).depth >= row_views(
                moved@,
            )[0].depth,
    ensures
        fits == depths_fit(row_views(moved@), depth as nat),
        fits ==> row_views(final(target)@) == row_views(old(target)@) + replanted(
            row_views(moved@),
            borrowed_text(parent_id),
            depth as nat,
        ),
{
    let ghost start = row_views(target@);
    let ghost views = row_views(moved@);
    let ghost parent = borrowed_text(parent_id);
    let ghost planted = replanted(views, parent, depth as nat);
    assert(views[0] == moved@[0]@);
    let old_depth = moved[0].depth;
    if depth >= old_depth {
        if depth - old_depth > isize::MAX as usize {
            return false;
        }
    } else if old_depth - depth > isize::MAX as usize + 1 {
        return false;
    }
    let mut i: usize = 0;
    assert(start + planted.take(0) =~= start);
    while i < moved.len()
        invariant
            i <= moved.len(),
            moved.len() > 0,
            views == row_views(moved@),
            old_depth == views[0].depth,
            parent == borrowed_text(parent_id),
            planted == replanted(views, parent, depth as nat),
            isize::MIN <= depth - old_depth <= isize::MAX,
            forall|k: int| 0 <= k < views.len() ==> (#[trigger] views[k]).depth >= old_depth,
            forall|k: int|
                0 <= k < i ==> (#[trigger] views[k]).depth - old_depth + depth <= usize::MAX,
            row_views(target@) == start + planted.take(i as int),
        decreases moved.len() - i,
    {
        let ghost before = row_views(target@);
        assert(views[i as int] == moved@[i as int]@);
        let mut row = moved[i].clone();
        let below: usize = row.depth - old_depth;
        if below > usize::MAX - depth {
            assert(views[i as int].depth - old_depth + depth > usize::MAX);
            return false;
        }
        row.depth = depth + below;
        if i == 0 {
            row.parent_id = match parent_id {
                Some(id) => Some(id.to_string()),
                None => None,
            };
        }
        target.push(row);
        assert(row@ == planted[i as int]);
        assert(row_views(target@) =~= before.push(planted[i as int]));
        assert(start + planted.take(i + 1) =~= before.push(planted[i as int]));
        i += 1;
    }
    assert(planted.take(i as int) =~= planted);
    true
}

/// Whether some row names an identity as its parent.
fn names_as_parent(rows: &[HierarchyProjectionRow], id: &str) -> (named: bool)
    ensures
        named == is_a_parent(row_views(rows@), id@),
{
    let ghost views = row_views(rows@);
    let mut i: usize = 0;
    while i < rows.len()
        invariant
            i <= rows.len(),
            views == row_views(rows@),
            forall|k: int| 0 <= k < i ==> (#[trigger] views[k]).parent_id != Some(id@),
        decreases rows.len() - i,
    {
        assert(views[i as int] == rows@[i as int]@);
        if is_text(borrow_text(&rows[i].parent_id), id) {
            return true;
        }
        i += 1;
    }
    false
}

/// Marks every row that another one names as its parent.
fn mark_parents(rows: Vec<HierarchyProjectionRow>) -> (result: Vec<HierarchyProjectionRow>)
    ensures
        row_views(result@) == marked(row_views(rows@)),
{
    let ghost views = row_views(rows@);
    let mut result: Vec<HierarchyProjectionRow> = Vec::new();
    let mut i: usize = 0;
    assert(row_views(result@) =~= marked(views).take(0));
    while i < rows.len()
        invariant
            i <= rows.len(),
            views == row_views(rows@),
            row_views(result@) == marked(views).take(i as int),
        decreases rows.len() - i,
    {
        let ghost before = row_views(result@);
        assert(views[i as int] == rows@[i as int]@);
        let mut row = rows[i].clone();
        row.has_children = names_as_parent(rows.as_slice(), row.id.as_str());
        result.push(row);
        assert(row@ == marked(views)[i as int]);
        assert(row_views(result@) =~= before.push(marked(views)[i as int]));
        assert(marked(views).take(i + 1) =~= before.push(marked(views)[i as int]));
        i += 1;
    }
    assert(marked(views).take(i as int) =~= marked(views));
    result
}

/// Moves a row and everything below it under another row, or to the roots.
///
/// `None` where the row or the parent is not there, where the parent is the row
/// itself or below it, and where a depth would not fit.
pub fn optimistic_reparent(
    rows: &[HierarchyProjectionRow],
    source_id: &str,
    parent_id: Option<&str>,
) -> (moved: Option<Vec<HierarchyProjectionRow>>)
    ensures
        moved is Some == can_reparent(row_views(rows@), source_id@, borrowed_text(parent_id)),
        moved matches Some(result) ==> row_views(result@) == reparented(
            row_views(rows@),
            source_id@,
            borrowed_text(parent_id),
        ),
{
    let ghost views = row_views(rows@);
    let ghost parent = borrowed_text(parent_id);
    let source = find_row(rows, source_id);
    if source == rows.len() {
        return None;
    }
    let end = find_subtree_end(rows, source);
    let mut subtree_rows: Vec<HierarchyProjectionRow> = Vec::new();
    append_rows(&mut subtree_rows, rows, source, end);
    let ghost moved = subtree(views, source as int);
    assert(row_views(subtree_rows@) =~= moved);

    if let Some(id) = parent_id {
        if find_row(subtree_rows.as_slice(), id) < subtree_rows.len() {
            return None;
        }
    }
    let mut rest_rows: Vec<HierarchyProjectionRow> = Vec::new();
    append_rows(&mut rest_rows, rows, 0, source);
    append_rows(&mut rest_rows, rows, end, rows.len());
    let ghost rest = without_subtree(views, source as int);
    assert(row_views(rest_rows@) =~= rest);

    proof {
        lemma_run_end(views, views[source as int].depth, source + 1);
        assert forall|i: int| 0 <= i < moved.len() implies (#[trigger] moved[i]).depth
            >= moved[0].depth by {
            assert(moved[i] == views[source + i]);
        }
        assert(subtree_rows.len() == moved.len());
    }

    let (place, depth) = match parent_id {
        Some(id) => {
            let parent_index = find_row(rest_rows.as_slice(), id);
            if parent_index == rest_rows.len() {
                return None;
            }
            assert(rest[parent_index as int] == rest_rows@[parent_index as int]@);
            let parent_depth = rest_rows[parent_index].depth;
            if parent_depth == usize::MAX {
                assert(moved[0].depth - moved[0].depth + landing(rest, parent).1 > usize::MAX);
                return None;
            }
            (find_subtree_end(rest_rows.as_slice(), parent_index), parent_depth + 1)
        },
        None => (rest_rows.len(), 0),
    };
    assert((place as int, depth as nat) == landing(rest, parent));

    let mut reordered: Vec<HierarchyProjectionRow> = Vec::new();
    append_rows(&mut reordered, rest_rows.as_slice(), 0, place);
    if !append_replanted(&mut reordered, subtree_rows.as_slice(), parent_id, depth) {
        return None;
    }
    append_rows(&mut reordered, rest_rows.as_slice(), place, rest_rows.len());
    assert(row_views(reordered@) =~= rest.take(place as int) + replanted(
        moved,
        parent,
        depth as nat,
    ) + rest.skip(place as int));
    Some(mark_parents(reordered))
}

} // verus!
