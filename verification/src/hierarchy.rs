//! The knowledge tree as the runtime projects it: rows in depth-first order,
//! each with its depth, so that a row's descendants are the deeper rows that
//! follow it without a gap.

use crate::text::{copy_text, owned_text, same_text, texts};
use vstd::prelude::*;

verus! {

/// One row of the tree.
pub struct HierarchyProjectionRow {
    pub id: String,
    pub path: String,
    pub name: String,
    pub parent_id: Option<String>,
    pub depth: usize,
    pub has_children: bool,
}

/// The tree as it was projected, with the version of its format.
pub struct HierarchyProjection {
    pub version: u8,
    pub rows: Vec<HierarchyProjectionRow>,
}

/// What a row says.
pub struct RowView {
    pub id: Seq<char>,
    pub path: Seq<char>,
    pub name: Seq<char>,
    pub parent_id: Option<Seq<char>>,
    pub depth: nat,
    pub has_children: bool,
}

impl View for HierarchyProjectionRow {
    type V = RowView;

    open spec fn view(&self) -> RowView {
        RowView {
            id: self.id@,
            path: self.path@,
            name: self.name@,
            parent_id: owned_text(self.parent_id),
            depth: self.depth as nat,
            has_children: self.has_children,
        }
    }
}

/// What a sequence of rows says.
pub open spec fn row_views(rows: Seq<HierarchyProjectionRow>) -> Seq<RowView> {
    rows.map_values(|row: HierarchyProjectionRow| row@)
}

/// What a projection says.
pub struct HierarchyView {
    pub version: u8,
    pub rows: Seq<RowView>,
}

impl View for HierarchyProjection {
    type V = HierarchyView;

    open spec fn view(&self) -> HierarchyView {
        HierarchyView { version: self.version, rows: row_views(self.rows@) }
    }
}

impl Clone for HierarchyProjectionRow {
    fn clone(&self) -> (copy: Self)
        ensures
            copy@ == self@,
    {
        HierarchyProjectionRow {
            id: self.id.clone(),
            path: self.path.clone(),
            name: self.name.clone(),
            parent_id: copy_text(&self.parent_id),
            depth: self.depth,
            has_children: self.has_children,
        }
    }
}

/// Copies the rows from `from` up to `to`.
fn copy_rows(rows: &[HierarchyProjectionRow], from: usize, to: usize) -> (copies: Vec<
    HierarchyProjectionRow,
>)
    requires
        from <= to <= rows.len(),
    ensures
        row_views(copies@) == row_views(rows@).subrange(from as int, to as int),
{
    let mut copies: Vec<HierarchyProjectionRow> = Vec::new();
    let mut i: usize = from;
    while i < to
        invariant
            from <= i <= to <= rows.len(),
            row_views(copies@) == row_views(rows@).subrange(from as int, i as int),
        decreases to - i,
    {
        let ghost before = row_views(copies@);
        copies.push(rows[i].clone());
        assert(row_views(copies@) =~= before.push(row_views(rows@)[i as int]));
        assert(row_views(rows@).subrange(from as int, i + 1) =~= before.push(
            row_views(rows@)[i as int],
        ));
        i += 1;
    }
    copies
}

impl Clone for HierarchyProjection {
    fn clone(&self) -> (copy: Self)
        ensures
            copy@ == self@,
    {
        let rows = copy_rows(self.rows.as_slice(), 0, self.rows.len());
        assert(row_views(rows@) =~= self@.rows);
        HierarchyProjection { version: self.version, rows }
    }
}

/// A set of row identities, none of them held twice.
pub struct IdSet {
    ids: Vec<String>,
}

impl View for IdSet {
    type V = Set<Seq<char>>;

    closed spec fn view(&self) -> Set<Seq<char>> {
        texts(self.ids@).to_set()
    }
}

impl IdSet {
    /// Whether no identity is held twice.
    pub closed spec fn well_formed(&self) -> bool {
        texts(self.ids@).no_duplicates()
    }

    /// The empty set.
    pub fn new() -> (set: IdSet)
        ensures
            set.well_formed(),
            set@ == Set::<Seq<char>>::empty(),
    {
        let set = IdSet { ids: Vec::new() };
        assert(set@ =~= Set::<Seq<char>>::empty());
        set
    }

    fn find(&self, id: &str) -> (index: usize)
        ensures
            index <= self.ids.len(),
            index < self.ids.len() ==> self.ids@[index as int]@ == id@,
            (index < self.ids.len()) == self@.contains(id@),
    {
        let mut i: usize = 0;
        while i < self.ids.len()
            invariant
                i <= self.ids.len(),
                forall|j: int| 0 <= j < i ==> texts(self.ids@)[j] != id@,
            decreases self.ids.len() - i,
        {
            if same_text(self.ids[i].as_str(), id) {
                assert(texts(self.ids@)[i as int] == id@);
                return i;
            }
            i += 1;
        }
        i
    }

    /// Whether the set holds an identity.
    pub fn contains(&self, id: &str) -> (held: bool)
        ensures
            held == self@.contains(id@),
    {
        self.find(id) < self.ids.len()
    }

    /// Adds an identity; tells whether it was new.
    pub fn insert(&mut self, id: String) -> (added: bool)
        requires
            old(self).well_formed(),
        ensures
            final(self).well_formed(),
            final(self)@ == old(self)@.insert(id@),
            added == !old(self)@.contains(id@),
    {
        if self.contains(id.as_str()) {
            assert(self@ =~= self@.insert(id@));
            return false;
        }
        let ghost before = texts(self.ids@);
        self.ids.push(id);
        proof {
            let after = texts(self.ids@);
            assert(after =~= before.push(id@));
            assert forall|text: Seq<char>|
                after.to_set().contains(text) == before.to_set().insert(id@).contains(text) by {
                if before.contains(text) {
                    let i = choose|i: int| 0 <= i < before.len() && before[i] == text;
                    assert(after[i] == text);
                }
                if text == id@ {
                    assert(after[before.len() as int] == text);
                }
            }
            assert(after.to_set() =~= before.to_set().insert(id@));
        }
        true
    }

    /// Takes an identity out; tells whether it was there.
    pub fn remove(&mut self, id: &str) -> (removed: bool)
        requires
            old(self).well_formed(),
        ensures
            final(self).well_formed(),
            final(self)@ == old(self)@.remove(id@),
            removed == old(self)@.contains(id@),
    {
        let index = self.find(id);
        if index == self.ids.len() {
            assert(self@ =~= self@.remove(id@));
            return false;
        }
        let ghost before = texts(self.ids@);
        self.ids.remove(index);
        proof {
            let after = texts(self.ids@);
            assert(after =~= before.remove(index as int));
            assert forall|i: int, j: int| 0 <= i < after.len() && 0 <= j < after.len() && i
                != j implies after[i] != after[j] by {
                let a = if i < index {
                    i
                } else {
                    i + 1
                };
                let b = if j < index {
                    j
                } else {
                    j + 1
                };
                assert(after[i] == before[a]);
                assert(after[j] == before[b]);
            }
            assert forall|text: Seq<char>|
                after.to_set().contains(text) == before.to_set().remove(id@).contains(text) by {
                if after.contains(text) {
                    let i = choose|i: int| 0 <= i < after.len() && after[i] == text;
                    let a = if i < index {
                        i
                    } else {
                        i + 1
                    };
                    assert(before[a] == text);
                    assert(before[a] != before[index as int]);
                }
                if before.contains(text) && text != id@ {
                    let a = choose|a: int| 0 <= a < before.len() && before[a] == text;
                    let i = if a < index {
                        a
                    } else {
                        a - 1
                    };
                    assert(after[i] == text);
                }
            }
            assert(after.to_set() =~= before.to_set().remove(id@));
        }
        true
    }
}

/// Whether row `i` is a descendant of row `root`: the rows after `root` up to
/// and with `i` are all deeper than `root`.
pub open spec fn is_below(rows: Seq<RowView>, root: int, i: int) -> bool {
    &&& 0 <= root < i < rows.len()
    &&& forall|k: int| root < k <= i ==> (#[trigger] rows[k]).depth > rows[root].depth
}

/// Whether a collapsed row has row `i` among its descendants.
pub open spec fn is_hidden(rows: Seq<RowView>, collapsed: Set<Seq<char>>, i: int) -> bool {
    exists|root: int|
        #![trigger is_below(rows, root, i)]
        is_below(rows, root, i) && collapsed.contains(rows[root].id)
}

/// The first `count` rows without the hidden ones, by index and in order.
pub open spec fn visible_among(
    rows: Seq<RowView>,
    collapsed: Set<Seq<char>>,
    count: nat,
) -> Seq<int>
    decreases count,
{
    if count == 0 {
        seq![]
    } else {
        let earlier = visible_among(rows, collapsed, (count - 1) as nat);
        if is_hidden(rows, collapsed, count - 1) {
            earlier
        } else {
            earlier.push(count - 1)
        }
    }
}

/// The rows that show, by index and in the order of the projection.
pub open spec fn visible(rows: Seq<RowView>, collapsed: Set<Seq<char>>) -> Seq<int> {
    visible_among(rows, collapsed, rows.len())
}

/// The indices that a sequence of machine integers holds.
pub open spec fn indices(values: Seq<usize>) -> Seq<int> {
    values.map_values(|value: usize| value as int)
}

/// Lists the rows that no collapsed row hides.
pub fn visible_row_indices(rows: &[HierarchyProjectionRow], collapsed_ids: &IdSet) -> (shown: Vec<
    usize,
>)
    ensures
        indices(shown@) == visible(row_views(rows@), collapsed_ids@),
{
    let ghost views = row_views(rows@);
    let ghost collapsed = collapsed_ids@;
    let mut shown: Vec<usize> = Vec::new();
    let mut hidden_below_depth: Option<usize> = None;
    let mut i: usize = 0;
    while i < rows.len()
        invariant
            i <= rows.len(),
            views == row_views(rows@),
            collapsed == collapsed_ids@,
            indices(shown@) == visible_among(views, collapsed, i as nat),
            hidden_below_depth matches Some(depth) ==> exists|root: int|
                0 <= root < i && collapsed.contains((#[trigger] views[root]).id)
                    && views[root].depth == depth && open_run(views, root, i as int),
            forall|root: int|
                0 <= root < i && collapsed.contains((#[trigger] views[root]).id) && open_run(
                    views,
                    root,
                    i as int,
                ) ==> hidden_below_depth is Some && hidden_below_depth->0 <= views[root].depth,
        decreases rows.len() - i,
    {
        let ghost earlier = indices(shown@);
        let ghost depth_before = hidden_below_depth;
        assert(views[i as int] == rows@[i as int]@);
        let hidden = match hidden_below_depth {
            Some(depth) => rows[i].depth > depth,
            None => false,
        };
        proof {
            if hidden {
                let root = choose|root: int|
                    0 <= root < i && collapsed.contains((#[trigger] views[root]).id)
                        && views[root].depth == depth_before->0 && open_run(views, root, i as int);
                assert(is_below(views, root, i as int));
            } else if is_hidden(views, collapsed, i as int) {
                let root = choose|root: int|
                    #![trigger is_below(views, root, i as int)]
                    is_below(views, root, i as int) && collapsed.contains(views[root].id);
                assert(open_run(views, root, i as int));
                assert(views[i as int].depth > views[root].depth);
            }
            assert(hidden == is_hidden(views, collapsed, i as int));
        }
        if !hidden {
            hidden_below_depth = None;
            shown.push(i);
            assert(indices(shown@) =~= earlier.push(i as int));
            if collapsed_ids.contains(rows[i].id.as_str()) {
                hidden_below_depth = Some(rows[i].depth);
            }
        }
        proof {
            assert forall|root: int|
                0 <= root < i + 1 && collapsed.contains((#[trigger] views[root]).id) && open_run(
                    views,
                    root,
                    i + 1,
                ) implies hidden_below_depth is Some && hidden_below_depth->0
                <= views[root].depth by {
                if root < i {
                    assert(open_run(views, root, i as int));
                    assert(views[i as int].depth > views[root].depth);
                    assert(is_below(views, root, i as int));
                }
            }
            if hidden {
                let root = choose|root: int|
                    0 <= root < i && collapsed.contains((#[trigger] views[root]).id)
                        && views[root].depth == depth_before->0 && open_run(views, root, i as int);
                assert(open_run(views, root, i + 1));
            } else if hidden_below_depth is Some {
                assert(collapsed.contains(views[i as int].id));
                assert(open_run(views, i as int, i + 1));
            }
        }
        i += 1;
    }
    shown
}

/// Whether every row between `root` and `end` is deeper than `root`.
spec fn open_run(rows: Seq<RowView>, root: int, end: int) -> bool {
    forall|k: int| root < k < end ==> (#[trigger] rows[k]).depth > rows[root].depth
}

} // verus!
