//! What the knowledge tree promises as a whole: which rows a collapse hides,
//! and what a move keeps.

use crate::hierarchy::{is_below, is_hidden, visible, visible_among, RowView};
use crate::reparent::{
    can_reparent, depths_fit, has_id, index_from, index_of, is_a_parent, landing, lemma_index_of,
    lemma_run_end, marked, reparented, replanted, run_end, subtree, subtree_end, without_subtree,
};
use vstd::prelude::*;

verus! {

/// Whether row `parent` is the parent of row `i`: the nearest row above it that
/// is one level less deep, and the one that it names.
pub open spec fn is_parent_row(rows: Seq<RowView>, parent: int, i: int) -> bool {
    &&& is_below(rows, parent, i)
    &&& rows[parent].depth + 1 == rows[i].depth
    &&& rows[i].parent_id == Some(rows[parent].id)
}

/// Whether a row hangs where it says: at the roots without a parent, else below
/// the parent that it names.
pub open spec fn is_attached(rows: Seq<RowView>, i: int) -> bool {
    if rows[i].depth == 0 {
        rows[i].parent_id is None
    } else {
        exists|parent: int| is_parent_row(rows, parent, i)
    }
}

/// Whether no two rows share an identity.
pub open spec fn distinct_ids(rows: Seq<RowView>) -> bool {
    forall|i: int, j: int|
        0 <= i < j < rows.len() ==> (#[trigger] rows[i]).id != (#[trigger] rows[j]).id
}

/// Whether rows are the depth-first listing of a forest: distinct, and each at the
/// place that its depth and its parent say.
pub open spec fn hangs_together(rows: Seq<RowView>) -> bool {
    &&& distinct_ids(rows)
    &&& forall|i: int| 0 <= i < rows.len() ==> #[trigger] is_attached(rows, i)
}

/// Whether rows are the listing of a forest in which a row is marked as having
/// children exactly where some row names it as its parent.
pub open spec fn is_forest(rows: Seq<RowView>) -> bool {
    &&& hangs_together(rows)
    &&& forall|i: int|
        0 <= i < rows.len() ==> (#[trigger] rows[i]).has_children == is_a_parent(rows, rows[i].id)
}

/// Where the row at index `i` outside a subtree stood before it was cut out.
spec fn origin(rows: Seq<RowView>, root: int, i: int) -> int {
    if i < root {
        i
    } else {
        i + (subtree_end(rows, root) - root)
    }
}

proof fn lemma_origin(rows: Seq<RowView>, root: int)
    requires
        0 <= root < rows.len(),
    ensures
        root < subtree_end(rows, root) <= rows.len(),
        without_subtree(rows, root).len() + subtree(rows, root).len() == rows.len(),
        subtree(rows, root).len() == subtree_end(rows, root) - root,
        forall|i: int|
            0 <= i < without_subtree(rows, root).len() ==> #[trigger] without_subtree(rows, root)[i]
                == rows[origin(rows, root, i)],
        forall|i: int|
            0 <= i < subtree(rows, root).len() ==> #[trigger] subtree(rows, root)[i] == rows[root
                + i],
        forall|i: int|
            0 < i < subtree(rows, root).len() ==> (#[trigger] subtree(rows, root)[i]).depth
                > rows[root].depth,
        subtree_end(rows, root) < rows.len() ==> rows[subtree_end(rows, root)].depth
            <= rows[root].depth,
{
    lemma_run_end(rows, rows[root].depth, root + 1);
}

proof fn lemma_rest_is_attached(rows: Seq<RowView>, root: int)
    requires
        0 <= root < rows.len(),
        forall|i: int| 0 <= i < rows.len() ==> #[trigger] is_attached(rows, i),
    ensures
        forall|i: int|
            0 <= i < without_subtree(rows, root).len() ==> #[trigger] is_attached(
                without_subtree(rows, root),
                i,
            ),
{
    let rest = without_subtree(rows, root);
    let end = subtree_end(rows, root);
    lemma_origin(rows, root);
    assert forall|i: int| 0 <= i < rest.len() implies #[trigger] is_attached(rest, i) by {
        let o = origin(rows, root, i);
        assert(rest[i] == rows[o]);
        assert(is_attached(rows, o));
        if rest[i].depth > 0 {
            let parent = choose|parent: int| is_parent_row(rows, parent, o);
            if root <= parent < end {
                assert(end <= o);
                assert(rows[end].depth > rows[parent].depth);
                if parent > root {
                    assert(subtree(rows, root)[parent - root] == rows[parent]);
                }
                assert(false);
            }
            let p = if parent < root {
                parent
            } else {
                parent - (end - root)
            };
            assert(rest[p] == rows[parent]);
            assert forall|k: int| p < k <= i implies (#[trigger] rest[k]).depth
                > rest[p].depth by {
                assert(rest[k] == rows[origin(rows, root, k)]);
                assert(parent < origin(rows, root, k) <= o);
            }
            assert(is_parent_row(rest, p, i));
        }
    }
}

/// The rows of a move before they are marked.
spec fn spliced(
    rows: Seq<RowView>,
    source_id: Seq<char>,
    parent_id: Option<Seq<char>>,
) -> Seq<RowView> {
    let source = index_of(rows, source_id);
    let rest = without_subtree(rows, source);
    let (place, depth) = landing(rest, parent_id);
    rest.take(place) + replanted(subtree(rows, source), parent_id, depth) + rest.skip(place)
}

/// What holds of the parts of a move that can be made.
proof fn lemma_parts(rows: Seq<RowView>, source_id: Seq<char>, parent_id: Option<Seq<char>>)
    requires
        can_reparent(rows, source_id, parent_id),
    ensures
        ({
            let source = index_of(rows, source_id);
            let rest = without_subtree(rows, source);
            let moved = subtree(rows, source);
            let (place, depth) = landing(rest, parent_id);
            let out = spliced(rows, source_id, parent_id);
            &&& 0 <= source < rows.len()
            &&& rows[source].id == source_id
            &&& moved.len() > 0
            &&& 0 <= place <= rest.len()
            &&& out.len() == rows.len()
            &&& forall|i: int| 0 <= i < place ==> #[trigger] out[i] == rest[i]
            &&& forall|i: int|
                0 <= i < moved.len() ==> out[place + i] == #[trigger] replanted(
                    moved,
                    parent_id,
                    depth,
                )[i]
            &&& forall|i: int|
                place <= i < rest.len() ==> out[moved.len() + i] == #[trigger] rest[i]
            &&& parent_id is None ==> place == rest.len() && depth == 0
            &&& parent_id matches Some(id) ==> {
                let parent = index_of(rest, id);
                &&& 0 <= parent < place
                &&& rest[parent].id == id
                &&& depth == rest[parent].depth + 1
                &&& forall|k: int|
                    parent < k < place ==> (#[trigger] rest[k]).depth > rest[parent].depth
                &&& place < rest.len() ==> rest[place].depth <= rest[parent].depth
            }
        }),
{
    let source = index_of(rows, source_id);
    let rest = without_subtree(rows, source);
    lemma_index_of(rows, source_id);
    lemma_origin(rows, source);
    if let Some(id) = parent_id {
        lemma_index_of(rest, id);
        let parent = index_of(rest, id);
        lemma_run_end(rest, rest[parent].depth, parent + 1);
    }
}

/// Whether `out` is `rest` with `planted` put in at `place`.
spec fn is_splice(
    rest: Seq<RowView>,
    planted: Seq<RowView>,
    place: int,
    out: Seq<RowView>,
) -> bool {
    &&& 0 <= place <= rest.len()
    &&& out.len() == rest.len() + planted.len()
    &&& forall|i: int| 0 <= i < place ==> #[trigger] out[i] == rest[i]
    &&& forall|i: int|
        place <= i < place + planted.len() ==> #[trigger] out[i] == planted[i - place]
    &&& forall|i: int|
        place + planted.len() <= i < out.len() ==> #[trigger] out[i] == rest[i - planted.len()]
}

proof fn lemma_attached_before(
    rest: Seq<RowView>,
    planted: Seq<RowView>,
    place: int,
    out: Seq<RowView>,
    i: int,
)
    requires
        is_splice(rest, planted, place, out),
        0 <= i < place,
        is_attached(rest, i),
    ensures
        is_attached(out, i),
{
    assert(out[i] == rest[i]);
    if out[i].depth > 0 {
        let p = choose|p: int| is_parent_row(rest, p, i);
        assert(out[p] == rest[p]);
        assert forall|k: int| p < k <= i implies (#[trigger] out[k]).depth > out[p].depth by {
            assert(out[k] == rest[k]);
        }
        assert(is_parent_row(out, p, i));
    }
}

proof fn lemma_attached_after(
    rest: Seq<RowView>,
    planted: Seq<RowView>,
    place: int,
    out: Seq<RowView>,
    r: int,
)
    requires
        is_splice(rest, planted, place, out),
        place <= r < rest.len(),
        is_attached(rest, r),
        forall|k: int| 0 <= k < planted.len() ==> (#[trigger] planted[k]).depth >= rest[place].depth,
    ensures
        is_attached(out, r + planted.len()),
{
    let m = planted.len() as int;
    let i = r + m;
    assert(out[i] == rest[r]);
    if out[i].depth > 0 {
        let p = choose|p: int| is_parent_row(rest, p, r);
        let q = if p < place {
            p
        } else {
            p + m
        };
        assert(out[q] == rest[p]);
        assert forall|k: int| q < k <= i implies (#[trigger] out[k]).depth > out[q].depth by {
            if k < place {
                assert(out[k] == rest[k]);
            } else if k < place + m {
                assert(rest[place].depth > rest[p].depth);
                assert(out[k] == planted[k - place]);
            } else {
                assert(out[k] == rest[k - m]);
            }
        }
        assert(is_parent_row(out, q, i));
    }
}

proof fn lemma_attached_within(
    rows: Seq<RowView>,
    root: int,
    parent_id: Option<Seq<char>>,
    depth: nat,
    rest: Seq<RowView>,
    place: int,
    out: Seq<RowView>,
    j: int,
)
    requires
        0 <= root < rows.len(),
        is_splice(rest, replanted(subtree(rows, root), parent_id, depth), place, out),
        0 < j < subtree(rows, root).len(),
        is_attached(rows, root + j),
    ensures
        is_attached(out, place + j),
{
    let moved = subtree(rows, root);
    let planted = replanted(moved, parent_id, depth);
    lemma_origin(rows, root);
    let o = root + j;
    let i = place + j;
    assert(moved[j] == rows[o]);
    assert(out[i] == planted[j]);
    let p = choose|p: int| is_parent_row(rows, p, o);
    if p < root {
        assert(rows[root].depth > rows[p].depth);
        assert(false);
    }
    let q = place + (p - root);
    assert(out[q] == planted[p - root]);
    assert(moved[p - root] == rows[p]);
    assert forall|k: int| q < k <= i implies (#[trigger] out[k]).depth > out[q].depth by {
        assert(out[k] == planted[k - place]);
        assert(moved[k - place] == rows[root + (k - place)]);
        assert(rows[root + (k - place)].depth > rows[p].depth);
    }
    assert(is_parent_row(out, q, i));
}

proof fn lemma_spliced_is_attached(
    rows: Seq<RowView>,
    source_id: Seq<char>,
    parent_id: Option<Seq<char>>,
)
    requires
        can_reparent(rows, source_id, parent_id),
        forall|i: int| 0 <= i < rows.len() ==> #[trigger] is_attached(rows, i),
    ensures
        forall|i: int|
            0 <= i < spliced(rows, source_id, parent_id).len() ==> #[trigger] is_attached(
                spliced(rows, source_id, parent_id),
                i,
            ),
{
    let source = index_of(rows, source_id);
    let rest = without_subtree(rows, source);
    let moved = subtree(rows, source);
    let (place, depth) = landing(rest, parent_id);
    let planted = replanted(moved, parent_id, depth);
    let out = spliced(rows, source_id, parent_id);
    lemma_parts(rows, source_id, parent_id);
    lemma_origin(rows, source);
    lemma_rest_is_attached(rows, source);
    assert(is_splice(rest, planted, place, out));
    assert forall|i: int| 0 <= i < out.len() implies #[trigger] is_attached(out, i) by {
        if i < place {
            assert(is_attached(rest, i));
            lemma_attached_before(rest, planted, place, out, i);
        } else if i == place {
            assert(out[i] == planted[0]);
            if let Some(id) = parent_id {
                let p = index_of(rest, id);
                assert(out[p] == rest[p]);
                assert forall|k: int| p < k <= i implies (#[trigger] out[k]).depth
                    > out[p].depth by {
                    if k < place {
                        assert(out[k] == rest[k]);
                    }
                }
                assert(is_parent_row(out, p, i));
            }
        } else if i < place + moved.len() {
            assert(is_attached(rows, source + (i - place)));
            lemma_attached_within(rows, source, parent_id, depth, rest, place, out, i - place);
        } else {
            assert(is_attached(rest, i - moved.len()));
            lemma_attached_after(rest, planted, place, out, i - moved.len());
        }
    }
}

/// The identities of rows, in their order.
pub open spec fn ids(rows: Seq<RowView>) -> Seq<Seq<char>> {
    rows.map_values(|row: RowView| row.id)
}

/// A move loses no row and invents none.
pub proof fn reparent_keeps_every_row(
    rows: Seq<RowView>,
    source_id: Seq<char>,
    parent_id: Option<Seq<char>>,
)
    requires
        can_reparent(rows, source_id, parent_id),
    ensures
        reparented(rows, source_id, parent_id).len() == rows.len(),
        ids(reparented(rows, source_id, parent_id)).to_multiset() == ids(rows).to_multiset(),
{
    let source = index_of(rows, source_id);
    let end = subtree_end(rows, source);
    let rest = without_subtree(rows, source);
    let moved = subtree(rows, source);
    let (place, depth) = landing(rest, parent_id);
    let out = reparented(rows, source_id, parent_id);
    lemma_parts(rows, source_id, parent_id);
    lemma_origin(rows, source);
    let a = ids(rows.subrange(0, source));
    let b = ids(moved);
    let c = ids(rows.subrange(end, rows.len() as int));
    let d = ids(rest.take(place));
    let e = ids(rest.skip(place));
    assert(ids(rows) =~= a + b + c);
    assert(ids(rest) =~= a + c);
    assert(ids(rest) =~= d + e);
    assert(ids(out) =~= d + b + e) by {
        assert(out =~= marked(spliced(rows, source_id, parent_id)));
        assert forall|i: int| 0 <= i < out.len() implies ids(out)[i] == #[trigger] (d + b + e)[i] by {
            if place <= i < place + moved.len() {
                assert(spliced(rows, source_id, parent_id)[place + (i - place)] == replanted(
                    moved,
                    parent_id,
                    depth,
                )[i - place]);
            }
        }
    }
    vstd::seq_lib::lemma_multiset_commutative(a + b, c);
    vstd::seq_lib::lemma_multiset_commutative(a, b);
    vstd::seq_lib::lemma_multiset_commutative(a, c);
    vstd::seq_lib::lemma_multiset_commutative(d + b, e);
    vstd::seq_lib::lemma_multiset_commutative(d, b);
    vstd::seq_lib::lemma_multiset_commutative(d, e);
    let (a, b, c, d, e) = (
        a.to_multiset(),
        b.to_multiset(),
        c.to_multiset(),
        d.to_multiset(),
        e.to_multiset(),
    );
    assert(a.add(c) == d.add(e));
    assert(ids(rows).to_multiset() == a.add(b).add(c));
    assert(ids(out).to_multiset() == d.add(b).add(e));
    assert(a.add(b).add(c) =~= a.add(c).add(b));
    assert(d.add(b).add(e) =~= d.add(e).add(b));
}

proof fn lemma_spliced_ids_are_distinct(
    rows: Seq<RowView>,
    source_id: Seq<char>,
    parent_id: Option<Seq<char>>,
)
    requires
        distinct_ids(rows),
        can_reparent(rows, source_id, parent_id),
    ensures
        distinct_ids(spliced(rows, source_id, parent_id)),
{
    let source = index_of(rows, source_id);
    let rest = without_subtree(rows, source);
    let moved = subtree(rows, source);
    let (place, depth) = landing(rest, parent_id);
    let out = spliced(rows, source_id, parent_id);
    lemma_parts(rows, source_id, parent_id);
    lemma_origin(rows, source);
    assert forall|i: int, j: int| 0 <= i < j < out.len() implies (#[trigger] out[i]).id != (
    #[trigger] out[j]).id by {
        let m = moved.len() as int;
        let x = if i < place {
            origin(rows, source, i)
        } else if i < place + m {
            source + (i - place)
        } else {
            origin(rows, source, i - m)
        };
        let y = if j < place {
            origin(rows, source, j)
        } else if j < place + m {
            source + (j - place)
        } else {
            origin(rows, source, j - m)
        };
        if i < place {
            assert(out[i] == rest[i]);
        } else if i < place + m {
            assert(out[place + (i - place)] == replanted(moved, parent_id, depth)[i - place]);
        } else {
            assert(out[m + (i - m)] == rest[i - m]);
        }
        if j < place {
            assert(out[j] == rest[j]);
        } else if j < place + m {
            assert(out[place + (j - place)] == replanted(moved, parent_id, depth)[j - place]);
        } else {
            assert(out[m + (j - m)] == rest[j - m]);
        }
        assert(out[i].id == rows[x].id);
        assert(out[j].id == rows[y].id);
        assert(x != y);
        assert(rows[x].id != rows[y].id);
    }
}

/// Moving a row of a forest gives a forest again, with every mark right, whatever
/// the marks were before.
pub proof fn reparent_keeps_the_forest(
    rows: Seq<RowView>,
    source_id: Seq<char>,
    parent_id: Option<Seq<char>>,
)
    requires
        hangs_together(rows),
        can_reparent(rows, source_id, parent_id),
    ensures
        is_forest(reparented(rows, source_id, parent_id)),
{
    let source = index_of(rows, source_id);
    let rest = without_subtree(rows, source);
    let moved = subtree(rows, source);
    let (place, depth) = landing(rest, parent_id);
    let before = spliced(rows, source_id, parent_id);
    let out = reparented(rows, source_id, parent_id);
    lemma_parts(rows, source_id, parent_id);
    lemma_origin(rows, source);
    lemma_spliced_is_attached(rows, source_id, parent_id);
    assert(out == marked(before));
    assert forall|i: int| 0 <= i < out.len() implies #[trigger] is_attached(out, i) by {
        assert(is_attached(before, i));
        if out[i].depth > 0 {
            let p = choose|p: int| is_parent_row(before, p, i);
            assert forall|k: int| p < k <= i implies (#[trigger] out[k]).depth
                > out[p].depth by {
                assert(before[k].depth > before[p].depth);
            }
            assert(is_parent_row(out, p, i));
        }
    }
    assert forall|i: int| 0 <= i < out.len() implies (#[trigger] out[i]).has_children
        == is_a_parent(out, out[i].id) by {
        if is_a_parent(before, out[i].id) {
            let k = choose|k: int|
                0 <= k < before.len() && (#[trigger] before[k]).parent_id == Some(out[i].id);
            assert(out[k].parent_id == Some(out[i].id));
        }
        if is_a_parent(out, out[i].id) {
            let k = choose|k: int|
                0 <= k < out.len() && (#[trigger] out[k]).parent_id == Some(out[i].id);
            assert(before[k].parent_id == Some(out[i].id));
        }
    }
    lemma_spliced_ids_are_distinct(rows, source_id, parent_id);
    assert forall|i: int, j: int| 0 <= i < j < out.len() implies (#[trigger] out[i]).id != (
    #[trigger] out[j]).id by {
        assert(before[i].id != before[j].id);
    }
}

/// A row cannot be moved under itself or under a row below it.
pub proof fn reparent_refuses_its_own_subtree(
    rows: Seq<RowView>,
    source_id: Seq<char>,
    parent: int,
)
    requires
        has_id(rows, source_id),
        parent == index_of(rows, source_id) || is_below(rows, index_of(rows, source_id), parent),
    ensures
        !can_reparent(rows, source_id, Some(rows[parent].id)),
{
    let source = index_of(rows, source_id);
    lemma_index_of(rows, source_id);
    lemma_origin(rows, source);
    let end = subtree_end(rows, source);
    if end <= parent {
        assert(rows[end].depth > rows[source].depth);
    }
    assert(subtree(rows, source)[parent - source] == rows[parent]);
}

/// Whether two rows are the same item at the same depth under the same parent.
pub open spec fn same_standing(left: RowView, right: RowView) -> bool {
    &&& left.id == right.id
    &&& left.path == right.path
    &&& left.name == right.name
    &&& left.parent_id == right.parent_id
    &&& left.depth == right.depth
}

/// A moved row stands under the parent that was asked for, as its last child,
/// or last among the roots.
pub proof fn reparent_reaches_its_parent(
    rows: Seq<RowView>,
    source_id: Seq<char>,
    parent_id: Option<Seq<char>>,
)
    requires
        distinct_ids(rows),
        can_reparent(rows, source_id, parent_id),
    ensures
        ({
            let out = reparented(rows, source_id, parent_id);
            let at = index_of(out, source_id);
            &&& at < out.len()
            &&& out[at].parent_id == parent_id
            &&& parent_id is None ==> out[at].depth == 0 && subtree_end(out, at) == out.len()
            &&& parent_id matches Some(id) ==> {
                let parent = index_of(out, id);
                &&& is_parent_row(out, parent, at)
                &&& subtree_end(out, at) == subtree_end(out, parent)
                &&& out[parent].has_children
            }
        }),
{
    let source = index_of(rows, source_id);
    let rest = without_subtree(rows, source);
    let (place, depth) = landing(rest, parent_id);
    let out = reparented(rows, source_id, parent_id);
    let m = subtree(rows, source).len() as int;
    lemma_parts(rows, source_id, parent_id);
    lemma_landed(rows, source_id, parent_id);
    if let Some(id) = parent_id {
        let parent = index_of(rest, id);
        lemma_index_of(out, id);
        assert(out[parent].id == id);
        if index_of(out, id) != parent {
            assert(out[index_of(out, id)].id != out[parent].id);
        }
        lemma_run_end(out, out[parent].depth, parent + 1);
        let end = subtree_end(out, parent);
        assert forall|k: int| parent < k < place + m implies (#[trigger] out[k]).depth
            > out[parent].depth by {
            if k < place {
                assert(out[k].depth == rest[k].depth);
            } else {
                assert(out[k].depth >= out[place].depth);
            }
        }
        if end < place + m {
            assert(out[end].depth > out[parent].depth);
        }
        if place + m < end {
            assert(out[place + m].depth == rest[place].depth);
        }
        assert(out[place].parent_id == Some(out[parent].id));
    }
}

/// Where a moved subtree ends up.
proof fn lemma_landed(rows: Seq<RowView>, source_id: Seq<char>, parent_id: Option<Seq<char>>)
    requires
        distinct_ids(rows),
        can_reparent(rows, source_id, parent_id),
    ensures
        ({
            let source = index_of(rows, source_id);
            let rest = without_subtree(rows, source);
            let moved = subtree(rows, source);
            let (place, depth) = landing(rest, parent_id);
            let out = reparented(rows, source_id, parent_id);
            &&& out.len() == rows.len()
            &&& distinct_ids(out)
            &&& index_of(out, source_id) == place
            &&& subtree_end(out, place) == place + moved.len()
            &&& forall|i: int| 0 <= i < place ==> same_standing(#[trigger] out[i], rest[i])
            &&& forall|i: int|
                place <= i < place + moved.len() ==> same_standing(
                    #[trigger] out[i],
                    replanted(moved, parent_id, depth)[i - place],
                )
            &&& forall|i: int|
                place + moved.len() <= i < out.len() ==> same_standing(
                    #[trigger] out[i],
                    rest[i - moved.len()],
                )
            &&& forall|i: int|
                place <= i < place + moved.len() ==> (#[trigger] out[i]).depth >= out[place].depth
        }),
{
    let source = index_of(rows, source_id);
    let rest = without_subtree(rows, source);
    let moved = subtree(rows, source);
    let (place, depth) = landing(rest, parent_id);
    let planted = replanted(moved, parent_id, depth);
    let before = spliced(rows, source_id, parent_id);
    let out = reparented(rows, source_id, parent_id);
    lemma_parts(rows, source_id, parent_id);
    lemma_origin(rows, source);
    lemma_spliced_ids_are_distinct(rows, source_id, parent_id);
    assert(is_splice(rest, planted, place, before));
    assert forall|i: int| 0 <= i < out.len() implies same_standing(#[trigger] out[i], before[i]) by {
    }
    assert forall|i: int| place < i < place + moved.len() implies (#[trigger] out[i]).depth
        > out[place].depth by {
        assert(moved[i - place].depth > rows[source].depth);
        assert(before[i] == planted[i - place]);
    }
    assert(distinct_ids(out)) by {
        assert forall|i: int, j: int| 0 <= i < j < out.len() implies (#[trigger] out[i]).id != (
        #[trigger] out[j]).id by {
            assert(before[i].id != before[j].id);
        }
    }
    assert(out[place].id == source_id);
    lemma_index_of(out, source_id);
    if index_of(out, source_id) < place {
        assert(out[index_of(out, source_id)].id != out[place].id);
    }
    lemma_run_end(out, out[place].depth, place + 1);
    let end = subtree_end(out, place);
    if end < place + moved.len() {
        assert(out[end].depth > out[place].depth);
    }
    if place + moved.len() < end {
        assert(before[place + moved.len()] == rest[place]);
        assert(out[place + moved.len()].depth > out[place].depth);
    }
}

/// A move takes the whole subtree along, in its order and shape, and leaves
/// every other row in its order and standing.
pub proof fn reparent_keeps_the_subtree_together(
    rows: Seq<RowView>,
    source_id: Seq<char>,
    parent_id: Option<Seq<char>>,
)
    requires
        distinct_ids(rows),
        can_reparent(rows, source_id, parent_id),
    ensures
        ({
            let out = reparented(rows, source_id, parent_id);
            let before = subtree(rows, index_of(rows, source_id));
            let after = subtree(out, index_of(out, source_id));
            let others_before = without_subtree(rows, index_of(rows, source_id));
            let others_after = without_subtree(out, index_of(out, source_id));
            &&& ids(after) == ids(before)
            &&& forall|i: int|
                0 <= i < after.len() ==> (#[trigger] after[i]).path == before[i].path
                    && after[i].name == before[i].name
            &&& forall|i: int|
                0 < i < after.len() ==> (#[trigger] after[i]).parent_id == before[i].parent_id
            &&& forall|i: int|
                0 <= i < after.len() ==> (#[trigger] after[i]).depth - after[0].depth
                    == before[i].depth - before[0].depth
            &&& others_after.len() == others_before.len()
            &&& forall|i: int|
                0 <= i < others_after.len() ==> {
                    &&& (#[trigger] others_after[i]).id == others_before[i].id
                    &&& others_after[i].path == others_before[i].path
                    &&& others_after[i].name == others_before[i].name
                    &&& others_after[i].parent_id == others_before[i].parent_id
                    &&& others_after[i].depth == others_before[i].depth
                }
        }),
{
    let source = index_of(rows, source_id);
    let out = reparented(rows, source_id, parent_id);
    let at = index_of(out, source_id);
    lemma_parts(rows, source_id, parent_id);
    lemma_origin(rows, source);
    lemma_landed(rows, source_id, parent_id);
    lemma_origin(out, at);
    let before = subtree(rows, source);
    let after = subtree(out, at);
    assert forall|i: int| 0 <= i < after.len() implies (#[trigger] after[i]).depth - after[0].depth
        == before[i].depth - before[0].depth by {
        assert(after[i] == out[at + i]);
        assert(after[0] == out[at + 0]);
        if i > 0 {
            assert(before[i].depth > rows[source].depth);
        }
    }
    assert forall|i: int| 0 <= i < after.len() implies (#[trigger] after[i]).id == before[i].id
        && after[i].path == before[i].path && after[i].name == before[i].name by {
        assert(after[i] == out[at + i]);
    }
    assert(ids(after) =~= ids(before));
    assert forall|i: int| 0 < i < after.len() implies (#[trigger] after[i]).parent_id
        == before[i].parent_id by {
        assert(after[i] == out[at + i]);
    }
}

/// The row before a move that row `i` after it is, where the rows from `source` up to
/// `end` were moved to `place`.
pub open spec fn row_before(source: int, end: int, place: int, i: int) -> int {
    let moved = end - source;
    if place <= i < place + moved {
        source + (i - place)
    } else {
        let rest = if i < place {
            i
        } else {
            i - moved
        };
        if rest < source {
            rest
        } else {
            rest + moved
        }
    }
}

/// Whether `out` is `rows` with the rows from `source` up to `end` put in at `place`
/// under a parent: every row is the item that it was, only the first of the moved ones
/// has another parent, only the moved ones have another depth, and all of them by the
/// same number of levels.
pub open spec fn is_moved(
    rows: Seq<RowView>,
    source: int,
    end: int,
    parent_id: Option<Seq<char>>,
    place: int,
    out: Seq<RowView>,
) -> bool {
    &&& out.len() == rows.len()
    &&& 0 <= place <= out.len() - (end - source)
    &&& forall|i: int|
        0 <= i < out.len() ==> {
            let before = rows[row_before(source, end, place, i)];
            &&& (#[trigger] out[i]).id == before.id
            &&& out[i].path == before.path
            &&& out[i].name == before.name
            &&& i != place ==> out[i].parent_id == before.parent_id
            &&& place <= i < place + (end - source) ==> out[i].depth - out[place].depth
                == before.depth - rows[source].depth
            &&& !(place <= i < place + (end - source)) ==> out[i].depth == before.depth
            &&& out[i].has_children == exists|k: int|
                0 <= k < out.len() && (#[trigger] out[k]).parent_id == Some(out[i].id)
        }
    &&& out[place].parent_id == parent_id
}

/// Whether the rows from `place` up to `past` are the last ones below the first row that
/// has the given identity, and the first of them one level below it.
pub open spec fn is_last_below(out: Seq<RowView>, id: Seq<char>, place: int, past: int) -> bool {
    exists|parent: int|
        #![trigger out[parent]]
        {
            &&& 0 <= parent < place
            &&& out[parent].id == id
            &&& forall|k: int| 0 <= k < parent ==> (#[trigger] out[k]).id != id
            &&& out[place].depth == out[parent].depth + 1
            &&& forall|k: int| parent < k < past ==> (#[trigger] out[k]).depth > out[parent].depth
            &&& past < out.len() ==> out[past].depth <= out[parent].depth
        }
}

/// Whether the rows from `source` up to `end` are the first row of an identity with all
/// the deeper rows that follow it without a gap.
pub open spec fn is_subtree_of(
    rows: Seq<RowView>,
    source_id: Seq<char>,
    source: int,
    end: int,
) -> bool {
    &&& 0 <= source < end <= rows.len()
    &&& rows[source].id == source_id
    &&& forall|i: int| 0 <= i < source ==> (#[trigger] rows[i]).id != source_id
    &&& forall|i: int| source < i < end ==> (#[trigger] rows[i]).depth > rows[source].depth
    &&& end < rows.len() ==> rows[end].depth <= rows[source].depth
}

/// There is one such subtree, and it is the one that a move takes.
proof fn lemma_is_subtree_of(rows: Seq<RowView>, source_id: Seq<char>, source: int, end: int)
    requires
        is_subtree_of(rows, source_id, source, end),
    ensures
        source == index_of(rows, source_id),
        end == subtree_end(rows, source),
        has_id(rows, source_id),
{
    lemma_index_of(rows, source_id);
    let found = index_of(rows, source_id);
    if found < source {
        assert(rows[found].id != source_id);
    }
    if source < found {
        assert(rows[source].id != source_id);
    }
    lemma_run_end(rows, rows[source].depth, source + 1);
    let run = subtree_end(rows, source);
    if run < end {
        assert(rows[run].depth > rows[source].depth);
    }
    if end < run {
        assert(rows[end].depth > rows[source].depth);
    }
}

/// A move takes the subtree, row by row and in its order, to the end of the roots or
/// behind everything below the parent, and leaves every other row in its order; no row
/// becomes another item, whether or not identities occur twice.
pub proof fn move_puts_the_subtree_in(
    rows: Seq<RowView>,
    source_id: Seq<char>,
    parent_id: Option<Seq<char>>,
    source: int,
    end: int,
)
    requires
        can_reparent(rows, source_id, parent_id),
        is_subtree_of(rows, source_id, source, end),
    ensures
        exists|place: int|
            #![trigger is_moved(
                rows,
                source,
                end,
                parent_id,
                place,
                reparented(rows, source_id, parent_id),
            )]
            {
                let out = reparented(rows, source_id, parent_id);
                &&& is_moved(rows, source, end, parent_id, place, out)
                &&& parent_id is None ==> place + (end - source) == out.len()
                    && out[place].depth == 0
                &&& parent_id matches Some(id) ==> is_last_below(
                    out,
                    id,
                    place,
                    place + (end - source),
                )
            },
{
    lemma_is_subtree_of(rows, source_id, source, end);
    lemma_parts(rows, source_id, parent_id);
    lemma_origin(rows, source);
    let rest = without_subtree(rows, source);
    let moved = subtree(rows, source);
    let m = end - source;
    let (place, depth) = landing(rest, parent_id);
    let planted = replanted(moved, parent_id, depth);
    let before = spliced(rows, source_id, parent_id);
    let out = reparented(rows, source_id, parent_id);
    assert(is_splice(rest, planted, place, before));
    assert(before[place] == planted[0]);
    assert forall|i: int| 0 <= i < out.len() implies {
        let before = rows[row_before(source, end, place, i)];
        &&& (#[trigger] out[i]).id == before.id
        &&& out[i].path == before.path
        &&& out[i].name == before.name
        &&& i != place ==> out[i].parent_id == before.parent_id
        &&& place <= i < place + m ==> out[i].depth - out[place].depth == before.depth
            - rows[source].depth
        &&& !(place <= i < place + m) ==> out[i].depth == before.depth
        &&& out[i].has_children == exists|k: int|
            0 <= k < out.len() && (#[trigger] out[k]).parent_id == Some(out[i].id)
    } by {
        if place <= i < place + m {
            assert(before[i] == planted[i - place]);
            assert(moved[i - place] == rows[source + (i - place)]);
            if i > place {
                assert(moved[i - place].depth > rows[source].depth);
            }
        } else if i < place {
            assert(before[i] == rest[i]);
        } else {
            assert(before[i] == rest[i - m]);
        }
        if is_a_parent(before, out[i].id) {
            let k = choose|k: int|
                0 <= k < before.len() && (#[trigger] before[k]).parent_id == Some(out[i].id);
            assert(out[k].parent_id == Some(out[i].id));
        }
        if exists|k: int| 0 <= k < out.len() && (#[trigger] out[k]).parent_id == Some(out[i].id) {
            let k = choose|k: int|
                0 <= k < out.len() && (#[trigger] out[k]).parent_id == Some(out[i].id);
            assert(before[k].parent_id == Some(out[i].id));
        }
    }
    assert(is_moved(rows, source, end, parent_id, place, out));
    if let Some(id) = parent_id {
        let parent = index_of(rest, id);
        lemma_index_of(rest, id);
        assert(before[parent] == rest[parent]);
        assert forall|k: int| 0 <= k < parent implies (#[trigger] out[k]).id != id by {
            assert(before[k] == rest[k]);
        }
        assert forall|k: int| parent < k < place + m implies (#[trigger] out[k]).depth
            > out[parent].depth by {
            if k < place {
                assert(before[k] == rest[k]);
            } else {
                assert(before[k] == planted[k - place]);
                if k > place {
                    assert(moved[k - place].depth > rows[source].depth);
                }
            }
        }
        if place + m < out.len() {
            assert(before[place + m] == rest[place]);
        }
        assert(out[parent].id == id);
        assert(is_last_below(out, id, place, place + m));
    }
}

/// After a move the row of an identity has the path and the name that the row of that
/// identity had before, and only the row that was moved has another parent.
pub proof fn moved_rows_stay_themselves(
    rows: Seq<RowView>,
    source_id: Seq<char>,
    parent_id: Option<Seq<char>>,
    i: int,
    j: int,
)
    requires
        distinct_ids(rows),
        can_reparent(rows, source_id, parent_id),
        0 <= i < rows.len(),
        0 <= j < rows.len(),
        reparented(rows, source_id, parent_id)[i].id == rows[j].id,
    ensures
        reparented(rows, source_id, parent_id)[i].path == rows[j].path,
        reparented(rows, source_id, parent_id)[i].name == rows[j].name,
        rows[j].id != source_id ==> reparented(rows, source_id, parent_id)[i].parent_id
            == rows[j].parent_id,
        rows[j].id == source_id ==> reparented(rows, source_id, parent_id)[i].parent_id
            == parent_id,
{
    let source = index_of(rows, source_id);
    let end = subtree_end(rows, source);
    let out = reparented(rows, source_id, parent_id);
    lemma_index_of(rows, source_id);
    lemma_run_end(rows, rows[source].depth, source + 1);
    assert(is_subtree_of(rows, source_id, source, end));
    move_puts_the_subtree_in(rows, source_id, parent_id, source, end);
    let place = choose|place: int| is_moved(rows, source, end, parent_id, place, out);
    let from = row_before(source, end, place, i);
    assert(out[i].id == rows[from].id);
    if from < j {
        assert(rows[from].id != rows[j].id);
    }
    if j < from {
        assert(rows[j].id != rows[from].id);
    }
    if from < source {
        assert(rows[from].id != rows[source].id);
    }
    if source < from {
        assert(rows[source].id != rows[from].id);
    }
}

/// Whether the rows of a subtree can be held with its root at another depth.
pub open spec fn depths_stay_in_range(
    rows: Seq<RowView>,
    source: int,
    end: int,
    depth: nat,
) -> bool {
    &&& isize::MIN <= depth - rows[source].depth <= isize::MAX
    &&& forall|i: int|
        source <= i < end ==> (#[trigger] rows[i]).depth - rows[source].depth + depth <= usize::MAX
}

/// A row that is there can be moved to the roots, if only the depths fit.
pub proof fn every_row_can_become_a_root(
    rows: Seq<RowView>,
    source_id: Seq<char>,
    source: int,
    end: int,
)
    requires
        is_subtree_of(rows, source_id, source, end),
    ensures
        can_reparent(rows, source_id, None) <==> depths_stay_in_range(rows, source, end, 0),
{
    lemma_is_subtree_of(rows, source_id, source, end);
    lemma_depths_fit(rows, source, 0);
}

proof fn lemma_depths_fit(rows: Seq<RowView>, source: int, depth: nat)
    requires
        0 <= source < rows.len(),
    ensures
        depths_fit(subtree(rows, source), depth) <==> depths_stay_in_range(
            rows,
            source,
            subtree_end(rows, source),
            depth,
        ),
{
    let moved = subtree(rows, source);
    let end = subtree_end(rows, source);
    lemma_origin(rows, source);
    assert(moved[0] == rows[source + 0]);
    if depths_fit(moved, depth) {
        assert forall|i: int| source <= i < end implies (#[trigger] rows[i]).depth
            - rows[source].depth + depth <= usize::MAX by {
            assert(moved[i - source] == rows[source + (i - source)]);
        }
    }
    if depths_stay_in_range(rows, source, end, depth) {
        assert forall|i: int| 0 <= i < moved.len() implies (#[trigger] moved[i]).depth
            - moved[0].depth + depth <= usize::MAX by {
            assert(moved[i] == rows[source + i]);
        }
    }
}

/// A row can be moved under a row outside its subtree, unless that identity occurs in
/// the subtree too, if only the depths fit.
pub proof fn every_other_row_can_become_the_parent(
    rows: Seq<RowView>,
    source_id: Seq<char>,
    source: int,
    end: int,
    parent: int,
)
    requires
        is_subtree_of(rows, source_id, source, end),
        0 <= parent < source || end <= parent < rows.len(),
        forall|i: int|
            0 <= i < parent && !(source <= i < end) ==> (#[trigger] rows[i]).id != rows[parent].id,
    ensures
        can_reparent(rows, source_id, Some(rows[parent].id)) <==> depths_stay_in_range(
            rows,
            source,
            end,
            rows[parent].depth + 1,
        ) && forall|i: int| source <= i < end ==> (#[trigger] rows[i]).id != rows[parent].id,
{
    let id = rows[parent].id;
    lemma_is_subtree_of(rows, source_id, source, end);
    lemma_origin(rows, source);
    let rest = without_subtree(rows, source);
    let moved = subtree(rows, source);
    let at = if parent < source {
        parent
    } else {
        parent - (end - source)
    };
    assert(rest[at] == rows[origin(rows, source, at)]);
    assert(rest[at].id == id);
    lemma_index_of(rest, id);
    let found = index_of(rest, id);
    assert(found <= at);
    assert(rest[found] == rows[origin(rows, source, found)]);
    if found < at {
        assert(rows[origin(rows, source, found)].id != id);
    }
    lemma_depths_fit(rows, source, rows[parent].depth + 1);
    if has_id(moved, id) {
        let k = choose|k: int| 0 <= k < moved.len() && (#[trigger] moved[k]).id == id;
        assert(moved[k] == rows[source + k]);
    }
    if exists|i: int| source <= i < end && (#[trigger] rows[i]).id == id {
        let i = choose|i: int| source <= i < end && (#[trigger] rows[i]).id == id;
        assert(moved[i - source] == rows[source + (i - source)]);
        assert(has_id(moved, id));
    }
}

/// A row that is not there cannot be moved, and none can be moved under a parent that is
/// not there outside its subtree.
pub proof fn missing_rows_stay_missing(
    rows: Seq<RowView>,
    source_id: Seq<char>,
    parent_id: Option<Seq<char>>,
)
    requires
        can_reparent(rows, source_id, parent_id),
    ensures
        exists|i: int| 0 <= i < rows.len() && (#[trigger] rows[i]).id == source_id,
        parent_id matches Some(id) ==> exists|i: int|
            0 <= i < rows.len() && (#[trigger] rows[i]).id == id,
{
    let source = index_of(rows, source_id);
    lemma_index_of(rows, source_id);
    lemma_origin(rows, source);
    let rest = without_subtree(rows, source);
    if let Some(id) = parent_id {
        let k = choose|k: int| 0 <= k < rest.len() && (#[trigger] rest[k]).id == id;
        assert(rows[origin(rows, source, k)].id == id);
    }
}

proof fn lemma_index_agrees(a: Seq<RowView>, b: Seq<RowView>, id: Seq<char>, from: int)
    requires
        a.len() == b.len(),
        0 <= from <= a.len(),
        forall|i: int| 0 <= i < a.len() ==> same_standing(#[trigger] a[i], b[i]),
    ensures
        index_from(a, id, from) == index_from(b, id, from),
    decreases a.len() - from,
{
    if from < a.len() {
        assert(same_standing(a[from], b[from]));
        if a[from].id != id {
            lemma_index_agrees(a, b, id, from + 1);
        }
    }
}

proof fn lemma_run_end_agrees(a: Seq<RowView>, b: Seq<RowView>, depth: nat, from: int)
    requires
        a.len() == b.len(),
        0 <= from <= a.len(),
        forall|i: int| 0 <= i < a.len() ==> same_standing(#[trigger] a[i], b[i]),
    ensures
        run_end(a, depth, from) == run_end(b, depth, from),
    decreases a.len() - from,
{
    if from < a.len() {
        assert(same_standing(a[from], b[from]));
        if a[from].depth > depth {
            lemma_run_end_agrees(a, b, depth, from + 1);
        }
    }
}

/// Rows that stand alike are marked alike.
proof fn lemma_marked_agrees(a: Seq<RowView>, b: Seq<RowView>)
    requires
        a.len() == b.len(),
        forall|i: int| 0 <= i < a.len() ==> same_standing(#[trigger] a[i], b[i]),
    ensures
        marked(a) == marked(b),
{
    assert forall|i: int| 0 <= i < a.len() implies #[trigger] marked(a)[i] == marked(b)[i] by {
        assert(same_standing(a[i], b[i]));
        if is_a_parent(a, a[i].id) {
            let k = choose|k: int|
                0 <= k < a.len() && (#[trigger] a[k]).parent_id == Some(a[i].id);
            assert(same_standing(a[k], b[k]));
        }
        if is_a_parent(b, a[i].id) {
            let k = choose|k: int|
                0 <= k < b.len() && (#[trigger] b[k]).parent_id == Some(a[i].id);
            assert(same_standing(a[k], b[k]));
        }
    }
    assert(marked(a) =~= marked(b));
}

/// What a move that is repeated finds: the rows as it has put them, and the same place
/// for them.
proof fn lemma_found_again(rows: Seq<RowView>, source_id: Seq<char>, parent_id: Option<Seq<char>>)
    requires
        distinct_ids(rows),
        can_reparent(rows, source_id, parent_id),
    ensures
        ({
            let source = index_of(rows, source_id);
            let rest = without_subtree(rows, source);
            let moved = subtree(rows, source);
            let (place, depth) = landing(rest, parent_id);
            let out = reparented(rows, source_id, parent_id);
            let rest_again = without_subtree(out, place);
            let moved_again = subtree(out, place);
            &&& rest_again.len() == rest.len()
            &&& moved_again.len() == moved.len()
            &&& forall|i: int|
                0 <= i < rest.len() ==> same_standing(#[trigger] rest_again[i], rest[i])
            &&& forall|i: int|
                0 <= i < moved.len() ==> same_standing(
                    #[trigger] moved_again[i],
                    replanted(moved, parent_id, depth)[i],
                )
        }),
{
    let source = index_of(rows, source_id);
    let rest = without_subtree(rows, source);
    let moved = subtree(rows, source);
    let (place, depth) = landing(rest, parent_id);
    let out = reparented(rows, source_id, parent_id);
    lemma_parts(rows, source_id, parent_id);
    lemma_origin(rows, source);
    lemma_landed(rows, source_id, parent_id);
    lemma_origin(out, place);
    let rest_again = without_subtree(out, place);
    let moved_again = subtree(out, place);
    assert forall|i: int| 0 <= i < rest.len() implies same_standing(
        #[trigger] rest_again[i],
        rest[i],
    ) by {
        assert(rest_again[i] == out[origin(out, place, i)]);
    }
    assert forall|i: int| 0 <= i < moved.len() implies same_standing(
        #[trigger] moved_again[i],
        replanted(moved, parent_id, depth)[i],
    ) by {
        assert(moved_again[i] == out[place + i]);
    }
}

/// A move that is repeated can be made again, and to the same place.
proof fn lemma_lands_again(rows: Seq<RowView>, source_id: Seq<char>, parent_id: Option<Seq<char>>)
    requires
        distinct_ids(rows),
        can_reparent(rows, source_id, parent_id),
    ensures
        ({
            let rest = without_subtree(rows, index_of(rows, source_id));
            let out = reparented(rows, source_id, parent_id);
            let place = landing(rest, parent_id).0;
            &&& can_reparent(out, source_id, parent_id)
            &&& index_of(out, source_id) == place
            &&& landing(without_subtree(out, place), parent_id) == landing(rest, parent_id)
        }),
{
    let source = index_of(rows, source_id);
    let rest = without_subtree(rows, source);
    let moved = subtree(rows, source);
    let (place, depth) = landing(rest, parent_id);
    let out = reparented(rows, source_id, parent_id);
    lemma_parts(rows, source_id, parent_id);
    lemma_origin(rows, source);
    lemma_landed(rows, source_id, parent_id);
    lemma_found_again(rows, source_id, parent_id);
    lemma_index_of(out, source_id);
    let rest_again = without_subtree(out, place);
    let moved_again = subtree(out, place);
    assert(same_standing(moved_again[0], replanted(moved, parent_id, depth)[0]));
    if let Some(id) = parent_id {
        lemma_index_of(rest, id);
        lemma_index_agrees(rest_again, rest, id, 0);
        let parent = index_of(rest, id);
        assert(same_standing(rest_again[parent], rest[parent]));
        lemma_run_end_agrees(rest_again, rest, rest[parent].depth, parent + 1);
        assert(has_id(rest_again, id));
        if has_id(moved_again, id) {
            let k = choose|k: int|
                0 <= k < moved_again.len() && (#[trigger] moved_again[k]).id == id;
            assert(moved[k].id == id);
            assert(has_id(moved, id));
        }
    }
    assert(landing(rest_again, parent_id) == (place, depth));
    assert forall|i: int| 0 <= i < moved_again.len() implies (#[trigger] moved_again[i]).depth
        - moved_again[0].depth + depth <= usize::MAX by {
        assert(moved[i].depth - moved[0].depth + depth <= usize::MAX);
        if i > 0 {
            assert(moved[i].depth > rows[source].depth);
        }
    }
    assert(depths_fit(moved_again, depth));
}

/// A move that is repeated can be made again, and changes nothing more.
pub proof fn repeated_move_changes_nothing(
    rows: Seq<RowView>,
    source_id: Seq<char>,
    parent_id: Option<Seq<char>>,
)
    requires
        distinct_ids(rows),
        can_reparent(rows, source_id, parent_id),
    ensures
        ({
            let out = reparented(rows, source_id, parent_id);
            &&& can_reparent(out, source_id, parent_id)
            &&& reparented(out, source_id, parent_id) == out
        }),
{
    let source = index_of(rows, source_id);
    let rest = without_subtree(rows, source);
    let moved = subtree(rows, source);
    let (place, depth) = landing(rest, parent_id);
    let out = reparented(rows, source_id, parent_id);
    lemma_parts(rows, source_id, parent_id);
    lemma_origin(rows, source);
    lemma_landed(rows, source_id, parent_id);
    lemma_found_again(rows, source_id, parent_id);
    lemma_lands_again(rows, source_id, parent_id);
    lemma_parts(out, source_id, parent_id);
    let rest_again = without_subtree(out, place);
    let moved_again = subtree(out, place);
    let before = spliced(rows, source_id, parent_id);
    let again = spliced(out, source_id, parent_id);
    let planted_again = replanted(moved_again, parent_id, depth);
    assert(is_splice(rest_again, planted_again, place, again));
    assert forall|i: int| 0 <= i < again.len() implies same_standing(
        #[trigger] again[i],
        out[i],
    ) by {
        if i < place {
            assert(again[i] == rest_again[i]);
        } else if i < place + moved.len() {
            let j = i - place;
            assert(again[i] == planted_again[j]);
            assert(same_standing(moved_again[j], replanted(moved, parent_id, depth)[j]));
            assert(same_standing(moved_again[0], replanted(moved, parent_id, depth)[0]));
            assert(same_standing(out[i], replanted(moved, parent_id, depth)[j]));
            if j > 0 {
                assert(moved[j].depth > rows[source].depth);
            }
        } else {
            assert(again[i] == rest_again[i - moved.len()]);
            assert(same_standing(rest_again[i - moved.len()], rest[i - moved.len()]));
        }
    }
    assert forall|i: int| 0 <= i < again.len() implies same_standing(
        #[trigger] again[i],
        before[i],
    ) by {
        assert(same_standing(again[i], out[i]));
        assert(same_standing(out[i], before[i]));
    }
    lemma_marked_agrees(again, before);
}

proof fn lemma_visible_among(rows: Seq<RowView>, collapsed: Set<Seq<char>>, count: nat)
    requires
        count <= rows.len(),
    ensures
        forall|i: int|
            visible_among(rows, collapsed, count).contains(i) <==> 0 <= i < count && !is_hidden(
                rows,
                collapsed,
                i,
            ),
        forall|j: int|
            0 <= j < visible_among(rows, collapsed, count).len() ==> 0 <= #[trigger] visible_among(
                rows,
                collapsed,
                count,
            )[j] < count,
        forall|j: int, k: int|
            0 <= j < k < visible_among(rows, collapsed, count).len()
                ==> #[trigger] visible_among(rows, collapsed, count)[j]
                < #[trigger] visible_among(rows, collapsed, count)[k],
    decreases count,
{
    if count > 0 {
        let last = count - 1;
        lemma_visible_among(rows, collapsed, last as nat);
        let earlier = visible_among(rows, collapsed, last as nat);
        let all = visible_among(rows, collapsed, count);
        if is_hidden(rows, collapsed, last) {
            assert(all == earlier);
        } else {
            assert(all == earlier.push(last));
            assert forall|i: int| all.contains(i) <==> 0 <= i < count && !is_hidden(
                rows,
                collapsed,
                i,
            ) by {
                if earlier.contains(i) {
                    let j = choose|j: int| 0 <= j < earlier.len() && earlier[j] == i;
                    assert(all[j] == i);
                }
                if i == last {
                    assert(all[earlier.len() as int] == i);
                }
                if all.contains(i) {
                    let j = choose|j: int| 0 <= j < all.len() && all[j] == i;
                    if j < earlier.len() {
                        assert(earlier[j] == i);
                    }
                }
            }
        }
    }
}

/// Exactly the rows that no collapsed row hides show, each once and in the
/// order of the projection.
pub proof fn visible_rows_keep_their_order(rows: Seq<RowView>, collapsed: Set<Seq<char>>)
    ensures
        forall|i: int|
            visible(rows, collapsed).contains(i) <==> 0 <= i < rows.len() && !is_hidden(
                rows,
                collapsed,
                i,
            ),
        forall|j: int|
            0 <= j < visible(rows, collapsed).len() ==> 0 <= #[trigger] visible(rows, collapsed)[j]
                < rows.len(),
        forall|j: int, k: int|
            0 <= j < k < visible(rows, collapsed).len() ==> #[trigger] visible(rows, collapsed)[j]
                < #[trigger] visible(rows, collapsed)[k],
{
    lemma_visible_among(rows, collapsed, rows.len());
}

/// A row shows exactly where no collapsed row stands above it with nothing but deeper
/// rows from there on to the row.
pub proof fn rows_show_unless_a_collapsed_row_is_above(
    rows: Seq<RowView>,
    collapsed: Set<Seq<char>>,
    i: int,
)
    requires
        0 <= i < rows.len(),
    ensures
        visible(rows, collapsed).contains(i) <==> forall|root: int|
            0 <= root < i && collapsed.contains((#[trigger] rows[root]).id) ==> exists|k: int|
                root < k <= i && (#[trigger] rows[k]).depth <= rows[root].depth,
{
    lemma_visible_among(rows, collapsed, rows.len());
    assert(visible(rows, collapsed).contains(i) <==> !is_hidden(rows, collapsed, i));
    if is_hidden(rows, collapsed, i) {
        let root = choose|root: int|
            #[trigger] is_below(rows, root, i) && collapsed.contains(rows[root].id);
        assert(collapsed.contains(rows[root].id));
        assert(!exists|k: int| root < k <= i && (#[trigger] rows[k]).depth <= rows[root].depth);
    } else {
        assert forall|root: int|
            0 <= root < i && collapsed.contains((#[trigger] rows[root]).id) implies exists|k: int|
            root < k <= i && (#[trigger] rows[k]).depth <= rows[root].depth by {
            assert(!is_below(rows, root, i));
        }
    }
}

/// Collapsing a row hides what is below a row of that identity, and nothing
/// else: the row itself stays.
pub proof fn collapse_hides_only_descendants(
    rows: Seq<RowView>,
    collapsed: Set<Seq<char>>,
    id: Seq<char>,
)
    ensures
        forall|i: int|
            visible(rows, collapsed.insert(id)).contains(i) <==> visible(rows, collapsed).contains(i)
                && !exists|root: int| #[trigger] is_below(rows, root, i) && rows[root].id == id,
{
    let more = collapsed.insert(id);
    lemma_visible_among(rows, collapsed, rows.len());
    lemma_visible_among(rows, more, rows.len());
    assert forall|i: int|
        visible(rows, more).contains(i) <==> visible(rows, collapsed).contains(i)
            && !exists|root: int| #[trigger] is_below(rows, root, i) && rows[root].id == id by {
        assert(visible(rows, more).contains(i) <==> 0 <= i < rows.len() && !is_hidden(
            rows,
            more,
            i,
        ));
        assert(visible(rows, collapsed).contains(i) <==> 0 <= i < rows.len() && !is_hidden(
            rows,
            collapsed,
            i,
        ));
        if exists|root: int| #[trigger] is_below(rows, root, i) && rows[root].id == id {
            let root = choose|root: int| #[trigger] is_below(rows, root, i) && rows[root].id == id;
            assert(more.contains(rows[root].id));
        }
        if is_hidden(rows, collapsed, i) {
            let root = choose|root: int|
                #[trigger] is_below(rows, root, i) && collapsed.contains(rows[root].id);
            assert(is_below(rows, root, i) && more.contains(rows[root].id));
        }
        if is_hidden(rows, more, i) {
            let root = choose|root: int|
                #[trigger] is_below(rows, root, i) && more.contains(rows[root].id);
            assert(is_below(rows, root, i));
        }
    }
}

/// Where nothing is collapsed every row shows.
pub proof fn every_row_shows_where_nothing_is_collapsed(rows: Seq<RowView>)
    ensures
        visible(rows, Set::empty()) == Seq::new(rows.len(), |i: int| i),
{
    lemma_all_visible(rows, rows.len());
}

proof fn lemma_all_visible(rows: Seq<RowView>, count: nat)
    ensures
        visible_among(rows, Set::empty(), count) =~= Seq::new(count, |i: int| i),
    decreases count,
{
    if count > 0 {
        lemma_all_visible(rows, (count - 1) as nat);
    }
}

/// A root always shows.
pub proof fn roots_always_show(rows: Seq<RowView>, collapsed: Set<Seq<char>>, i: int)
    requires
        0 <= i < rows.len(),
        rows[i].depth == 0,
    ensures
        visible(rows, collapsed).contains(i),
{
    lemma_visible_among(rows, collapsed, rows.len());
    if is_hidden(rows, collapsed, i) {
        let root = choose|root: int|
            #[trigger] is_below(rows, root, i) && collapsed.contains(rows[root].id);
        assert(rows[i].depth > rows[root].depth);
    }
}

} // verus!
