//! Paths as a Unix machine reads them: texts whose components are separated by `/`.
//!
//! Two spellings of a path that differ in repeated separators, in inner `.`
//! components or in a trailing separator name the same path, so paths are
//! compared, cut and extended by their components.

use crate::text::chars_of;
use vstd::prelude::*;
use vstd::string::*;

pub mod laws;

verus! {

/// Where the segment that starts at `from` ends: at the next separator or at
/// the end of the text.
pub open spec fn segment_end(path: Seq<char>, from: int) -> int
    decreases path.len() - from,
{
    if 0 <= from < path.len() && path[from] != '/' {
        segment_end(path, from + 1)
    } else {
        from
    }
}

/// Whether a segment between separators counts as a component.
pub open spec fn is_component(segment: Seq<char>) -> bool {
    segment.len() > 0 && segment != seq!['.']
}

/// The places of the components in the segments from `from` on.
pub open spec fn spans_from(path: Seq<char>, from: int) -> Seq<(int, int)>
    decreases path.len() + 1 - from,
    via segments_shrink
{
    if 0 <= from < path.len() {
        let end = segment_end(path, from);
        let rest = spans_from(path, end + 1);
        if is_component(path.subrange(from, end)) {
            seq![(from, end)] + rest
        } else {
            rest
        }
    } else {
        seq![]
    }
}

#[via_fn]
proof fn segments_shrink(path: Seq<char>, from: int) {
    if 0 <= from < path.len() {
        lemma_segment_end(path, from);
    }
}

/// A leading separator, or a leading `.` segment, is a component of its own.
pub open spec fn leading_span(path: Seq<char>) -> Seq<(int, int)> {
    if path.len() > 0 && (path[0] == '/' || (path[0] == '.' && segment_end(path, 0) == 1)) {
        seq![(0, 1)]
    } else {
        seq![]
    }
}

/// The places of a path's components, from first to last.
pub open spec fn spans(path: Seq<char>) -> Seq<(int, int)> {
    leading_span(path) + spans_from(path, 0)
}

/// The texts that stand at the given places.
pub open spec fn pieces(path: Seq<char>, places: Seq<(int, int)>) -> Seq<Seq<char>> {
    places.map_values(|place: (int, int)| path.subrange(place.0, place.1))
}

/// A path's components, from first to last.
pub open spec fn components(path: Seq<char>) -> Seq<Seq<char>> {
    pieces(path, spans(path))
}

/// Whether two texts name the same path.
pub open spec fn same_path(a: Seq<char>, b: Seq<char>) -> bool {
    components(a) == components(b)
}

/// Whether two optional texts name the same path, or are both absent.
pub open spec fn same_optional_path(a: Option<Seq<char>>, b: Option<Seq<char>>) -> bool {
    match (a, b) {
        (Some(a), Some(b)) => same_path(a, b),
        (None, None) => true,
        _ => false,
    }
}

/// Whether every component of `base` leads `path`.
pub open spec fn is_within(path: Seq<char>, base: Seq<char>) -> bool {
    components(base).is_prefix_of(components(path))
}

/// The part of a path after the components of its base.
pub open spec fn below(path: Seq<char>, base: Seq<char>) -> Seq<char> {
    let places = spans(path);
    let skipped = components(base).len() as int;
    if skipped < places.len() {
        path.subrange(places[skipped].0, places.last().1)
    } else {
        seq![]
    }
}

/// A path as seen from a base, where it lies within that base.
pub open spec fn relative_to(path: Seq<char>, base: Seq<char>) -> Option<Seq<char>> {
    if is_within(path, base) {
        Some(below(path, base))
    } else {
        None
    }
}

/// A path extended by another one, which replaces it where it is absolute.
pub open spec fn joined(base: Seq<char>, tail: Seq<char>) -> Seq<char> {
    if tail.len() > 0 && tail[0] == '/' {
        tail
    } else if base.len() == 0 || base.last() == '/' {
        base + tail
    } else {
        base + seq!['/'] + tail
    }
}

/// Whether a path's last component is a name with the extension `md`.
pub open spec fn is_markdown(path: Seq<char>) -> bool {
    let parts = components(path);
    parts.len() > 0 && parts.last().len() > 3 && seq!['.', 'm', 'd'].is_suffix_of(parts.last())
}

proof fn lemma_segment_end(path: Seq<char>, from: int)
    requires
        0 <= from <= path.len(),
    ensures
        from <= segment_end(path, from) <= path.len(),
        forall|i: int| from <= i < segment_end(path, from) ==> path[i] != '/',
        segment_end(path, from) < path.len() ==> path[segment_end(path, from)] == '/',
    decreases path.len() - from,
{
    if from < path.len() && path[from] != '/' {
        lemma_segment_end(path, from + 1);
    }
}

proof fn lemma_spans_from_in_bounds(path: Seq<char>, from: int)
    requires
        0 <= from,
    ensures
        forall|i: int|
            0 <= i < spans_from(path, from).len() ==> {
                let place = #[trigger] spans_from(path, from)[i];
                from <= place.0 < place.1 <= path.len()
            },
        forall|i: int, j: int|
            0 <= i < j < spans_from(path, from).len() ==> (#[trigger] spans_from(path, from)[i]).1
                < (#[trigger] spans_from(path, from)[j]).0,
    decreases path.len() + 1 - from,
{
    if from < path.len() {
        let end = segment_end(path, from);
        let rest = spans_from(path, end + 1);
        let all = spans_from(path, from);
        lemma_segment_end(path, from);
        lemma_spans_from_in_bounds(path, end + 1);
        if is_component(path.subrange(from, end)) {
            assert(all == seq![(from, end)] + rest);
            assert forall|i: int| 0 <= i < all.len() implies {
                let place = #[trigger] all[i];
                from <= place.0 < place.1 <= path.len()
            } by {
                if i > 0 {
                    assert(all[i] == rest[i - 1]);
                }
            }
            assert forall|i: int, j: int| 0 <= i < j < all.len() implies (#[trigger] all[i]).1 < (
            #[trigger] all[j]).0 by {
                assert(all[j] == rest[j - 1]);
                if i > 0 {
                    assert(all[i] == rest[i - 1]);
                }
            }
        }
    }
}

proof fn lemma_spans_in_bounds(path: Seq<char>)
    ensures
        forall|i: int|
            0 <= i < spans(path).len() ==> {
                let place = #[trigger] spans(path)[i];
                0 <= place.0 < place.1 <= path.len()
            },
        forall|i: int, j: int|
            0 <= i <= j < spans(path).len() ==> (#[trigger] spans(path)[i]).0 <= (
            #[trigger] spans(path)[j]).0,
        forall|i: int, j: int|
            0 <= i < j < spans(path).len() ==> (#[trigger] spans(path)[i]).1 <= (
            #[trigger] spans(path)[j]).0,
{
    lemma_spans_from_in_bounds(path, 0);
    if leading_span(path).len() > 0 {
        let end = segment_end(path, 0);
        lemma_segment_end(path, 0);
        if path[0] == '/' {
            assert(end == 0);
        } else {
            assert(end == 1);
            assert(path.subrange(0, 1) =~= seq!['.']);
        }
        assert(!is_component(path.subrange(0, end)));
        assert(spans_from(path, 0) == spans_from(path, end + 1));
        lemma_spans_from_in_bounds(path, end + 1);
    }
}

fn segment_end_at(path: &Vec<char>, from: usize) -> (end: usize)
    requires
        from <= path.len(),
    ensures
        end == segment_end(path@, from as int),
        from <= end <= path.len(),
{
    let mut end: usize = from;
    while end < path.len() && path[end] != '/'
        invariant
            from <= end <= path.len(),
            segment_end(path@, from as int) == segment_end(path@, end as int),
        decreases path.len() - end,
    {
        end += 1;
    }
    end
}

/// The places that a vector of index pairs holds.
spec fn places(found: Seq<(usize, usize)>) -> Seq<(int, int)> {
    found.map_values(|place: (usize, usize)| (place.0 as int, place.1 as int))
}

fn spans_of(path: &Vec<char>) -> (found: Vec<(usize, usize)>)
    ensures
        places(found@) == spans(path@),
{
    let mut found: Vec<(usize, usize)> = Vec::new();
    if path.len() > 0 && (path[0] == '/' || (path[0] == '.' && segment_end_at(path, 0) == 1)) {
        found.push((0, 1));
    }
    assert(places(found@) =~= leading_span(path@));
    let mut from: usize = 0;
    while from < path.len()
        invariant
            from <= path.len(),
            places(found@) + spans_from(path@, from as int) == spans(path@),
        decreases path.len() - from,
    {
        let ghost before = found@;
        let end = segment_end_at(path, from);
        let ghost rest = spans_from(path@, end + 1);
        proof {
            if end == from + 1 && path@[from as int] == '.' {
                assert(path@.subrange(from as int, end as int) =~= seq!['.']);
            } else if end == from + 1 {
                assert(path@.subrange(from as int, end as int)[0] == path@[from as int]);
            }
        }
        if end > from && !(end == from + 1 && path[from] == '.') {
            found.push((from, end));
            assert(places(found@) =~= places(before).push((from as int, end as int)));
            assert(places(found@) + rest =~= places(before) + (seq![(from as int, end as int)]
                + rest));
        }
        assert(places(found@) + rest == spans(path@));
        if end == path.len() {
            assert(rest =~= seq![]);
            assert(spans_from(path@, end as int) =~= seq![]);
            from = end;
        } else {
            from = end + 1;
        }
    }
    assert(places(found@) + spans_from(path@, from as int) =~= places(found@));
    found
}

/// Whether the first `count` components of two parsed paths agree.
fn leading_components_agree(
    a: &Vec<char>,
    a_places: &Vec<(usize, usize)>,
    b: &Vec<char>,
    b_places: &Vec<(usize, usize)>,
    count: usize,
) -> (agree: bool)
    requires
        places(a_places@) == spans(a@),
        places(b_places@) == spans(b@),
        count <= a_places.len(),
        count <= b_places.len(),
    ensures
        agree == (components(a@).take(count as int) == components(b@).take(count as int)),
{
    proof {
        lemma_spans_in_bounds(a@);
        lemma_spans_in_bounds(b@);
    }
    let mut i: usize = 0;
    while i < count
        invariant
            i <= count,
            count <= a_places.len(),
            count <= b_places.len(),
            places(a_places@) == spans(a@),
            places(b_places@) == spans(b@),
            forall|k: int|
                0 <= k < spans(a@).len() ==> {
                    let place = #[trigger] spans(a@)[k];
                    0 <= place.0 < place.1 <= a@.len()
                },
            forall|k: int|
                0 <= k < spans(b@).len() ==> {
                    let place = #[trigger] spans(b@)[k];
                    0 <= place.0 < place.1 <= b@.len()
                },
            forall|k: int| 0 <= k < i ==> components(a@)[k] == components(b@)[k],
        decreases count - i,
    {
        assert(places(a_places@)[i as int] == spans(a@)[i as int]);
        assert(places(b_places@)[i as int] == spans(b@)[i as int]);
        let (a_from, a_to) = a_places[i];
        let (b_from, b_to) = b_places[i];
        let ghost x = components(a@)[i as int];
        let ghost y = components(b@)[i as int];
        assert(x == a@.subrange(a_from as int, a_to as int));
        assert(y == b@.subrange(b_from as int, b_to as int));
        let mut agree = a_to - a_from == b_to - b_from;
        if agree {
            let mut k: usize = 0;
            while k < a_to - a_from
                invariant
                    a_from < a_to <= a.len(),
                    b_from < b_to <= b.len(),
                    a_to - a_from == b_to - b_from,
                    k <= a_to - a_from,
                    x == a@.subrange(a_from as int, a_to as int),
                    y == b@.subrange(b_from as int, b_to as int),
                    agree == (forall|j: int| 0 <= j < k ==> x[j] == y[j]),
                decreases a_to - a_from - k,
            {
                if a[a_from + k] != b[b_from + k] {
                    agree = false;
                    assert(x[k as int] != y[k as int]);
                }
                k += 1;
            }
            assert(agree ==> x =~= y);
        }
        assert(agree == (x == y));
        if !agree {
            assert(components(a@).take(count as int)[i as int] == x);
            assert(components(b@).take(count as int)[i as int] == y);
            return false;
        }
        i += 1;
    }
    assert(components(a@).take(count as int) =~= components(b@).take(count as int));
    true
}

/// Tells whether two texts name the same path.
pub fn paths_match(a: &str, b: &str) -> (same: bool)
    ensures
        same == same_path(a@, b@),
{
    let a_chars = chars_of(a);
    let b_chars = chars_of(b);
    let a_places = spans_of(&a_chars);
    let b_places = spans_of(&b_chars);
    assert(components(a@).len() == places(a_places@).len());
    assert(components(b@).len() == places(b_places@).len());
    if a_places.len() != b_places.len() {
        return false;
    }
    let count = a_places.len();
    assert(components(a@).take(count as int) =~= components(a@));
    assert(components(b@).take(count as int) =~= components(b@));
    leading_components_agree(&a_chars, &a_places, &b_chars, &b_places, count)
}

/// Cuts a base off a path; `None` where the path lies outside that base.
pub fn strip_prefix(path: &str, base: &str) -> (rest: Option<String>)
    ensures
        crate::text::owned_text(rest) == relative_to(path@, base@),
{
    let path_chars = chars_of(path);
    let base_chars = chars_of(base);
    let path_places = spans_of(&path_chars);
    let base_places = spans_of(&base_chars);
    let skipped = base_places.len();
    let ghost p = components(path@);
    let ghost b = components(base@);
    assert(p.len() == places(path_places@).len());
    assert(b.len() == places(base_places@).len());
    if skipped > path_places.len() {
        return None;
    }
    assert(b.take(skipped as int) =~= b);
    assert(b.is_prefix_of(p) <==> p.take(skipped as int) == b) by {
        assert(p.subrange(0, skipped as int) =~= p.take(skipped as int));
    }
    if !leading_components_agree(&path_chars, &path_places, &base_chars, &base_places, skipped) {
        return None;
    }
    if skipped < path_places.len() {
        proof {
            lemma_spans_in_bounds(path@);
            assert(places(path_places@)[skipped as int] == spans(path@)[skipped as int]);
            assert(places(path_places@).last() == spans(path@).last());
        }
        let from = path_places[skipped].0;
        let to = path_places[path_places.len() - 1].1;
        Some(path.substring_char(from, to).to_string())
    } else {
        Some(String::new())
    }
}

/// Extends a path by another one.
pub fn join(base: &str, tail: &str) -> (path: String)
    ensures
        path@ == joined(base@, tail@),
{
    proof {
        reveal_strlit("/");
        assert("/"@ =~= seq!['/']);
    }
    if tail.unicode_len() > 0 && tail.get_char(0) == '/' {
        return tail.to_string();
    }
    let mut path = base.to_string();
    let length = base.unicode_len();
    if length > 0 && base.get_char(length - 1) != '/' {
        path.append("/");
    }
    path.append(tail);
    path
}

/// Tells whether a path ends in a name with the extension `md`.
pub fn has_markdown_extension(path: &str) -> (markdown: bool)
    ensures
        markdown == is_markdown(path@),
{
    let chars = chars_of(path);
    let found = spans_of(&chars);
    assert(components(path@).len() == places(found@).len());
    if found.len() == 0 {
        return false;
    }
    proof {
        lemma_spans_in_bounds(path@);
        assert(places(found@).last() == spans(path@).last());
    }
    let (from, to) = found[found.len() - 1];
    let ghost name = components(path@).last();
    assert(name == path@.subrange(from as int, to as int));
    if to - from <= 3 {
        return false;
    }
    let markdown = chars[to - 3] == '.' && chars[to - 2] == 'm' && chars[to - 1] == 'd';
    proof {
        let n = name.len() as int;
        let end = name.subrange(n - 3, n);
        assert(end[0] == name[n - 3] && end[1] == name[n - 2] && end[2] == name[n - 1]);
        assert(markdown ==> end =~= seq!['.', 'm', 'd']);
    }
    markdown
}

proof fn lemma_segment_end_past_prefix(front: Seq<char>, path: Seq<char>, from: int)
    requires
        0 <= from <= path.len(),
    ensures
        segment_end(front + path, front.len() + from) == front.len() + segment_end(path, from),
    decreases path.len() - from,
{
    if from < path.len() {
        assert((front + path)[front.len() + from] == path[from]);
        if path[from] != '/' {
            lemma_segment_end_past_prefix(front, path, from + 1);
        }
    }
}

proof fn lemma_pieces_past_prefix(front: Seq<char>, path: Seq<char>, from: int)
    requires
        0 <= from,
    ensures
        pieces(front + path, spans_from(front + path, front.len() + from)) == pieces(
            path,
            spans_from(path, from),
        ),
    decreases path.len() + 1 - from,
{
    let whole = front + path;
    if from < path.len() {
        let end = segment_end(path, from);
        lemma_segment_end(path, from);
        lemma_segment_end_past_prefix(front, path, from);
        lemma_pieces_past_prefix(front, path, end + 1);
        let f = front.len() as int;
        assert(whole.subrange(f + from, f + end) =~= path.subrange(from, end));
        let rest = spans_from(path, end + 1);
        let whole_rest = spans_from(whole, f + end + 1);
        if is_component(path.subrange(from, end)) {
            assert(pieces(whole, seq![(f + from, f + end)] + whole_rest) =~= seq![
                whole.subrange(f + from, f + end),
            ] + pieces(whole, whole_rest));
            assert(pieces(path, seq![(from, end)] + rest) =~= seq![path.subrange(from, end)]
                + pieces(path, rest));
        }
    } else {
        assert(pieces(whole, spans_from(whole, front.len() + from)) =~= seq![]);
        assert(pieces(path, spans_from(path, from)) =~= seq![]);
    }
}

proof fn lemma_segment_end_before_separator(front: Seq<char>, tail: Seq<char>, from: int)
    requires
        0 <= from <= front.len(),
    ensures
        segment_end(front + seq!['/'] + tail, from) == segment_end(front, from),
    decreases front.len() - from,
{
    let whole = front + seq!['/'] + tail;
    if from < front.len() {
        assert(whole[from] == front[from]);
        if front[from] != '/' {
            lemma_segment_end_before_separator(front, tail, from + 1);
        }
    } else {
        assert(whole[from] == '/');
    }
}

proof fn lemma_pieces_across_separator(front: Seq<char>, tail: Seq<char>, from: int)
    requires
        0 <= from <= front.len(),
    ensures
        pieces(front + seq!['/'] + tail, spans_from(front + seq!['/'] + tail, from)) == pieces(
            front,
            spans_from(front, from),
        ) + pieces(tail, spans_from(tail, 0)),
    decreases front.len() - from,
{
    let whole = front + seq!['/'] + tail;
    let end = segment_end(front, from);
    lemma_segment_end(front, from);
    lemma_segment_end_before_separator(front, tail, from);
    assert(whole.subrange(from, end) =~= front.subrange(from, end));
    let whole_rest = spans_from(whole, end + 1);
    let rest = spans_from(front, end + 1);
    let last = pieces(tail, spans_from(tail, 0));
    if end < front.len() {
        lemma_pieces_across_separator(front, tail, end + 1);
    } else {
        lemma_pieces_past_prefix(front + seq!['/'], tail, 0);
        assert(pieces(front, rest) =~= seq![]);
    }
    assert(pieces(whole, whole_rest) =~= pieces(front, rest) + last);
    if is_component(front.subrange(from, end)) {
        assert(pieces(whole, seq![(from, end)] + whole_rest) =~= seq![whole.subrange(from, end)]
            + pieces(whole, whole_rest));
        assert(pieces(front, seq![(from, end)] + rest) =~= seq![front.subrange(from, end)]
            + pieces(front, rest));
        assert(from < front.len());
    } else if from == front.len() {
        assert(pieces(front, spans_from(front, from)) =~= seq![]);
    }
}

proof fn lemma_components_across_separator(front: Seq<char>, tail: Seq<char>)
    ensures
        components(front + seq!['/'] + tail) == pieces(
            front + seq!['/'],
            leading_span(front + seq!['/']),
        ) + pieces(front, spans_from(front, 0)) + pieces(tail, spans_from(tail, 0)),
{
    let whole = front + seq!['/'] + tail;
    let base = front + seq!['/'];
    lemma_pieces_across_separator(front, tail, 0);
    lemma_segment_end_before_separator(front, tail, 0);
    lemma_segment_end_before_separator(front, seq![], 0);
    assert(front + seq!['/'] + seq![] =~= base);
    assert(whole[0] == base[0]);
    assert(leading_span(whole) == leading_span(base));
    assert(pieces(whole, leading_span(whole)) =~= pieces(base, leading_span(base))) by {
        if leading_span(base).len() > 0 {
            assert(whole.subrange(0, 1) =~= base.subrange(0, 1));
        }
    }
    assert(components(whole) =~= pieces(whole, leading_span(whole)) + pieces(
        whole,
        spans_from(whole, 0),
    ));
}

/// A path joined to a base with a relative tail has the components of the base
/// followed by those of the tail, and so lies within the base.
pub proof fn joined_path_lies_within_its_base(base: Seq<char>, tail: Seq<char>)
    requires
        leading_span(tail).len() == 0,
    ensures
        components(joined(base, tail)) == components(base) + components(tail),
        is_within(joined(base, tail), base),
{
    let none: Seq<char> = seq![];
    assert(leading_span(tail) =~= seq![]);
    assert(spans(tail) =~= spans_from(tail, 0));
    assert(pieces(none, spans_from(none, 0)) =~= seq![]);
    if base.len() == 0 {
        assert(components(base) =~= seq![]);
        assert(base + tail =~= tail);
        assert(components(base) + components(tail) =~= components(tail));
    } else if base.last() == '/' {
        let front = base.drop_last();
        assert(base =~= front + seq!['/']);
        assert(base =~= front + seq!['/'] + none);
        lemma_components_across_separator(front, tail);
        lemma_components_across_separator(front, none);
        assert(components(joined(base, tail)) =~= components(base) + components(tail));
    } else {
        lemma_components_across_separator(base, tail);
        lemma_segment_end_before_separator(base, none, 0);
        let slashed = base + seq!['/'];
        assert(slashed + none =~= slashed);
        assert(slashed[0] == base[0]);
        assert(leading_span(slashed) == leading_span(base));
        assert(pieces(slashed, leading_span(slashed)) =~= pieces(base, leading_span(base))) by {
            if leading_span(base).len() > 0 {
                assert(slashed.subrange(0, 1) =~= base.subrange(0, 1));
            }
        }
        assert(components(base) =~= pieces(base, leading_span(base)) + pieces(
            base,
            spans_from(base, 0),
        ));
        assert(components(joined(base, tail)) =~= components(base) + components(tail));
    }
    assert((components(base) + components(tail)).subrange(0, components(base).len() as int)
        =~= components(base));
}

} // verus!
