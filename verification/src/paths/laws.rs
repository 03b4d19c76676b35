//! What paths promise: how their components are read and compared, and what cutting a base
//! off a path and joining it again gives.

use crate::paths::{
    below, components, is_component, is_markdown, is_within, joined,
    joined_path_lies_within_its_base, leading_span, lemma_components_across_separator,
    lemma_pieces_across_separator, lemma_segment_end, lemma_segment_end_before_separator,
    lemma_segment_end_past_prefix, lemma_spans_in_bounds, pieces, relative_to, same_optional_path,
    same_path, segment_end, spans, spans_from,
};
use vstd::prelude::*;

verus! {

proof fn lemma_spans_from_nonempty(path: Seq<char>, from: int)
    requires
        0 <= from <= path.len() + 1,
    ensures
        forall|i: int|
            0 <= i < spans_from(path, from).len() ==> {
                let place = #[trigger] spans_from(path, from)[i];
                &&& from <= place.0 < place.1 <= path.len()
                &&& place.1 == segment_end(path, place.0)
                &&& is_component(path.subrange(place.0, place.1))
                &&& path[place.0] != '/'
            },
        forall|i: int|
            0 <= i < spans_from(path, from).len() ==> (#[trigger] spans_from(path, from)[i]).1
                <= spans_from(path, from).last().1,
    decreases path.len() + 1 - from,
{
    if from < path.len() {
        let end = segment_end(path, from);
        lemma_segment_end(path, from);
        let rest = spans_from(path, end + 1);
        lemma_spans_from_nonempty(path, end + 1);
        let all = spans_from(path, from);
        if is_component(path.subrange(from, end)) {
            assert(all == seq![(from, end)] + rest);
            assert forall|i: int| 0 <= i < all.len() implies {
                let place = #[trigger] all[i];
                &&& from <= place.0 < place.1 <= path.len()
                &&& place.1 == segment_end(path, place.0)
                &&& is_component(path.subrange(place.0, place.1))
                &&& path[place.0] != '/'
                &&& place.1 <= all.last().1
            } by {
                if i > 0 {
                    assert(all[i] == rest[i - 1]);
                    assert(all.last() == rest.last());
                } else if rest.len() > 0 {
                    assert(all.last() == rest.last());
                    assert(rest[0].1 <= rest.last().1);
                }
            }
        }
    }
}

/// The components from the `j`-th on are those of the segments from its place on.
proof fn lemma_spans_from_later(path: Seq<char>, from: int, j: int)
    requires
        0 <= from <= path.len() + 1,
        0 <= j < spans_from(path, from).len(),
    ensures
        spans_from(path, spans_from(path, from)[j].0) == spans_from(path, from).skip(j),
    decreases path.len() + 1 - from,
{
    let end = segment_end(path, from);
    lemma_segment_end(path, from);
    let rest = spans_from(path, end + 1);
    let all = spans_from(path, from);
    if is_component(path.subrange(from, end)) {
        if j == 0 {
            assert(all.skip(0) =~= all);
        } else {
            assert(all[j] == rest[j - 1]);
            lemma_spans_from_later(path, end + 1, j - 1);
            assert(all.skip(j) =~= rest.skip(j - 1));
        }
    } else {
        lemma_spans_from_later(path, end + 1, j);
    }
}

proof fn lemma_segment_end_of_front(path: Seq<char>, length: int, from: int)
    requires
        0 <= from <= length <= path.len(),
        segment_end(path, from) <= length,
    ensures
        segment_end(path.take(length), from) == segment_end(path, from),
    decreases length - from,
{
    lemma_segment_end(path, from);
    if from < length && path[from] != '/' {
        lemma_segment_end_of_front(path, length, from + 1);
    }
}

/// What follows the last component of a path does not count.
proof fn lemma_spans_of_front(path: Seq<char>, from: int, length: int)
    requires
        0 <= from <= path.len() + 1,
        0 <= length <= path.len(),
        forall|i: int|
            0 <= i < spans_from(path, from).len() ==> (#[trigger] spans_from(path, from)[i]).1
                <= length,
        spans_from(path, from).len() > 0 ==> spans_from(path, from).last().1 == length,
        spans_from(path, from).len() == 0 ==> from == length + 1 || from >= path.len(),
    ensures
        spans_from(path.take(length), from) == spans_from(path, from),
    decreases path.len() + 1 - from,
{
    if spans_from(path, from).len() > 0 {
        let end = segment_end(path, from);
        lemma_segment_end(path, from);
        lemma_spans_from_nonempty(path, from);
        let rest = spans_from(path, end + 1);
        let all = spans_from(path, from);
        assert(from < length) by {
            assert(all[0].0 < all[0].1 <= all.last().1);
        }
        if is_component(path.subrange(from, end)) {
            assert(all[0] == (from, end));
            assert forall|i: int| 0 <= i < rest.len() implies (#[trigger] rest[i]).1
                <= length by {
                assert(all[i + 1] == rest[i]);
            }
            if rest.len() > 0 {
                assert(all.last() == rest.last());
            } else {
                assert(all =~= seq![(from, end)]);
            }
        } else {
            lemma_spans_from_nonempty(path, end + 1);
            assert(rest == all);
            assert(rest[0].0 >= end + 1);
        }
        assert(end <= length);
        lemma_segment_end_of_front(path, length, from);
        assert(path.take(length).subrange(from, end) =~= path.subrange(from, end));
        lemma_spans_of_front(path, end + 1, length);
        assert(spans_from(path.take(length), from) =~= all);
    } else {
        assert(spans_from(path.take(length), from) =~= seq![]);
        assert(spans_from(path, from) =~= seq![]);
    }
}

/// The components of what follows a front stand behind it.
proof fn lemma_shifted_spans(front: Seq<char>, rest: Seq<char>, from: int)
    requires
        0 <= from,
    ensures
        spans_from(front + rest, front.len() + from).len() == spans_from(rest, from).len(),
        forall|i: int|
            0 <= i < spans_from(rest, from).len() ==> spans_from(
                front + rest,
                front.len() + from,
            )[i] == (
                front.len() + (#[trigger] spans_from(rest, from)[i]).0,
                front.len() + spans_from(rest, from)[i].1,
            ),
    decreases rest.len() + 1 - from,
{
    if from < rest.len() {
        let whole = front + rest;
        let f = front.len() as int;
        let end = segment_end(rest, from);
        lemma_segment_end(rest, from);
        lemma_segment_end_past_prefix(front, rest, from);
        lemma_shifted_spans(front, rest, end + 1);
        assert(whole.subrange(f + from, f + end) =~= rest.subrange(from, end));
        let later = spans_from(rest, end + 1);
        if is_component(rest.subrange(from, end)) {
            assert(spans_from(rest, from) == seq![(from, end)] + later);
            assert(spans_from(whole, f + from) == seq![(f + from, f + end)] + spans_from(
                whole,
                f + end + 1,
            ));
            assert forall|i: int| 0 <= i < spans_from(rest, from).len() implies spans_from(
                whole,
                f + from,
            )[i] == (
                f + (#[trigger] spans_from(rest, from)[i]).0,
                f + spans_from(rest, from)[i].1,
            ) by {
                if i > 0 {
                    assert(spans_from(rest, from)[i] == later[i - 1]);
                }
            }
        }
    }
}

/// A path without components is empty.
proof fn lemma_some_component(path: Seq<char>)
    requires
        path.len() > 0,
    ensures
        components(path).len() > 0,
{
    lemma_segment_end(path, 0);
    if leading_span(path).len() == 0 {
        let end = segment_end(path, 0);
        let segment = path.subrange(0, end);
        assert(segment[0] == path[0]);
        if segment == seq!['.'] {
            assert(segment.len() == 1);
        }
        assert(is_component(segment));
    }
}

/// A path that begins with a separator or a `.` segment keeps its components
/// without what follows the last of them.
proof fn lemma_led_path_without_its_ending(path: Seq<char>)
    requires
        leading_span(path).len() > 0,
    ensures
        components(path.take(spans(path).last().1)) == components(path),
{
    let places = spans(path);
    let inner = spans_from(path, 0);
    let to = places.last().1;
    let front = path.take(to);
    lemma_spans_from_nonempty(path, 0);
    lemma_segment_end(path, 0);
    if inner.len() > 0 {
        assert(places.last() == inner.last());
        let first = inner[0];
        assert(first.1 <= to);
        if path[0] == '.' {
            assert(first.1 >= 1);
        }
        lemma_spans_of_front(path, 0, to);
        lemma_segment_end_of_front(path, to, 0);
    } else {
        assert(places =~= seq![(0int, 1int)]);
        lemma_segment_end(front, 0);
        lemma_segment_end_of_front(path, 1, 0);
        assert(front.subrange(0, 1) =~= seq![path[0]]);
        assert(front.subrange(0, 0) =~= seq![]);
        assert(spans_from(front, 1) =~= seq![]);
        assert(spans_from(front, 2) =~= seq![]);
        assert(spans_from(front, 0) =~= seq![]);
    }
    assert(spans_from(front, 0) == inner);
    assert(front[0] == path[0]);
    assert(leading_span(front) == leading_span(path));
    assert(spans(front) == places);
    assert forall|i: int| 0 <= i < places.len() implies #[trigger] components(front)[i]
        == components(path)[i] by {
        let place = places[i];
        if i > 0 {
            assert(place == inner[i - 1]);
        }
        assert(place.1 <= to);
        assert(front.subrange(place.0, place.1) =~= path.subrange(place.0, place.1));
    }
    assert(components(front) =~= components(path));
}

/// The components of a path from its `j`-th inner one on, as a path of their own.
proof fn lemma_tail_components(path: Seq<char>, j: int)
    requires
        0 <= j < spans_from(path, 0).len(),
    ensures
        ({
            let inner = spans_from(path, 0);
            let tail = path.subrange(inner[j].0, inner.last().1);
            &&& leading_span(tail).len() == 0
            &&& components(tail) == pieces(path, inner.skip(j))
        }),
{
    let inner = spans_from(path, 0);
    let from = inner[j].0;
    let to = inner.last().1;
    lemma_spans_from_nonempty(path, 0);
    let front = path.take(from);
    let rest = path.skip(from);
    let length = to - from;
    let tail = path.subrange(from, to);
    assert(path =~= front + rest);
    assert(tail =~= rest.take(length));
    lemma_spans_from_later(path, 0, j);
    lemma_shifted_spans(front, rest, 0);
    let kept = inner.skip(j);
    let shifted = spans_from(rest, 0);
    assert(spans_from(path, from) == kept);
    assert forall|i: int| 0 <= i < shifted.len() implies kept[i] == (
        from + (#[trigger] shifted[i]).0,
        from + shifted[i].1,
    ) && shifted[i].1 <= length by {
        assert(kept[i] == inner[j + i]);
    }
    assert(kept.last() == inner.last());
    assert(shifted.last().1 == length);
    lemma_spans_of_front(rest, 0, length);
    assert(spans_from(tail, 0) == shifted);
    lemma_spans_from_nonempty(rest, 0);
    assert(kept[0] == inner[j]);
    assert(shifted[0].0 == 0);
    assert(segment_end(rest, 0) == shifted[0].1);
    lemma_segment_end_of_front(rest, length, 0);
    assert(tail[0] == rest[0]);
    if rest[0] == '.' && segment_end(rest, 0) == 1 {
        assert(rest.subrange(0, 1) =~= seq!['.']);
    }
    assert(leading_span(tail) =~= seq![]);
    assert(spans(tail) =~= shifted);
    assert forall|i: int| 0 <= i < shifted.len() implies #[trigger] components(tail)[i] == pieces(
        path,
        kept,
    )[i] by {
        let place = shifted[i];
        assert(tail.subrange(place.0, place.1) =~= path.subrange(from + place.0, from + place.1));
    }
    assert(components(tail) =~= pieces(path, kept));
}

/// A path that was cut off from its base and joined to it again names the path
/// that it was.
pub proof fn stripped_path_joins_back(path: Seq<char>, base: Seq<char>)
    requires
        is_within(path, base),
    ensures
        same_path(joined(base, below(path, base)), path),
{
    let places = spans(path);
    let inner = spans_from(path, 0);
    let lead = leading_span(path).len() as int;
    let skipped = components(base).len() as int;
    let tail = below(path, base);
    assert(components(path).subrange(0, skipped) =~= components(base));
    if skipped >= places.len() {
        joined_path_lies_within_its_base(base, tail);
        assert(spans(tail) =~= seq![]);
        assert(components(tail) =~= seq![]);
        assert(components(base) + components(tail) =~= components(path));
    } else if skipped >= lead {
        let j = skipped - lead;
        assert(places[skipped] == inner[j]);
        assert(places.last() == inner.last());
        lemma_tail_components(path, j);
        joined_path_lies_within_its_base(base, tail);
        assert(pieces(path, inner.skip(j)) =~= components(path).skip(skipped)) by {
            assert forall|i: int| 0 <= i < inner.len() - j implies inner.skip(j)[i]
                == places[skipped + i] by {
            }
        }
        assert(components(base) + components(tail) =~= components(path));
    } else {
        assert(components(base) =~= seq![]);
        if base.len() > 0 {
            lemma_some_component(base);
        }
        assert(places[0] == (0int, 1int));
        assert(tail =~= path.take(places.last().1));
        assert(joined(base, tail) =~= tail);
        lemma_led_path_without_its_ending(path);
    }
}

/// What is left of a path within a base has the components that follow those of the base.
pub proof fn stripped_path_keeps_the_other_components(path: Seq<char>, base: Seq<char>)
    requires
        is_within(path, base),
    ensures
        components(below(path, base)) == components(path).skip(components(base).len() as int),
{
    let places = spans(path);
    let inner = spans_from(path, 0);
    let lead = leading_span(path).len() as int;
    let skipped = components(base).len() as int;
    let tail = below(path, base);
    if skipped >= places.len() {
        assert(spans(tail) =~= seq![]);
        assert(components(tail) =~= components(path).skip(skipped));
    } else if skipped >= lead {
        let j = skipped - lead;
        assert(places[skipped] == inner[j]);
        assert(places.last() == inner.last());
        lemma_tail_components(path, j);
        assert(pieces(path, inner.skip(j)) =~= components(path).skip(skipped)) by {
            assert forall|i: int| 0 <= i < inner.len() - j implies inner.skip(j)[i]
                == places[skipped + i] by {
            }
        }
    } else {
        assert(places[0] == (0int, 1int));
        assert(tail =~= path.take(places.last().1));
        lemma_led_path_without_its_ending(path);
        assert(components(path).skip(0) =~= components(path));
    }
}

/// Two texts name the same path exactly where their components are the same, one after
/// the other; a path lies within a base exactly where the components of the base come
/// first in it, and only then it is seen from there.
pub proof fn paths_are_compared_by_components(a: Seq<char>, b: Seq<char>)
    ensures
        same_path(a, b) <==> components(a).len() == components(b).len() && forall|i: int|
            0 <= i < components(a).len() ==> #[trigger] components(a)[i] == components(b)[i],
        is_within(a, b) <==> components(b).len() <= components(a).len() && forall|i: int|
            0 <= i < components(b).len() ==> #[trigger] components(b)[i] == components(a)[i],
        relative_to(a, b) is Some <==> is_within(a, b),
        is_within(a, b) ==> relative_to(a, b) == Some(below(a, b)),
        same_optional_path(Some(a), Some(b)) <==> same_path(a, b),
        !same_optional_path(Some(a), None),
        !same_optional_path(None, Some(b)),
        same_optional_path(None, None),
{
    let x = components(a);
    let y = components(b);
    if x.len() == y.len() && forall|i: int| 0 <= i < x.len() ==> #[trigger] x[i] == y[i] {
        assert(x =~= y);
    }
    if y.len() <= x.len() && forall|i: int| 0 <= i < y.len() ==> #[trigger] y[i] == x[i] {
        assert(y =~= x.subrange(0, y.len() as int));
    }
    if is_within(a, b) {
        assert(y =~= x.subrange(0, y.len() as int));
        assert forall|i: int| 0 <= i < y.len() implies #[trigger] y[i] == x[i] by {
            assert(x.subrange(0, y.len() as int)[i] == x[i]);
        }
    }
}

/// Whether a text can be the name of a file or directory other than `.`: it is not empty
/// and has no separator.
pub open spec fn is_name(segment: Seq<char>) -> bool {
    &&& segment.len() > 0
    &&& segment != seq!['.']
    &&& forall|i: int| 0 <= i < segment.len() ==> #[trigger] segment[i] != '/'
}

/// Names with a separator between every two of them.
pub open spec fn spelled(names: Seq<Seq<char>>) -> Seq<char>
    decreases names.len(),
{
    if names.len() == 0 {
        seq![]
    } else if names.len() == 1 {
        names[0]
    } else {
        names[0] + seq!['/'] + spelled(names.drop_first())
    }
}

proof fn lemma_pieces_of_a_name(name: Seq<char>)
    requires
        is_name(name),
    ensures
        pieces(name, spans_from(name, 0)) == seq![name],
        segment_end(name, 0) == name.len(),
{
    lemma_segment_end(name, 0);
    let end = segment_end(name, 0);
    if end < name.len() {
        assert(name[end] == '/');
    }
    assert(name.subrange(0, end) =~= name);
    assert(spans_from(name, end + 1) =~= seq![]);
    assert(spans_from(name, 0) =~= seq![(0int, end)]);
    assert(pieces(name, spans_from(name, 0)) =~= seq![name]);
}

proof fn lemma_pieces_of_names(names: Seq<Seq<char>>)
    requires
        forall|i: int| 0 <= i < names.len() ==> is_name(#[trigger] names[i]),
    ensures
        pieces(spelled(names), spans_from(spelled(names), 0)) == names,
        names.len() > 0 ==> spelled(names).len() > 0 && leading_span(spelled(names)).len() == 0,
    decreases names.len(),
{
    let path = spelled(names);
    if names.len() == 0 {
        assert(pieces(path, spans_from(path, 0)) =~= names);
    } else {
        let name = names[0];
        assert(is_name(name));
        assert(name[0] != '/');
        lemma_pieces_of_a_name(name);
        if name.len() == 1 && name[0] == '.' {
            assert(name =~= seq!['.']);
        }
        if names.len() == 1 {
            assert(seq![name] =~= names);
        } else {
            let rest = names.drop_first();
            assert forall|i: int| 0 <= i < rest.len() implies is_name(#[trigger] rest[i]) by {
                assert(rest[i] == names[i + 1]);
            }
            lemma_pieces_of_names(rest);
            lemma_pieces_across_separator(name, spelled(rest), 0);
            lemma_segment_end_before_separator(name, spelled(rest), 0);
            assert(path[0] == name[0]);
            assert(seq![name] + rest =~= names);
        }
    }
}

/// A path that is written down name by name has those names as its components; where it
/// is written with a leading separator, that comes first.
pub proof fn names_are_the_components(names: Seq<Seq<char>>)
    requires
        forall|i: int| 0 <= i < names.len() ==> is_name(#[trigger] names[i]),
    ensures
        components(spelled(names)) == names,
        components(seq!['/'] + spelled(names)) == seq![seq!['/']] + names,
{
    let path = spelled(names);
    lemma_pieces_of_names(names);
    let none: Seq<char> = seq![];
    if names.len() == 0 {
        assert(leading_span(path) =~= seq![]);
    }
    assert(leading_span(path) =~= seq![]);
    assert(spans(path) =~= spans_from(path, 0));
    let rooted = seq!['/'] + path;
    lemma_components_across_separator(none, path);
    assert(none + seq!['/'] + path =~= rooted);
    assert(none + seq!['/'] =~= seq!['/']);
    assert(leading_span(seq!['/']) =~= seq![(0int, 1int)]);
    assert(seq!['/'].subrange(0, 1) =~= seq!['/']);
    assert(pieces(seq!['/'], leading_span(seq!['/'])) =~= seq![seq!['/']]);
    assert(pieces(none, spans_from(none, 0)) =~= seq![]);
    assert(components(rooted) =~= seq![seq!['/']] + names);
}

/// A separator more between two parts of a path, a `.` between two separators, and a
/// separator at its end are other spellings of the same path.
pub proof fn spellings_name_the_same_path(front: Seq<char>, tail: Seq<char>)
    ensures
        same_path(front + seq!['/', '/'] + tail, front + seq!['/'] + tail),
        same_path(front + seq!['/', '.', '/'] + tail, front + seq!['/'] + tail),
        front.len() > 0 ==> same_path(front + seq!['/'], front),
{
    let none: Seq<char> = seq![];
    let dot = seq!['.'];
    assert(pieces(none, spans_from(none, 0)) =~= seq![]);
    lemma_components_across_separator(front, tail);
    let twice = seq!['/'] + tail;
    lemma_components_across_separator(front, twice);
    lemma_pieces_across_separator(none, tail, 0);
    assert(none + seq!['/'] + tail =~= twice);
    assert(seq![] + pieces(tail, spans_from(tail, 0)) =~= pieces(tail, spans_from(tail, 0)));
    assert(front + seq!['/'] + twice =~= front + seq!['/', '/'] + tail);
    let dotted = dot + seq!['/'] + tail;
    lemma_components_across_separator(front, dotted);
    lemma_pieces_across_separator(dot, tail, 0);
    lemma_segment_end(dot, 0);
    assert(dot.subrange(0, 1) =~= dot);
    assert(dot[0] != '/');
    assert(segment_end(dot, 0) == 1) by {
        assert(segment_end(dot, 1) == 1);
    }
    assert(spans_from(dot, 2) =~= seq![]);
    assert(spans_from(dot, 0) =~= seq![]);
    assert(pieces(dot, spans_from(dot, 0)) =~= seq![]);
    assert(front + seq!['/'] + dotted =~= front + seq!['/', '.', '/'] + tail);
    if front.len() > 0 {
        joined_path_lies_within_its_base(front, none);
        assert(leading_span(none) =~= seq![]);
        assert(spans(none) =~= seq![]);
        assert(components(none) =~= seq![]);
        assert(components(front) + components(none) =~= components(front));
        if front.last() == '/' {
            let start = front.drop_last();
            let rest = seq!['/'];
            assert(front + seq!['/'] =~= start + seq!['/'] + rest);
            assert(front =~= start + seq!['/'] + none);
            lemma_components_across_separator(start, rest);
            lemma_components_across_separator(start, none);
            lemma_pieces_across_separator(none, none, 0);
            assert(none + seq!['/'] + none =~= rest);
            assert(seq![] + seq![] =~= Seq::<Seq<char>>::empty());
        } else {
            assert(joined(front, none) =~= front + seq!['/']);
        }
    }
}

/// A path that is extended begins with what it was and ends with its extension, with a
/// separator between them unless there is one or nothing before it; an absolute extension
/// takes its place.
pub proof fn extended_paths_keep_both_parts(base: Seq<char>, tail: Seq<char>)
    ensures
        tail.len() > 0 && tail[0] == '/' ==> joined(base, tail) == tail,
        !(tail.len() > 0 && tail[0] == '/') ==> {
            let path = joined(base, tail);
            &&& path.take(base.len() as int) == base
            &&& path.skip(path.len() - tail.len()) == tail
            &&& base.len() == 0 || base.last() == '/' ==> path.len() == base.len() + tail.len()
            &&& base.len() > 0 && base.last() != '/' ==> path.len() == base.len() + 1 + tail.len()
                && path[base.len() as int] == '/'
        },
{
    let path = joined(base, tail);
    if !(tail.len() > 0 && tail[0] == '/') {
        assert(path.take(base.len() as int) =~= base);
        assert(path.skip(path.len() - tail.len()) =~= tail);
    }
}

/// A path is one of a Markdown file exactly where its last component ends in `.md` with
/// something before that, so too where it stands in a directory.
pub proof fn markdown_goes_by_the_last_component(path: Seq<char>, base: Seq<char>, stem: Seq<char>)
    ensures
        is_markdown(path) <==> components(path).len() > 0 && {
            let name = components(path).last();
            let n = name.len() as int;
            n > 3 && name[n - 3] == '.' && name[n - 2] == 'm' && name[n - 1] == 'd'
        },
        is_name(stem) ==> is_markdown(joined(base, stem + seq!['.', 'm', 'd'])),
{
    let parts = components(path);
    if parts.len() > 0 && parts.last().len() > 3 {
        let name = parts.last();
        let n = name.len() as int;
        let end = name.subrange(n - 3, n);
        assert(end[0] == name[n - 3] && end[1] == name[n - 2] && end[2] == name[n - 1]);
        if name[n - 3] == '.' && name[n - 2] == 'm' && name[n - 1] == 'd' {
            assert(end =~= seq!['.', 'm', 'd']);
        }
    }
    if is_name(stem) {
        let name = stem + seq!['.', 'm', 'd'];
        assert forall|i: int| 0 <= i < name.len() implies #[trigger] name[i] != '/' by {
            if i < stem.len() {
                assert(name[i] == stem[i]);
            }
        }
        assert(name.len() != seq!['.'].len());
        assert(is_name(name));
        let names = seq![name];
        assert(spelled(names) == name);
        lemma_pieces_of_names(names);
        names_are_the_components(names);
        joined_path_lies_within_its_base(base, name);
        let whole = components(joined(base, name));
        assert(whole.last() == name);
        assert(name.subrange(name.len() - 3, name.len() as int) =~= seq!['.', 'm', 'd']);
    }
}

/// What is left of a path within a base stands in the path as it is written: from the
/// first of the components that follow those of the base up to the end of the last one.
pub proof fn stripped_path_is_a_part_of_the_path(path: Seq<char>, base: Seq<char>)
    requires
        is_within(path, base),
    ensures
        ({
            let tail = below(path, base);
            let others = components(path).skip(components(base).len() as int);
            &&& others.len() == 0 ==> tail.len() == 0
            &&& others.len() > 0 ==> {
                &&& others.first().is_prefix_of(tail)
                &&& others.last().is_suffix_of(tail)
                &&& exists|from: int, to: int|
                    #![trigger path.subrange(from, to)]
                    0 <= from <= to <= path.len() && tail == path.subrange(from, to)
            }
        }),
{
    let places = spans(path);
    let skipped = components(base).len() as int;
    let tail = below(path, base);
    let others = components(path).skip(skipped);
    lemma_spans_in_bounds(path);
    if others.len() > 0 {
        let first = places[skipped];
        let last = places.last();
        assert(others.first() == path.subrange(first.0, first.1));
        assert(others.last() == path.subrange(last.0, last.1));
        assert(first.0 <= last.0 && first.1 <= last.1);
        assert(tail == path.subrange(first.0, last.1));
        assert(tail.subrange(0, others.first().len() as int) =~= others.first());
        assert(tail.subrange(tail.len() - others.last().len(), tail.len() as int)
            =~= others.last());
    }
}

} // verus!
