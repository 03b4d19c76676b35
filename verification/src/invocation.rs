//! The command lines that are handed to the standalone runtime.
//!
//! Every one names the runtime first, then the command as two words, then the
//! collection it is about; what else a command needs follows as options.

use crate::text::{decimal, decimal_text, texts};
use vstd::prelude::*;

verus! {

/// The arguments of `rotation next`.
pub open spec fn rotation_next_arguments(
    runtime: Seq<char>,
    collection: Seq<char>,
    operation_id: Seq<char>,
) -> Seq<Seq<char>> {
    seq![
        runtime,
        "rotation"@,
        "next"@,
        "--collection"@,
        collection,
        "--operation-id"@,
        operation_id,
    ]
}

/// Asks the runtime to advance the rotation, under the identity of one gesture.
pub fn runtime_invocation(
    runtime: &str,
    collection: &str,
    operation_id: &str,
) -> (arguments: [String; 7])
    ensures
        texts(arguments@) == rotation_next_arguments(runtime@, collection@, operation_id@),
{
    [
        runtime.to_string(),
        "rotation".to_string(),
        "next".to_string(),
        "--collection".to_string(),
        collection.to_string(),
        "--operation-id".to_string(),
        operation_id.to_string(),
    ]
}

/// The arguments of `rotation current`.
pub open spec fn rotation_current_arguments(
    runtime: Seq<char>,
    collection: Seq<char>,
) -> Seq<Seq<char>> {
    seq![runtime, "rotation"@, "current"@, "--collection"@, collection]
}

/// Asks the runtime which repetition is current, before the rotation moves.
pub fn current_runtime_invocation(runtime: &str, collection: &str) -> (arguments: [String; 5])
    ensures
        texts(arguments@) == rotation_current_arguments(runtime@, collection@),
{
    [
        runtime.to_string(),
        "rotation".to_string(),
        "current".to_string(),
        "--collection".to_string(),
        collection.to_string(),
    ]
}

/// Asks the runtime which repetition is current, to guide attention.
pub fn current_invocation(runtime: &str, collection: &str) -> (arguments: [String; 5])
    ensures
        texts(arguments@) == rotation_current_arguments(runtime@, collection@),
{
    [
        runtime.to_string(),
        "rotation".to_string(),
        "current".to_string(),
        "--collection".to_string(),
        collection.to_string(),
    ]
}

/// The arguments of `rotation queue`.
pub open spec fn rotation_queue_arguments(
    runtime: Seq<char>,
    collection: Seq<char>,
) -> Seq<Seq<char>> {
    seq![runtime, "rotation"@, "queue"@, "--collection"@, collection]
}

/// Asks the runtime for the priority queue.
pub fn queue_invocation(runtime: &str, collection: &str) -> (arguments: [String; 5])
    ensures
        texts(arguments@) == rotation_queue_arguments(runtime@, collection@),
{
    [
        runtime.to_string(),
        "rotation".to_string(),
        "queue".to_string(),
        "--collection".to_string(),
        collection.to_string(),
    ]
}

/// The arguments of `hierarchy tree`.
pub open spec fn hierarchy_tree_arguments(
    runtime: Seq<char>,
    collection: Seq<char>,
) -> Seq<Seq<char>> {
    seq![runtime, "hierarchy"@, "tree"@, "--collection"@, collection]
}

/// Asks the runtime for the knowledge tree.
pub fn hierarchy_invocation(runtime: &str, collection: &str) -> (arguments: [String; 5])
    ensures
        texts(arguments@) == hierarchy_tree_arguments(runtime@, collection@),
{
    [
        runtime.to_string(),
        "hierarchy".to_string(),
        "tree".to_string(),
        "--collection".to_string(),
        collection.to_string(),
    ]
}

/// The arguments of `annotation proposal`.
pub open spec fn annotation_proposal_arguments(
    runtime: Seq<char>,
    collection: Seq<char>,
    source_path: Seq<char>,
) -> Seq<Seq<char>> {
    seq![runtime, "annotation"@, "proposal"@, "--collection"@, collection, "--source"@, source_path]
}

/// Asks the runtime for the proposal that waits on a source.
pub fn proposal_invocation(
    runtime: &str,
    collection: &str,
    source_path: &str,
) -> (arguments: [String; 7])
    ensures
        texts(arguments@) == annotation_proposal_arguments(runtime@, collection@, source_path@),
{
    [
        runtime.to_string(),
        "annotation".to_string(),
        "proposal".to_string(),
        "--collection".to_string(),
        collection.to_string(),
        "--source".to_string(),
        source_path.to_string(),
    ]
}

/// The arguments of `annotation depart`.
pub open spec fn annotation_depart_arguments(
    runtime: Seq<char>,
    collection: Seq<char>,
    source_path: Seq<char>,
) -> Seq<Seq<char>> {
    seq![runtime, "annotation"@, "depart"@, "--collection"@, collection, "--source"@, source_path]
}

/// Tells the runtime that a source was left.
pub fn annotation_departure_invocation(
    runtime: &str,
    collection: &str,
    source_path: &str,
) -> (arguments: [String; 7])
    ensures
        texts(arguments@) == annotation_depart_arguments(runtime@, collection@, source_path@),
{
    [
        runtime.to_string(),
        "annotation".to_string(),
        "depart".to_string(),
        "--collection".to_string(),
        collection.to_string(),
        "--source".to_string(),
        source_path.to_string(),
    ]
}

/// The arguments of `annotation acknowledge`.
pub open spec fn annotation_acknowledge_arguments(
    runtime: Seq<char>,
    collection: Seq<char>,
    annotation_id: Seq<char>,
    thread_id: Seq<char>,
) -> Seq<Seq<char>> {
    seq![
        runtime,
        "annotation"@,
        "acknowledge"@,
        "--collection"@,
        collection,
        "--annotation-id"@,
        annotation_id,
        "--thread-id"@,
        thread_id,
    ]
}

/// Tells the runtime which thread took an annotation over.
pub fn annotation_acknowledgement_invocation(
    runtime: &str,
    collection: &str,
    annotation_id: &str,
    thread_id: &str,
) -> (arguments: [String; 9])
    ensures
        texts(arguments@) == annotation_acknowledge_arguments(
            runtime@,
            collection@,
            annotation_id@,
            thread_id@,
        ),
{
    [
        runtime.to_string(),
        "annotation".to_string(),
        "acknowledge".to_string(),
        "--collection".to_string(),
        collection.to_string(),
        "--annotation-id".to_string(),
        annotation_id.to_string(),
        "--thread-id".to_string(),
        thread_id.to_string(),
    ]
}

/// The arguments of `hierarchy set-parent`; without a parent the source
/// becomes a root.
pub open spec fn hierarchy_set_parent_arguments(
    runtime: Seq<char>,
    collection: Seq<char>,
    source_id: Seq<char>,
    parent_id: Option<Seq<char>>,
) -> Seq<Seq<char>> {
    let base = seq![
        runtime,
        "hierarchy"@,
        "set-parent"@,
        "--collection"@,
        collection,
        "--source"@,
        source_id,
    ];
    match parent_id {
        Some(parent_id) => base + seq!["--parent"@, parent_id],
        None => base,
    }
}

/// Asks the runtime to move a source below a parent, or to the roots.
pub fn set_parent_invocation(
    runtime: &str,
    collection: &str,
    source_id: &str,
    parent_id: Option<&str>,
) -> (arguments: Vec<String>)
    ensures
        texts(arguments@) == hierarchy_set_parent_arguments(
            runtime@,
            collection@,
            source_id@,
            crate::text::borrowed_text(parent_id),
        ),
{
    let mut arguments: Vec<String> = Vec::new();
    arguments.push(runtime.to_string());
    arguments.push("hierarchy".to_string());
    arguments.push("set-parent".to_string());
    arguments.push("--collection".to_string());
    arguments.push(collection.to_string());
    arguments.push("--source".to_string());
    arguments.push(source_id.to_string());
    if let Some(parent_id) = parent_id {
        arguments.push("--parent".to_string());
        arguments.push(parent_id.to_string());
    }
    arguments
}

/// The arguments of `priority set`.
pub open spec fn priority_set_arguments(
    runtime: Seq<char>,
    collection: Seq<char>,
    source: Seq<char>,
    priority: nat,
    expected_fingerprint: Seq<char>,
) -> Seq<Seq<char>> {
    seq![
        runtime,
        "priority"@,
        "set"@,
        "--collection"@,
        collection,
        "--source"@,
        source,
        "--value"@,
        decimal(priority),
        "--expected-fingerprint"@,
        expected_fingerprint,
    ]
}

/// Asks the runtime to set a priority, provided that the source still has the
/// fingerprint under which it was shown.
pub fn priority_invocation(
    runtime: &str,
    collection: &str,
    source: &str,
    priority: u8,
    expected_fingerprint: &str,
) -> (arguments: [String; 11])
    ensures
        texts(arguments@) == priority_set_arguments(
            runtime@,
            collection@,
            source@,
            priority as nat,
            expected_fingerprint@,
        ),
{
    [
        runtime.to_string(),
        "priority".to_string(),
        "set".to_string(),
        "--collection".to_string(),
        collection.to_string(),
        "--source".to_string(),
        source.to_string(),
        "--value".to_string(),
        decimal_text(priority as usize),
        "--expected-fingerprint".to_string(),
        expected_fingerprint.to_string(),
    ]
}

/// The arguments of `proposal keep` and `proposal reject`.
pub open spec fn proposal_resolution_arguments(
    runtime: Seq<char>,
    collection: Seq<char>,
    proposal_id: Seq<char>,
    outcome: Seq<char>,
) -> Seq<Seq<char>> {
    seq![
        runtime,
        "proposal"@,
        outcome,
        "--collection"@,
        collection,
        "--proposal-id"@,
        proposal_id,
    ]
}

/// Asks the runtime to settle a proposal with the given outcome.
pub fn proposal_resolution_invocation(
    runtime: &str,
    collection: &str,
    proposal_id: &str,
    outcome: &str,
) -> (arguments: [String; 7])
    ensures
        texts(arguments@) == proposal_resolution_arguments(
            runtime@,
            collection@,
            proposal_id@,
            outcome@,
        ),
{
    [
        runtime.to_string(),
        "proposal".to_string(),
        outcome.to_string(),
        "--collection".to_string(),
        collection.to_string(),
        "--proposal-id".to_string(),
        proposal_id.to_string(),
    ]
}

/// Whether a command line addresses a runtime about a collection.
pub open spec fn addresses(
    arguments: Seq<Seq<char>>,
    runtime: Seq<char>,
    collection: Seq<char>,
) -> bool {
    &&& arguments.len() >= 5
    &&& arguments[0] == runtime
    &&& arguments[3] == "--collection"@
    &&& arguments[4] == collection
}

/// Whether a command line only asks for a projection of what the runtime owns.
pub open spec fn is_query(arguments: Seq<Seq<char>>) -> bool {
    let command = (arguments[1], arguments[2]);
    ||| command == ("rotation"@, "current"@)
    ||| command == ("rotation"@, "queue"@)
    ||| command == ("hierarchy"@, "tree"@)
    ||| command == ("annotation"@, "proposal"@)
}

/// Whatever is asked, the runtime that runs and the collection it works on are
/// the ones that were given.
pub proof fn every_command_addresses_its_collection(
    runtime: Seq<char>,
    collection: Seq<char>,
    first: Seq<char>,
    second: Seq<char>,
    parent: Option<Seq<char>>,
    priority: nat,
)
    ensures
        addresses(rotation_next_arguments(runtime, collection, first), runtime, collection),
        addresses(rotation_current_arguments(runtime, collection), runtime, collection),
        addresses(rotation_queue_arguments(runtime, collection), runtime, collection),
        addresses(hierarchy_tree_arguments(runtime, collection), runtime, collection),
        addresses(annotation_proposal_arguments(runtime, collection, first), runtime, collection),
        addresses(annotation_depart_arguments(runtime, collection, first), runtime, collection),
        addresses(
            annotation_acknowledge_arguments(runtime, collection, first, second),
            runtime,
            collection,
        ),
        addresses(
            hierarchy_set_parent_arguments(runtime, collection, first, parent),
            runtime,
            collection,
        ),
        addresses(
            priority_set_arguments(runtime, collection, first, priority, second),
            runtime,
            collection,
        ),
        addresses(
            proposal_resolution_arguments(runtime, collection, first, second),
            runtime,
            collection,
        ),
{
}

/// A request for a projection is never the command line of a change, whatever
/// texts either one carries.
pub proof fn projections_never_ask_for_a_change(
    runtime: Seq<char>,
    collection: Seq<char>,
    first: Seq<char>,
    second: Seq<char>,
    parent: Option<Seq<char>>,
    priority: nat,
)
    ensures
        is_query(rotation_current_arguments(runtime, collection)),
        is_query(rotation_queue_arguments(runtime, collection)),
        is_query(hierarchy_tree_arguments(runtime, collection)),
        is_query(annotation_proposal_arguments(runtime, collection, first)),
        !is_query(rotation_next_arguments(runtime, collection, first)),
        !is_query(annotation_depart_arguments(runtime, collection, first)),
        !is_query(annotation_acknowledge_arguments(runtime, collection, first, second)),
        !is_query(hierarchy_set_parent_arguments(runtime, collection, first, parent)),
        !is_query(priority_set_arguments(runtime, collection, first, priority, second)),
        !is_query(proposal_resolution_arguments(runtime, collection, first, second)),
{
    reveal_strlit("rotation");
    reveal_strlit("current");
    reveal_strlit("queue");
    reveal_strlit("next");
    reveal_strlit("hierarchy");
    reveal_strlit("tree");
    reveal_strlit("set-parent");
    reveal_strlit("annotation");
    reveal_strlit("proposal");
    reveal_strlit("depart");
    reveal_strlit("acknowledge");
    reveal_strlit("priority");
    reveal_strlit("set");
    assert("next"@[0] == 'n');
    assert("tree"@[0] == 't');
    assert("rotation"@[0] == 'r');
    assert("proposal"@[0] == 'p');
    assert("priority"@[0] == 'p');
    assert("hierarchy"@[0] == 'h');
    assert("annotation"@[0] == 'a');
}

/// The command line of a move says which source goes below which parent: two
/// different moves never share one.
pub proof fn moves_are_unambiguous(
    runtime: Seq<char>,
    collection: Seq<char>,
    source: Seq<char>,
    other_source: Seq<char>,
    parent: Option<Seq<char>>,
    other_parent: Option<Seq<char>>,
)
    requires
        hierarchy_set_parent_arguments(runtime, collection, source, parent)
            == hierarchy_set_parent_arguments(runtime, collection, other_source, other_parent),
    ensures
        source == other_source,
        parent == other_parent,
{
    let a = hierarchy_set_parent_arguments(runtime, collection, source, parent);
    let b = hierarchy_set_parent_arguments(runtime, collection, other_source, other_parent);
    assert(a[6] == b[6]);
    assert(a.len() == b.len());
    if parent is Some {
        assert(a[8] == b[8]);
    }
}

/// The command line of a priority says which source gets which value under
/// which fingerprint.
pub proof fn priorities_are_unambiguous(
    runtime: Seq<char>,
    collection: Seq<char>,
    source: Seq<char>,
    other_source: Seq<char>,
    priority: nat,
    other_priority: nat,
    fingerprint: Seq<char>,
    other_fingerprint: Seq<char>,
)
    requires
        priority_set_arguments(runtime, collection, source, priority, fingerprint)
            == priority_set_arguments(
            runtime,
            collection,
            other_source,
            other_priority,
            other_fingerprint,
        ),
    ensures
        source == other_source,
        priority == other_priority,
        fingerprint == other_fingerprint,
{
    let a = priority_set_arguments(runtime, collection, source, priority, fingerprint);
    let b = priority_set_arguments(
        runtime,
        collection,
        other_source,
        other_priority,
        other_fingerprint,
    );
    assert(a[6] == b[6]);
    assert(a[8] == b[8]);
    assert(a[10] == b[10]);
    crate::text::decimal_is_injective(priority, other_priority);
}

/// Every command line says what it is for in its second and third word, and each option
/// is followed by its value.
pub proof fn command_lines_spell_their_command(
    runtime: Seq<char>,
    collection: Seq<char>,
    first: Seq<char>,
    second: Seq<char>,
    parent: Seq<char>,
    priority: nat,
)
    ensures
        rotation_next_arguments(runtime, collection, first) == seq![
            runtime,
            "rotation"@,
            "next"@,
            "--collection"@,
            collection,
            "--operation-id"@,
            first,
        ],
        rotation_current_arguments(runtime, collection).subrange(1, 3) == seq![
            "rotation"@,
            "current"@,
        ],
        rotation_queue_arguments(runtime, collection).subrange(1, 3) == seq!["rotation"@, "queue"@],
        hierarchy_tree_arguments(runtime, collection).subrange(1, 3) == seq!["hierarchy"@, "tree"@],
        rotation_current_arguments(runtime, collection).len() == 5,
        rotation_queue_arguments(runtime, collection).len() == 5,
        hierarchy_tree_arguments(runtime, collection).len() == 5,
        annotation_proposal_arguments(runtime, collection, first).subrange(1, 3) == seq![
            "annotation"@,
            "proposal"@,
        ],
        annotation_proposal_arguments(runtime, collection, first).skip(5) == seq![
            "--source"@,
            first,
        ],
        annotation_depart_arguments(runtime, collection, first).subrange(1, 3) == seq![
            "annotation"@,
            "depart"@,
        ],
        annotation_depart_arguments(runtime, collection, first).skip(5) == seq!["--source"@, first],
        annotation_acknowledge_arguments(runtime, collection, first, second).subrange(1, 3)
            == seq!["annotation"@, "acknowledge"@],
        annotation_acknowledge_arguments(runtime, collection, first, second).skip(5) == seq![
            "--annotation-id"@,
            first,
            "--thread-id"@,
            second,
        ],
        hierarchy_set_parent_arguments(runtime, collection, first, None).subrange(1, 3) == seq![
            "hierarchy"@,
            "set-parent"@,
        ],
        hierarchy_set_parent_arguments(runtime, collection, first, None).skip(5) == seq![
            "--source"@,
            first,
        ],
        hierarchy_set_parent_arguments(runtime, collection, first, Some(parent))
            == hierarchy_set_parent_arguments(runtime, collection, first, None) + seq![
            "--parent"@,
            parent,
        ],
        priority_set_arguments(runtime, collection, first, priority, second).subrange(1, 3) == seq![
            "priority"@,
            "set"@,
        ],
        priority_set_arguments(runtime, collection, first, priority, second).skip(5) == seq![
            "--source"@,
            first,
            "--value"@,
            decimal(priority),
            "--expected-fingerprint"@,
            second,
        ],
        proposal_resolution_arguments(runtime, collection, first, second).subrange(1, 3) == seq![
            "proposal"@,
            second,
        ],
        proposal_resolution_arguments(runtime, collection, first, second).skip(5) == seq![
            "--proposal-id"@,
            first,
        ],
{
}

} // verus!
