//! What the knowledge-tree panel asks of the runtime, and which answers it takes.

use crate::hierarchy::{HierarchyProjection, HierarchyView};
use crate::invocation::{
    hierarchy_invocation, hierarchy_set_parent_arguments, hierarchy_tree_arguments,
    set_parent_invocation,
};
use crate::knowledge_tree::{loaded_view, projection_view};
use crate::runtime::{
    failed, failure_of, interpret, interpreted, Command, CommandOutput, RuntimeConfiguration,
};
use crate::text::borrowed_text;
use vstd::prelude::*;
use vstd::string::*;

verus! {

/// The version of the projection that the panel reads.
pub const PROJECTION_VERSION: u8 = 1;

/// The title under which a failure to open a row is reported.
pub const OPEN_FAILURE_TITLE: &'static str = "Altere could not open the hierarchy item";

/// The title under which a failure to move a row is reported.
pub const MOVE_FAILURE_TITLE: &'static str = "Altere could not move the hierarchy item";

/// The command that asks for the tree.
pub fn load_command(configuration: &RuntimeConfiguration) -> (command: Command)
    ensures
        command@ == interpreted(
            configuration@.bun,
            hierarchy_tree_arguments(configuration@.runtime, configuration@.collection),
        ),
{
    interpret(
        configuration,
        hierarchy_invocation(
            configuration.runtime.as_str(),
            configuration.collection.as_str(),
        ).as_slice(),
    )
}

/// The command that asks for a move.
pub fn set_parent_command(
    configuration: &RuntimeConfiguration,
    source_id: &str,
    parent_id: Option<&str>,
) -> (command: Command)
    ensures
        command@ == interpreted(
            configuration@.bun,
            hierarchy_set_parent_arguments(
                configuration@.runtime,
                configuration@.collection,
                source_id@,
                borrowed_text(parent_id),
            ),
        ),
{
    interpret(
        configuration,
        set_parent_invocation(
            configuration.runtime.as_str(),
            configuration.collection.as_str(),
            source_id,
            parent_id,
        ).as_slice(),
    )
}

/// What is taken from the command that asks for the tree: what it decodes to,
/// where it succeeded and wrote a projection of the version that is read.
pub open spec fn accepted(
    output: CommandOutput,
    decoded: Option<HierarchyView>,
) -> Result<HierarchyView, Seq<char>> {
    match (failed(output, "Altere hierarchy runtime failed"@), decoded) {
        (Some(message), _) => Err(message),
        (None, None) => Err("decoding the Altere hierarchy projection"@),
        (None, Some(projection)) => if projection.version == PROJECTION_VERSION {
            Ok(projection)
        } else {
            Err("unsupported Altere hierarchy projection"@)
        },
    }
}

/// Takes the answer to a request for the tree, given what its output decodes to.
pub fn accept_projection(output: &CommandOutput, decoded: Option<HierarchyProjection>) -> (result:
    Result<HierarchyProjection, String>)
    ensures
        loaded_view(result) == accepted(*output, projection_view(decoded)),
{
    if let Some(message) = failure_of(output, "Altere hierarchy runtime failed") {
        return Err(message);
    }
    match decoded {
        Some(projection) => {
            if projection.version == PROJECTION_VERSION {
                Ok(projection)
            } else {
                Err("unsupported Altere hierarchy projection".to_string())
            }
        },
        None => Err("decoding the Altere hierarchy projection".to_string()),
    }
}

/// Takes the answer to a request for a move: why it was refused, if it was.
pub fn accept_move(output: &CommandOutput) -> (refusal: Option<String>)
    ensures
        crate::text::owned_text(refusal) == failed(*output, "Altere hierarchy mutation failed"@),
{
    failure_of(output, "Altere hierarchy mutation failed")
}

} // verus!
