//! What the priority-queue panel asks of the runtime, and which answers it takes.

use crate::invocation::{
    priority_invocation, priority_set_arguments, queue_invocation, rotation_queue_arguments,
};
use crate::priority_queue::{loaded_view, projection_view, QueueProjection, QueueView};
use crate::runtime::{
    failed, failure_of, interpret, interpreted, Command, CommandOutput, RuntimeConfiguration,
};
use crate::text::owned_text;
use vstd::prelude::*;
use vstd::string::*;

verus! {

/// The version of the projection that the panel reads.
pub const PROJECTION_VERSION: u8 = 1;

/// The title under which a failure to open a row is reported.
pub const OPEN_FAILURE_TITLE: &'static str = "Altere could not open the queue item";

/// The command that asks for the queue.
pub fn load_command(configuration: &RuntimeConfiguration) -> (command: Command)
    ensures
        command@ == interpreted(
            configuration@.bun,
            rotation_queue_arguments(configuration@.runtime, configuration@.collection),
        ),
{
    interpret(
        configuration,
        queue_invocation(
            configuration.runtime.as_str(),
            configuration.collection.as_str(),
        ).as_slice(),
    )
}

/// The command that sets a priority, on condition that the source is still the
/// one with the given fingerprint.
pub fn set_priority_command(
    configuration: &RuntimeConfiguration,
    source: &str,
    priority: u8,
    expected_fingerprint: &str,
) -> (command: Command)
    ensures
        command@ == interpreted(
            configuration@.bun,
            priority_set_arguments(
                configuration@.runtime,
                configuration@.collection,
                source@,
                priority as nat,
                expected_fingerprint@,
            ),
        ),
{
    interpret(
        configuration,
        priority_invocation(
            configuration.runtime.as_str(),
            configuration.collection.as_str(),
            source,
            priority,
            expected_fingerprint,
        ).as_slice(),
    )
}

/// What is taken from the command that asks for the queue: what it decodes to,
/// where it succeeded and wrote a projection of the version that is read.
pub open spec fn accepted(output: CommandOutput, decoded: Option<QueueView>) -> Result<
    QueueView,
    Seq<char>,
> {
    match (failed(output, "Altere queue runtime failed"@), decoded) {
        (Some(message), _) => Err(message),
        (None, None) => Err("decoding the Altere queue projection"@),
        (None, Some(projection)) => if projection.version == PROJECTION_VERSION {
            Ok(projection)
        } else {
            Err("unsupported Altere queue projection"@)
        },
    }
}

/// Takes the answer to a request for the queue, given what its output decodes to.
pub fn accept_projection(output: &CommandOutput, decoded: Option<QueueProjection>) -> (result:
    Result<QueueProjection, String>)
    ensures
        loaded_view(result) == accepted(*output, projection_view(decoded)),
{
    if let Some(message) = failure_of(output, "Altere queue runtime failed") {
        return Err(message);
    }
    match decoded {
        Some(projection) => {
            if projection.version == PROJECTION_VERSION {
                Ok(projection)
            } else {
                Err("unsupported Altere queue projection".to_string())
            }
        },
        None => Err("decoding the Altere queue projection".to_string()),
    }
}

/// Takes the answer to a request for another priority: why it was refused, if it
/// was.
pub fn accept_priority(output: &CommandOutput) -> (refusal: Option<String>)
    ensures
        owned_text(refusal) == failed(*output, "Altere priority mutation failed"@),
{
    failure_of(output, "Altere priority mutation failed")
}

} // verus!
