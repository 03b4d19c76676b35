//! A change of priority as the runtime carries it out, and the load that follows.

use crate::invocation::{priority_set_arguments, rotation_queue_arguments};
use crate::priority_queue::loading::{
    accept_priority, accept_projection, accepted, load_command, set_priority_command,
};
use crate::priority_queue::{loaded_view, projection_view, QueueProjection, QueueView};
use crate::runtime::{
    configuration_view, failed, interpreted, lacking_text, Command, CommandOutput, CommandView,
    ConfigurationError, RuntimeConfiguration, RuntimeView,
};
use crate::text::{decimal, text_of_bytes, trimmed};
use vstd::prelude::*;

verus! {

/// A change in progress: the runtime is asked for it, then for the queue anew. A
/// refresh begins with the second.
pub enum Change {
    Asked,
    Loading,
    Finished,
}

/// What a change in progress says.
pub enum ChangeStage {
    Asked,
    Loading,
    Finished,
}

impl View for Change {
    type V = ChangeStage;

    open spec fn view(&self) -> ChangeStage {
        match self {
            Change::Asked => ChangeStage::Asked,
            Change::Loading => ChangeStage::Loading,
            Change::Finished => ChangeStage::Finished,
        }
    }
}

/// What happened to a change in progress. The answer to the change comes with where
/// the runtime is then, and the answer with the queue with what it decodes to.
pub enum ChangeEvent {
    Answered {
        output: CommandOutput,
        configuration: Result<RuntimeConfiguration, ConfigurationError>,
    },
    Loaded { output: CommandOutput, decoded: Option<QueueProjection> },
    Failed(String),
}

/// What a change asks for next, or what it came to: a projection, or why there is
/// none.
pub enum ChangeAction {
    Run(Command),
    Finish(Result<QueueProjection, String>),
    Wait,
}

/// What is asked for.
pub enum ChangeActionView {
    Run(CommandView),
    Finish(Result<QueueView, Seq<char>>),
    Wait,
}

impl View for ChangeAction {
    type V = ChangeActionView;

    open spec fn view(&self) -> ChangeActionView {
        match self {
            ChangeAction::Run(command) => ChangeActionView::Run(command@),
            ChangeAction::Finish(result) => ChangeActionView::Finish(loaded_view(*result)),
            ChangeAction::Wait => ChangeActionView::Wait,
        }
    }
}

/// A change that ended without success.
pub open spec fn failing(message: Seq<char>) -> (ChangeStage, ChangeActionView) {
    (ChangeStage::Finished, ChangeActionView::Finish(Err(message)))
}

/// How the queue is loaded: the runtime is asked for it, where it is found.
pub open spec fn load_begins(configuration: Result<RuntimeView, ConfigurationError>) -> (
    ChangeStage,
    ChangeActionView,
) {
    match configuration {
        Ok(configuration) => (
            ChangeStage::Loading,
            ChangeActionView::Run(
                interpreted(
                    configuration.bun,
                    rotation_queue_arguments(configuration.runtime, configuration.collection),
                ),
            ),
        ),
        Err(error) => failing(lacking_text(error)),
    }
}

/// How a change of priority begins: the runtime is asked for it, where it is found.
pub open spec fn change_begins(
    source: Seq<char>,
    priority: nat,
    expected_fingerprint: Seq<char>,
    configuration: Result<RuntimeView, ConfigurationError>,
) -> (ChangeStage, ChangeActionView) {
    match configuration {
        Ok(configuration) => (
            ChangeStage::Asked,
            ChangeActionView::Run(
                interpreted(
                    configuration.bun,
                    priority_set_arguments(
                        configuration.runtime,
                        configuration.collection,
                        source,
                        priority,
                        expected_fingerprint,
                    ),
                ),
            ),
        ),
        Err(error) => failing(lacking_text(error)),
    }
}

/// How a change goes on. One that was refused ends with the reason; else the
/// queue is loaded, and the change ends with what is taken from that. Events that
/// the state does not wait for change nothing.
pub open spec fn change_goes_on(state: ChangeStage, event: ChangeEvent) -> (
    ChangeStage,
    ChangeActionView,
) {
    match (state, event) {
        (ChangeStage::Finished, _) => (state, ChangeActionView::Wait),
        (_, ChangeEvent::Failed(message)) => failing(message@),
        (ChangeStage::Asked, ChangeEvent::Answered { output, configuration }) => match failed(
            output,
            "Altere priority mutation failed"@,
        ) {
            Some(message) => failing(message),
            None => load_begins(configuration_view(configuration)),
        },
        (ChangeStage::Loading, ChangeEvent::Loaded { output, decoded }) => (
            ChangeStage::Finished,
            ChangeActionView::Finish(accepted(output, projection_view(decoded))),
        ),
        _ => (state, ChangeActionView::Wait),
    }
}

/// Begins to load the queue.
pub fn load_projection(configuration: Result<RuntimeConfiguration, ConfigurationError>) -> (begun: (
    Change,
    ChangeAction,
))
    ensures
        (begun.0@, begun.1@) == load_begins(configuration_view(configuration)),
{
    match configuration {
        Ok(configuration) => (
            Change::Loading,
            ChangeAction::Run(load_command(&configuration)),
        ),
        Err(error) => (Change::Finished, ChangeAction::Finish(Err(error.message()))),
    }
}

/// Begins a change of priority.
pub fn set_priority(
    source: &str,
    priority: u8,
    expected_fingerprint: &str,
    configuration: Result<RuntimeConfiguration, ConfigurationError>,
) -> (begun: (Change, ChangeAction))
    ensures
        (begun.0@, begun.1@) == change_begins(
            source@,
            priority as nat,
            expected_fingerprint@,
            configuration_view(configuration),
        ),
{
    match configuration {
        Ok(configuration) => (
            Change::Asked,
            ChangeAction::Run(set_priority_command(&configuration, source, priority, expected_fingerprint)),
        ),
        Err(error) => (Change::Finished, ChangeAction::Finish(Err(error.message()))),
    }
}

impl Change {
    /// Goes on after an event.
    pub fn step(self, event: ChangeEvent) -> (next: (Change, ChangeAction))
        ensures
            (next.0@, next.1@) == change_goes_on(self@, event),
    {
        match (self, event) {
            (Change::Finished, _) => (Change::Finished, ChangeAction::Wait),
            (_, ChangeEvent::Failed(message)) => (
                Change::Finished,
                ChangeAction::Finish(Err(message)),
            ),
            (Change::Asked, ChangeEvent::Answered { output, configuration }) => match accept_priority(
                &output,
            ) {
                Some(message) => (Change::Finished, ChangeAction::Finish(Err(message))),
                None => load_projection(configuration),
            },
            (Change::Loading, ChangeEvent::Loaded { output, decoded }) => (
                Change::Finished,
                ChangeAction::Finish(accept_projection(&output, decoded)),
            ),
            (state, _) => (state, ChangeAction::Wait),
        }
    }
}

/// A refused change ends with the runtime's reason, and nothing is loaded.
pub proof fn refused_change_loads_nothing(
    output: CommandOutput,
    configuration: Result<RuntimeConfiguration, ConfigurationError>,
)
    requires
        !output.success,
    ensures
        change_goes_on(
            ChangeStage::Asked,
            ChangeEvent::Answered { output, configuration },
        ) == failing(failed(output, "Altere priority mutation failed"@)->0),
{
}

/// A change that was made is followed by a load, of the collection that is
/// configured then.
pub proof fn change_is_followed_by_a_load(
    output: CommandOutput,
    configuration: RuntimeConfiguration,
)
    requires
        output.success,
    ensures
        change_goes_on(
            ChangeStage::Asked,
            ChangeEvent::Answered { output, configuration: Ok(configuration) },
        ) == load_begins(Ok(configuration@)),
{
}

/// A projection comes of a change only where it was loaded and taken.
pub proof fn projections_are_loaded(state: ChangeStage, event: ChangeEvent)
    requires
        change_goes_on(state, event).1 matches ChangeActionView::Finish(result) && result is Ok,
    ensures
        state is Loading,
        event is Loaded,
        event->Loaded_output.success,
        event->decoded is Some,
        change_goes_on(state, event).1 == ChangeActionView::Finish(Ok(event->decoded->0@)),
{
}

/// A change of priority begins by asking the configured interpreter for exactly that, and a load by
/// asking for the projection; where the runtime is not configured, it is said what is
/// lacking.
pub proof fn changes_begin_with_their_command(
    source: Seq<char>,
    priority: nat,
    fingerprint: Seq<char>,
    configuration: RuntimeView,
    error: ConfigurationError,
)
    ensures
        change_begins(source, priority, fingerprint, Ok(configuration)) == (
            ChangeStage::Asked,
            ChangeActionView::Run(
                CommandView {
                    program: configuration.bun,
                    arguments: seq![
                        configuration.runtime,
                        "priority"@,
                        "set"@,
                        "--collection"@,
                        configuration.collection,
                        "--source"@,
                        source,
                        "--value"@,
                        decimal(priority),
                        "--expected-fingerprint"@,
                        fingerprint,
                    ],
                    input: None,
                },
            ),
        ),
        load_begins(Ok(configuration)) == (
            ChangeStage::Loading,
            ChangeActionView::Run(
                CommandView {
                    program: configuration.bun,
                    arguments: seq![
                        configuration.runtime,
                        "rotation"@,
                        "queue"@,
                        "--collection"@,
                        configuration.collection,
                    ],
                    input: None,
                },
            ),
        ),
        change_begins(source, priority, fingerprint, Err(error)) == (
            ChangeStage::Finished,
            ChangeActionView::Finish(Err(lacking_text(error))),
        ),
        load_begins(Err(error)) == (
            ChangeStage::Finished,
            ChangeActionView::Finish(Err(lacking_text(error))),
        ),
{
}

/// A change that the runtime refuses ends with what it wrote; one that it made leads to
/// the load, from where the runtime is configured by then.
pub proof fn answers_end_or_load(
    output: CommandOutput,
    configuration: RuntimeConfiguration,
    error: ConfigurationError,
    any: Result<RuntimeConfiguration, ConfigurationError>,
)
    ensures
        !output.success ==> change_goes_on(
            ChangeStage::Asked,
            ChangeEvent::Answered { output, configuration: any },
        ) == (
            ChangeStage::Finished,
            ChangeActionView::Finish(
                Err(
                    "Altere priority mutation failed"@ + ": "@ + trimmed(
                        text_of_bytes(output.stderr@),
                    ),
                ),
            ),
        ),
        output.success ==> change_goes_on(
            ChangeStage::Asked,
            ChangeEvent::Answered { output, configuration: Ok(configuration) },
        ) == (
            ChangeStage::Loading,
            ChangeActionView::Run(
                CommandView {
                    program: configuration.bun@,
                    arguments: seq![
                        configuration.runtime@,
                        "rotation"@,
                        "queue"@,
                        "--collection"@,
                        configuration.collection@,
                    ],
                    input: None,
                },
            ),
        ),
        output.success ==> change_goes_on(
            ChangeStage::Asked,
            ChangeEvent::Answered { output, configuration: Err(error) },
        ) == (
            ChangeStage::Finished,
            ChangeActionView::Finish(Err(lacking_text(error))),
        ),
{
}

/// A load ends the change: with the projection as it was decoded where the command
/// succeeded and the projection is of the first version, and else with the reason why
/// there is none.
pub proof fn loads_end_with_a_projection_or_a_reason(
    output: CommandOutput,
    decoded: Option<QueueProjection>,
)
    ensures
        ({
            let next = change_goes_on(
                ChangeStage::Loading,
                ChangeEvent::Loaded { output, decoded },
            );
            &&& next.0 is Finished
            &&& next.1 matches ChangeActionView::Finish(result)
            &&& result is Ok <==> output.success && decoded is Some && decoded->0.version == 1
            &&& result is Ok ==> result->Ok_0 == decoded->0@
            &&& !output.success ==> result == Err::<QueueView, Seq<char>>(
                "Altere queue runtime failed"@ + ": "@ + trimmed(text_of_bytes(output.stderr@)),
            )
            &&& output.success && decoded is None ==> result == Err::<QueueView, Seq<char>>(
                "decoding the Altere queue projection"@,
            )
            &&& output.success && decoded is Some && decoded->0.version != 1 ==> result == Err::<
                QueueView,
                Seq<char>,
            >("unsupported Altere queue projection"@)
        }),
{
}

/// A failure ends a change that is in progress, with its reason; and what the change does
/// not wait for leaves it as it is.
pub proof fn changes_heed_only_what_they_wait_for(state: ChangeStage, event: ChangeEvent)
    ensures
        !(state is Finished) && event is Failed ==> change_goes_on(state, event) == (
            ChangeStage::Finished,
            ChangeActionView::Finish(Err(event->Failed_0@)),
        ),
        state is Finished || (!(event is Failed) && !(state is Asked && event is Answered) && !(
        state is Loading && event is Loaded)) ==> change_goes_on(state, event) == (
            state,
            ChangeActionView::Wait,
        ),
{
}

/// How many steps a change can still take.
pub open spec fn steps_left(state: ChangeStage) -> nat {
    match state {
        ChangeStage::Asked => 2,
        ChangeStage::Loading => 1,
        ChangeStage::Finished => 0,
    }
}

/// A change ends: every event either leaves it as it is, or brings it nearer to its
/// end.
pub proof fn every_step_leads_to_the_end(state: ChangeStage, event: ChangeEvent)
    ensures
        change_goes_on(state, event).1 is Wait ==> change_goes_on(state, event).0 == state,
        !(change_goes_on(state, event).1 is Wait) ==> steps_left(
            change_goes_on(state, event).0,
        ) < steps_left(state),
{
}

/// What a change asks for, and what it came to, is what it says.
pub proof fn changes_say_what_they_hold(state: Change, action: ChangeAction)
    ensures
        state is Asked <==> state@ is Asked,
        state is Loading <==> state@ is Loading,
        state is Finished <==> state@ is Finished,
        action matches ChangeAction::Run(command) ==> action@ == ChangeActionView::Run(command@),
        action matches ChangeAction::Finish(Ok(projection)) ==> action@
            == ChangeActionView::Finish(Ok(projection@)),
        action matches ChangeAction::Finish(Err(message)) ==> action@ == ChangeActionView::Finish(
            Err(message@),
        ),
        action is Wait <==> action@ is Wait,
{
}

} // verus!
