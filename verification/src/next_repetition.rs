//! The next repetition: back to the current one where another document is edited,
//! else on to the next, with the proposal that waits on it.

use crate::active_item::{active_editor_path, editor_path, ActiveItem};
use crate::invocation::{
    annotation_proposal_arguments, current_runtime_invocation, proposal_invocation,
    rotation_current_arguments, rotation_next_arguments, runtime_invocation,
};
use crate::operation::{is_operation_id, new_operation_id};
use crate::paths::{
    below, components, is_within, paths_match, relative_to, same_optional_path, same_path,
    strip_prefix,
};
use crate::proposal_review::{DetachedProposalProjection, ProposalView};
use crate::runtime::{
    configuration_view, failed, failure_of, interpret, interpreted, lacking_text, Command,
    CommandOutput, CommandView, ConfigurationError, RuntimeConfiguration, RuntimeView,
};
use crate::text::{borrow_text, borrowed_text, text_of_bytes, trimmed};
use vstd::prelude::*;
use vstd::string::*;

verus! {

/// The title under which a failure to open the next repetition is reported.
pub const FAILURE_TITLE: &'static str = "Altere could not open the next buffer";

/// What asking for the next repetition means.
#[derive(Clone, Copy, Debug, PartialEq, Eq, Structural)]
pub enum NextRepetitionIntent {
    FocusCurrent,
    Advance,
}

/// To go back to the current repetition where there is one and another document is
/// edited; else to advance.
pub open spec fn intent(
    current: Option<Seq<char>>,
    active: Option<Seq<char>>,
) -> NextRepetitionIntent {
    if current is Some && !same_optional_path(current, active) {
        NextRepetitionIntent::FocusCurrent
    } else {
        NextRepetitionIntent::Advance
    }
}

/// Decides what asking for the next repetition means.
pub fn next_repetition_intent(current_path: Option<&str>, active_path: Option<&str>) -> (decision:
    NextRepetitionIntent)
    ensures
        decision == intent(borrowed_text(current_path), borrowed_text(active_path)),
{
    match (current_path, active_path) {
        (Some(current), Some(active)) => if paths_match(current, active) {
            NextRepetitionIntent::Advance
        } else {
            NextRepetitionIntent::FocusCurrent
        },
        (Some(_), None) => NextRepetitionIntent::FocusCurrent,
        (None, _) => NextRepetitionIntent::Advance,
    }
}

/// The command that advances the rotation under the identity of a gesture.
pub fn rotation_command(configuration: &RuntimeConfiguration, operation_id: &str) -> (command:
    Command)
    ensures
        command@ == interpreted(
            configuration@.bun,
            rotation_next_arguments(
                configuration@.runtime,
                configuration@.collection,
                operation_id@,
            ),
        ),
{
    interpret(
        configuration,
        runtime_invocation(
            configuration.runtime.as_str(),
            configuration.collection.as_str(),
            operation_id,
        ).as_slice(),
    )
}

/// The command that advances the rotation, under a new identity.
pub fn advance_command(configuration: &RuntimeConfiguration) -> (command: Command)
    ensures
        exists|operation_id: Seq<char>| #[trigger]
            is_operation_id(operation_id) && command@ == interpreted(
                configuration@.bun,
                rotation_next_arguments(
                    configuration@.runtime,
                    configuration@.collection,
                    operation_id,
                ),
            ),
{
    let operation_id = new_operation_id();
    rotation_command(configuration, operation_id.as_str())
}

/// A request for the next repetition in progress, by what it waits for: the current
/// repetition, the path that is edited, the current repetition to open, the next
/// repetition, the proposal that waits on it, the document to open, or the review
/// of the proposal.
pub enum NextBuffer {
    Current { configuration: RuntimeConfiguration },
    ActivePath { configuration: RuntimeConfiguration, current: String },
    Focus,
    Rotation { configuration: RuntimeConfiguration },
    Proposal { path: String },
    Opening { proposal: Option<DetachedProposalProjection> },
    Review,
    Finished,
}

/// What a request in progress says.
pub enum NextBufferView {
    Current { configuration: RuntimeView },
    ActivePath { configuration: RuntimeView, current: Seq<char> },
    Focus,
    Rotation { configuration: RuntimeView },
    Proposal { path: Seq<char> },
    Opening { proposal: Option<ProposalView> },
    Review,
    Finished,
}

/// What an optional proposal says.
pub open spec fn proposal_view(proposal: Option<DetachedProposalProjection>) -> Option<
    ProposalView,
> {
    match proposal {
        Some(proposal) => Some(proposal@),
        None => None,
    }
}

impl View for NextBuffer {
    type V = NextBufferView;

    open spec fn view(&self) -> NextBufferView {
        match self {
            NextBuffer::Current { configuration } => NextBufferView::Current {
                configuration: configuration@,
            },
            NextBuffer::ActivePath { configuration, current } => NextBufferView::ActivePath {
                configuration: configuration@,
                current: current@,
            },
            NextBuffer::Focus => NextBufferView::Focus,
            NextBuffer::Rotation { configuration } => NextBufferView::Rotation {
                configuration: configuration@,
            },
            NextBuffer::Proposal { path } => NextBufferView::Proposal { path: path@ },
            NextBuffer::Opening { proposal } => NextBufferView::Opening {
                proposal: proposal_view(*proposal),
            },
            NextBuffer::Review => NextBufferView::Review,
            NextBuffer::Finished => NextBufferView::Finished,
        }
    }
}

/// What happened to a request in progress. Answers come with what they decode to,
/// or why they do not decode: a path, or a proposal.
pub enum NextBufferEvent {
    CurrentAnswered { output: CommandOutput, current: Result<Option<String>, String> },
    ActiveItem(Option<ActiveItem>),
    Opened,
    RotationAnswered { output: CommandOutput, opened: Result<Option<String>, String> },
    ProposalAnswered {
        output: CommandOutput,
        proposal: Result<Option<DetachedProposalProjection>, String>,
    },
    Reviewed,
    Failed(String),
}

/// What a request asks for next. To advance is to run a command that names a new
/// gesture.
pub enum NextBufferAction {
    Run(Command),
    FindActiveItem,
    Advance(RuntimeConfiguration),
    Open(String),
    Review(DetachedProposalProjection),
    RefreshQueue,
    Fail(String),
    Stop,
    Wait,
}

/// What is asked for.
pub enum NextBufferActionView {
    Run(CommandView),
    FindActiveItem,
    Advance(RuntimeView),
    Open(Seq<char>),
    Review(ProposalView),
    RefreshQueue,
    Fail(Seq<char>),
    Stop,
    Wait,
}

impl View for NextBufferAction {
    type V = NextBufferActionView;

    open spec fn view(&self) -> NextBufferActionView {
        match self {
            NextBufferAction::Run(command) => NextBufferActionView::Run(command@),
            NextBufferAction::FindActiveItem => NextBufferActionView::FindActiveItem,
            NextBufferAction::Advance(configuration) => NextBufferActionView::Advance(
                configuration@,
            ),
            NextBufferAction::Open(path) => NextBufferActionView::Open(path@),
            NextBufferAction::Review(proposal) => NextBufferActionView::Review(proposal@),
            NextBufferAction::RefreshQueue => NextBufferActionView::RefreshQueue,
            NextBufferAction::Fail(message) => NextBufferActionView::Fail(message@),
            NextBufferAction::Stop => NextBufferActionView::Stop,
            NextBufferAction::Wait => NextBufferActionView::Wait,
        }
    }
}

/// A request that ended without success.
pub open spec fn failing(message: Seq<char>) -> (NextBufferView, NextBufferActionView) {
    (NextBufferView::Finished, NextBufferActionView::Fail(message))
}

/// How a request begins: by asking which repetition is current.
pub open spec fn request_begins(configuration: Result<RuntimeView, ConfigurationError>) -> (
    NextBufferView,
    NextBufferActionView,
) {
    match configuration {
        Ok(configuration) => (
            NextBufferView::Current { configuration },
            NextBufferActionView::Run(
                interpreted(
                    configuration.bun,
                    rotation_current_arguments(configuration.runtime, configuration.collection),
                ),
            ),
        ),
        Err(error) => failing(lacking_text(error)),
    }
}

/// A request that advances the rotation.
pub open spec fn advancing(configuration: RuntimeView) -> (NextBufferView, NextBufferActionView) {
    (NextBufferView::Rotation { configuration }, NextBufferActionView::Advance(configuration))
}

/// How a request goes on once it is known which repetition is current.
pub open spec fn after_current(
    configuration: RuntimeView,
    output: CommandOutput,
    current: Result<Option<String>, String>,
) -> (NextBufferView, NextBufferActionView) {
    match (failed(output, "Altere runtime failed"@), current) {
        (Some(message), _) => failing(message),
        (None, Err(message)) => failing(message@),
        (None, Ok(Some(current))) => (
            NextBufferView::ActivePath { configuration, current: current@ },
            NextBufferActionView::FindActiveItem,
        ),
        (None, Ok(None)) => advancing(configuration),
    }
}

/// The message where the rotation leaves the collection.
pub open spec fn outside_message(path: Seq<char>, collection: Seq<char>) -> Seq<char> {
    "Rotated path "@ + path + " is outside Altere Collection "@ + collection
}

/// How a request goes on once the rotation has advanced: it ends where there is no
/// next repetition, and else asks for the proposal that waits on it.
pub open spec fn after_rotation(
    configuration: RuntimeView,
    output: CommandOutput,
    opened: Result<Option<String>, String>,
) -> (NextBufferView, NextBufferActionView) {
    match (failed(output, "Altere runtime failed"@), opened) {
        (Some(message), _) => failing(message),
        (None, Err(message)) => failing(message@),
        (None, Ok(None)) => (NextBufferView::Finished, NextBufferActionView::Stop),
        (None, Ok(Some(path))) => match relative_to(path@, configuration.collection) {
            Some(source) => (
                NextBufferView::Proposal { path: path@ },
                NextBufferActionView::Run(
                    interpreted(
                        configuration.bun,
                        annotation_proposal_arguments(
                            configuration.runtime,
                            configuration.collection,
                            source,
                        ),
                    ),
                ),
            ),
            None => failing(outside_message(path@, configuration.collection)),
        },
    }
}

/// How a request goes on once it is known which proposal waits: the document is
/// opened.
pub open spec fn after_proposal(
    path: Seq<char>,
    output: CommandOutput,
    proposal: Result<Option<DetachedProposalProjection>, String>,
) -> (NextBufferView, NextBufferActionView) {
    match (failed(output, "Altere proposal projection failed"@), proposal) {
        (Some(message), _) => failing(message),
        (None, Err(message)) => failing(message@),
        (None, Ok(proposal)) => (
            NextBufferView::Opening { proposal: proposal_view(proposal) },
            NextBufferActionView::Open(path),
        ),
    }
}

/// How a request goes on. Events that the state does not wait for change nothing.
pub open spec fn request_goes_on(state: NextBufferView, event: NextBufferEvent) -> (
    NextBufferView,
    NextBufferActionView,
) {
    match (state, event) {
        (NextBufferView::Finished, _) => (state, NextBufferActionView::Wait),
        (_, NextBufferEvent::Failed(message)) => failing(message@),
        (
            NextBufferView::Current { configuration },
            NextBufferEvent::CurrentAnswered { output, current },
        ) => after_current(configuration, output, current),
        (
            NextBufferView::ActivePath { configuration, current },
            NextBufferEvent::ActiveItem(item),
        ) => match intent(Some(current), editor_path(item)) {
            NextRepetitionIntent::FocusCurrent => (
                NextBufferView::Focus,
                NextBufferActionView::Open(current),
            ),
            NextRepetitionIntent::Advance => advancing(configuration),
        },
        (NextBufferView::Focus, NextBufferEvent::Opened) => (
            NextBufferView::Finished,
            NextBufferActionView::Stop,
        ),
        (
            NextBufferView::Rotation { configuration },
            NextBufferEvent::RotationAnswered { output, opened },
        ) => after_rotation(configuration, output, opened),
        (
            NextBufferView::Proposal { path },
            NextBufferEvent::ProposalAnswered { output, proposal },
        ) => after_proposal(path, output, proposal),
        (NextBufferView::Opening { proposal }, NextBufferEvent::Opened) => match proposal {
            Some(proposal) => (NextBufferView::Review, NextBufferActionView::Review(proposal)),
            None => (NextBufferView::Finished, NextBufferActionView::RefreshQueue),
        },
        (NextBufferView::Review, NextBufferEvent::Reviewed) => (
            NextBufferView::Finished,
            NextBufferActionView::RefreshQueue,
        ),
        _ => (state, NextBufferActionView::Wait),
    }
}

impl NextBuffer {
    /// Begins a request.
    pub fn begin(configuration: Result<RuntimeConfiguration, ConfigurationError>) -> (begun: (
        NextBuffer,
        NextBufferAction,
    ))
        ensures
            (begun.0@, begun.1@) == request_begins(configuration_view(configuration)),
    {
        match configuration {
            Ok(configuration) => {
                let command = interpret(
                    &configuration,
                    current_runtime_invocation(
                        configuration.runtime.as_str(),
                        configuration.collection.as_str(),
                    ).as_slice(),
                );
                (NextBuffer::Current { configuration }, NextBufferAction::Run(command))
            },
            Err(error) => (NextBuffer::Finished, NextBufferAction::Fail(error.message())),
        }
    }

    fn fail(message: String) -> (ended: (NextBuffer, NextBufferAction))
        ensures
            (ended.0@, ended.1@) == failing(message@),
    {
        (NextBuffer::Finished, NextBufferAction::Fail(message))
    }

    fn advance(configuration: RuntimeConfiguration) -> (next: (NextBuffer, NextBufferAction))
        ensures
            (next.0@, next.1@) == advancing(configuration@),
    {
        let copy = configuration.clone();
        (NextBuffer::Rotation { configuration }, NextBufferAction::Advance(copy))
    }

    fn current_answered(
        configuration: RuntimeConfiguration,
        output: CommandOutput,
        current: Result<Option<String>, String>,
    ) -> (next: (NextBuffer, NextBufferAction))
        ensures
            (next.0@, next.1@) == after_current(configuration@, output, current),
    {
        if let Some(message) = failure_of(&output, "Altere runtime failed") {
            return Self::fail(message);
        }
        match current {
            Ok(Some(current)) => (
                NextBuffer::ActivePath { configuration, current },
                NextBufferAction::FindActiveItem,
            ),
            Ok(None) => Self::advance(configuration),
            Err(message) => Self::fail(message),
        }
    }

    fn rotation_answered(
        configuration: RuntimeConfiguration,
        output: CommandOutput,
        opened: Result<Option<String>, String>,
    ) -> (next: (NextBuffer, NextBufferAction))
        ensures
            (next.0@, next.1@) == after_rotation(configuration@, output, opened),
    {
        if let Some(message) = failure_of(&output, "Altere runtime failed") {
            return Self::fail(message);
        }
        let path = match opened {
            Ok(Some(path)) => path,
            Ok(None) => return (NextBuffer::Finished, NextBufferAction::Stop),
            Err(message) => return Self::fail(message),
        };
        match strip_prefix(path.as_str(), configuration.collection.as_str()) {
            Some(source) => {
                let command = interpret(
                    &configuration,
                    proposal_invocation(
                        configuration.runtime.as_str(),
                        configuration.collection.as_str(),
                        source.as_str(),
                    ).as_slice(),
                );
                (NextBuffer::Proposal { path }, NextBufferAction::Run(command))
            },
            None => {
                let mut message = "Rotated path ".to_string();
                message.append(path.as_str());
                message.append(" is outside Altere Collection ");
                message.append(configuration.collection.as_str());
                Self::fail(message)
            },
        }
    }

    fn proposal_answered(
        path: String,
        output: CommandOutput,
        proposal: Result<Option<DetachedProposalProjection>, String>,
    ) -> (next: (NextBuffer, NextBufferAction))
        ensures
            (next.0@, next.1@) == after_proposal(path@, output, proposal),
    {
        if let Some(message) = failure_of(&output, "Altere proposal projection failed") {
            return Self::fail(message);
        }
        match proposal {
            Ok(proposal) => (NextBuffer::Opening { proposal }, NextBufferAction::Open(path)),
            Err(message) => Self::fail(message),
        }
    }

    /// Goes on after an event.
    pub fn step(self, event: NextBufferEvent) -> (next: (NextBuffer, NextBufferAction))
        ensures
            (next.0@, next.1@) == request_goes_on(self@, event),
    {
        match (self, event) {
            (NextBuffer::Finished, _) => (NextBuffer::Finished, NextBufferAction::Wait),
            (_, NextBufferEvent::Failed(message)) => Self::fail(message),
            (
                NextBuffer::Current { configuration },
                NextBufferEvent::CurrentAnswered { output, current },
            ) => Self::current_answered(configuration, output, current),
            (
                NextBuffer::ActivePath { configuration, current },
                NextBufferEvent::ActiveItem(item),
            ) => {
                let active = active_editor_path(item);
                match next_repetition_intent(Some(current.as_str()), borrow_text(&active)) {
                    NextRepetitionIntent::FocusCurrent => (
                        NextBuffer::Focus,
                        NextBufferAction::Open(current),
                    ),
                    NextRepetitionIntent::Advance => Self::advance(configuration),
                }
            },
            (NextBuffer::Focus, NextBufferEvent::Opened) => (
                NextBuffer::Finished,
                NextBufferAction::Stop,
            ),
            (
                NextBuffer::Rotation { configuration },
                NextBufferEvent::RotationAnswered { output, opened },
            ) => Self::rotation_answered(configuration, output, opened),
            (
                NextBuffer::Proposal { path },
                NextBufferEvent::ProposalAnswered { output, proposal },
            ) => Self::proposal_answered(path, output, proposal),
            (NextBuffer::Opening { proposal }, NextBufferEvent::Opened) => match proposal {
                Some(proposal) => (NextBuffer::Review, NextBufferAction::Review(proposal)),
                None => (NextBuffer::Finished, NextBufferAction::RefreshQueue),
            },
            (NextBuffer::Review, NextBufferEvent::Reviewed) => (
                NextBuffer::Finished,
                NextBufferAction::RefreshQueue,
            ),
            (state, _) => (state, NextBufferAction::Wait),
        }
    }
}

/// The rotation advances only where no repetition is current, or the current one
/// is being edited.
pub proof fn current_repetition_comes_first(state: NextBufferView, event: NextBufferEvent)
    requires
        request_goes_on(state, event).1 is Advance,
    ensures
        (state is Current && event is CurrentAnswered && event->CurrentAnswered_output.success
            && event->current == Ok::<Option<String>, String>(None)) || (state is ActivePath
            && event is ActiveItem && editor_path(event->ActiveItem_0) is Some && same_path(
            state->current,
            editor_path(event->ActiveItem_0)->0,
        )),
{
}

/// A command that failed ends the request, with what the command wrote.
pub proof fn failed_commands_end_the_request(state: NextBufferView, event: NextBufferEvent)
    requires
        (state is Current && event is CurrentAnswered && !event->CurrentAnswered_output.success)
            || (state is Rotation && event is RotationAnswered
            && !event->RotationAnswered_output.success) || (state is Proposal
            && event is ProposalAnswered && !event->ProposalAnswered_output.success),
    ensures
        request_goes_on(state, event).0 is Finished,
        request_goes_on(state, event).1 is Fail,
{
}

/// Nothing outside the collection is opened by the rotation: such a path ends the
/// request.
pub proof fn rotation_stays_in_the_collection(
    configuration: RuntimeView,
    output: CommandOutput,
    path: String,
)
    requires
        output.success,
        !is_within(path@, configuration.collection),
    ensures
        request_goes_on(
            NextBufferView::Rotation { configuration },
            NextBufferEvent::RotationAnswered { output, opened: Ok(Some(path)) },
        ) == failing(outside_message(path@, configuration.collection)),
{
}

/// The queue is refreshed only once the next repetition has been opened, and its
/// review, where it has one, is over.
pub proof fn queue_follows_the_opened_document(state: NextBufferView, event: NextBufferEvent)
    requires
        request_goes_on(state, event).1 is RefreshQueue,
    ensures
        (state == (NextBufferView::Opening { proposal: None }) && event is Opened) || (
        state is Review && event is Reviewed),
{
}

/// A request that is over stays over.
pub proof fn finished_requests_stay_finished(event: NextBufferEvent)
    ensures
        request_goes_on(NextBufferView::Finished, event) == (
            NextBufferView::Finished,
            NextBufferActionView::Wait,
        ),
{
}

/// A request begins by asking the configured interpreter, with nothing to read, which
/// repetition of the configured collection is current; where the runtime is not
/// configured it says what is lacking.
pub proof fn requests_begin_with_the_current_repetition(
    configuration: RuntimeView,
    error: ConfigurationError,
)
    ensures
        request_begins(Ok(configuration)) == (
            NextBufferView::Current { configuration },
            NextBufferActionView::Run(
                CommandView {
                    program: configuration.bun,
                    arguments: seq![
                        configuration.runtime,
                        "rotation"@,
                        "current"@,
                        "--collection"@,
                        configuration.collection,
                    ],
                    input: None,
                },
            ),
        ),
        request_begins(Err(error)) == (
            NextBufferView::Finished,
            NextBufferActionView::Fail(lacking_text(error)),
        ),
{
}

/// What the request says where a command it waits for fails: that the runtime, or the
/// projection of proposals, failed, and what the command wrote.
pub proof fn failures_are_told_with_their_reason(
    configuration: RuntimeView,
    path: Seq<char>,
    output: CommandOutput,
    answer: Result<Option<String>, String>,
    proposal: Result<Option<DetachedProposalProjection>, String>,
)
    requires
        !output.success,
    ensures
        request_goes_on(
            NextBufferView::Current { configuration },
            NextBufferEvent::CurrentAnswered { output, current: answer },
        ) == (
            NextBufferView::Finished,
            NextBufferActionView::Fail(
                "Altere runtime failed"@ + ": "@ + trimmed(text_of_bytes(output.stderr@)),
            ),
        ),
        request_goes_on(
            NextBufferView::Rotation { configuration },
            NextBufferEvent::RotationAnswered { output, opened: answer },
        ) == (
            NextBufferView::Finished,
            NextBufferActionView::Fail(
                "Altere runtime failed"@ + ": "@ + trimmed(text_of_bytes(output.stderr@)),
            ),
        ),
        request_goes_on(
            NextBufferView::Proposal { path },
            NextBufferEvent::ProposalAnswered { output, proposal },
        ) == (
            NextBufferView::Finished,
            NextBufferActionView::Fail(
                "Altere proposal projection failed"@ + ": "@ + trimmed(
                    text_of_bytes(output.stderr@),
                ),
            ),
        ),
{
}

/// An answer that does not decode ends the request with the reason, whichever command
/// it answers.
pub proof fn undecoded_answers_end_the_request(
    configuration: RuntimeView,
    path: Seq<char>,
    output: CommandOutput,
    reason: String,
)
    requires
        output.success,
    ensures
        request_goes_on(
            NextBufferView::Current { configuration },
            NextBufferEvent::CurrentAnswered { output, current: Err(reason) },
        ) == (NextBufferView::Finished, NextBufferActionView::Fail(reason@)),
        request_goes_on(
            NextBufferView::Rotation { configuration },
            NextBufferEvent::RotationAnswered { output, opened: Err(reason) },
        ) == (NextBufferView::Finished, NextBufferActionView::Fail(reason@)),
        request_goes_on(
            NextBufferView::Proposal { path },
            NextBufferEvent::ProposalAnswered { output, proposal: Err(reason) },
        ) == (NextBufferView::Finished, NextBufferActionView::Fail(reason@)),
{
}

/// Once it is known which repetition is current, the active item is looked at, and that
/// repetition is remembered with the configuration; where none is current the rotation
/// of the same configuration advances.
pub proof fn current_repetition_is_remembered(
    configuration: RuntimeView,
    output: CommandOutput,
    current: String,
)
    requires
        output.success,
    ensures
        request_goes_on(
            NextBufferView::Current { configuration },
            NextBufferEvent::CurrentAnswered { output, current: Ok(Some(current)) },
        ) == (
            NextBufferView::ActivePath { configuration, current: current@ },
            NextBufferActionView::FindActiveItem,
        ),
        request_goes_on(
            NextBufferView::Current { configuration },
            NextBufferEvent::CurrentAnswered { output, current: Ok(None) },
        ) == (
            NextBufferView::Rotation { configuration },
            NextBufferActionView::Advance(configuration),
        ),
{
}

/// The current repetition itself is opened, and nothing more is done, wherever anything
/// but an editor of it is active; where it is being edited the rotation advances.
pub proof fn other_documents_lead_back_to_the_current_repetition(
    configuration: RuntimeView,
    current: Seq<char>,
    item: Option<ActiveItem>,
)
    ensures
        ({
            let edited = item is Some && item->0.is_editor && item->0.path is Some && components(
                item->0.path->0@,
            ) == components(current);
            request_goes_on(
                NextBufferView::ActivePath { configuration, current },
                NextBufferEvent::ActiveItem(item),
            ) == if edited {
                (
                    NextBufferView::Rotation { configuration },
                    NextBufferActionView::Advance(configuration),
                )
            } else {
                (NextBufferView::Focus, NextBufferActionView::Open(current))
            }
        }),
        request_goes_on(NextBufferView::Focus, NextBufferEvent::Opened) == (
            NextBufferView::Finished,
            NextBufferActionView::Stop,
        ),
{
}

/// A path that the rotation opens within the collection is remembered as it is, and the
/// runtime is asked for the proposal that waits on it, by its path in the collection;
/// where the rotation opens nothing the request ends there.
pub proof fn rotation_asks_for_the_waiting_proposal(
    configuration: RuntimeView,
    output: CommandOutput,
    path: String,
)
    requires
        output.success,
    ensures
        is_within(path@, configuration.collection) ==> request_goes_on(
            NextBufferView::Rotation { configuration },
            NextBufferEvent::RotationAnswered { output, opened: Ok(Some(path)) },
        ) == (
            NextBufferView::Proposal { path: path@ },
            NextBufferActionView::Run(
                CommandView {
                    program: configuration.bun,
                    arguments: seq![
                        configuration.runtime,
                        "annotation"@,
                        "proposal"@,
                        "--collection"@,
                        configuration.collection,
                        "--source"@,
                        below(path@, configuration.collection),
                    ],
                    input: None,
                },
            ),
        ),
        !is_within(path@, configuration.collection) ==> request_goes_on(
            NextBufferView::Rotation { configuration },
            NextBufferEvent::RotationAnswered { output, opened: Ok(Some(path)) },
        ) == (
            NextBufferView::Finished,
            NextBufferActionView::Fail(
                "Rotated path "@ + path@ + " is outside Altere Collection "@
                    + configuration.collection,
            ),
        ),
        request_goes_on(
            NextBufferView::Rotation { configuration },
            NextBufferEvent::RotationAnswered { output, opened: Ok(None) },
        ) == (NextBufferView::Finished, NextBufferActionView::Stop),
{
}

/// What the rotation opened is what is opened, whether or not a proposal waits on it:
/// from the rotation's answer over any answer about proposals that succeeded and
/// decodes, the request comes to open exactly that path.
pub proof fn rotated_document_is_opened(
    configuration: RuntimeView,
    rotated: CommandOutput,
    path: String,
    answered: CommandOutput,
    proposal: Option<DetachedProposalProjection>,
)
    requires
        rotated.success,
        answered.success,
        is_within(path@, configuration.collection),
    ensures
        ({
            let waiting = request_goes_on(
                NextBufferView::Rotation { configuration },
                NextBufferEvent::RotationAnswered { output: rotated, opened: Ok(Some(path)) },
            ).0;
            request_goes_on(
                waiting,
                NextBufferEvent::ProposalAnswered { output: answered, proposal: Ok(proposal) },
            ).1 == NextBufferActionView::Open(path@)
        }),
{
}

/// Any answer about proposals that succeeded and decodes, with a proposal or without,
/// asks to open exactly the path that waited, and the proposal, if there is one, is
/// reviewed once the path is open; then, or at once where there is none, the queue is
/// refreshed.
pub proof fn waiting_proposal_is_reviewed_after_opening(
    path: Seq<char>,
    output: CommandOutput,
    proposal: DetachedProposalProjection,
)
    requires
        output.success,
    ensures
        ({
            let with = request_goes_on(
                NextBufferView::Proposal { path },
                NextBufferEvent::ProposalAnswered { output, proposal: Ok(Some(proposal)) },
            );
            let opened = request_goes_on(with.0, NextBufferEvent::Opened);
            &&& with.1 == NextBufferActionView::Open(path)
            &&& opened.1 == NextBufferActionView::Review(
                ProposalView {
                    proposal_id: proposal.proposal_id@,
                    source_path: proposal.source.path@,
                    original_text: proposal.hunk.original_text@,
                    proposed_text: proposal.hunk.proposed_text@,
                },
            )
            &&& request_goes_on(opened.0, NextBufferEvent::Reviewed) == (
                NextBufferView::Finished,
                NextBufferActionView::RefreshQueue,
            )
        }),
        ({
            let without = request_goes_on(
                NextBufferView::Proposal { path },
                NextBufferEvent::ProposalAnswered { output, proposal: Ok(None) },
            );
            &&& without.1 == NextBufferActionView::Open(path)
            &&& request_goes_on(without.0, NextBufferEvent::Opened) == (
                NextBufferView::Finished,
                NextBufferActionView::RefreshQueue,
            )
        }),
{
}

/// A failure ends a request that is in progress, with its reason; and what the request
/// does not wait for leaves it as it is.
pub proof fn requests_heed_only_what_they_wait_for(
    state: NextBufferView,
    event: NextBufferEvent,
)
    ensures
        !(state is Finished) && event is Failed ==> request_goes_on(state, event) == (
            NextBufferView::Finished,
            NextBufferActionView::Fail(event->Failed_0@),
        ),
        !(event is Failed) && !(state is Current && event is CurrentAnswered) && !(
        state is ActivePath && event is ActiveItem) && !((state is Focus || state is Opening)
            && event is Opened) && !(state is Rotation && event is RotationAnswered) && !(
        state is Proposal && event is ProposalAnswered) && !(state is Review && event is Reviewed)
            ==> request_goes_on(state, event) == (state, NextBufferActionView::Wait),
{
}

/// To ask for the next repetition is to go back exactly where a repetition is current
/// and no document, or another one, is active.
pub proof fn going_back_needs_a_current_repetition(
    current: Option<Seq<char>>,
    active: Option<Seq<char>>,
)
    ensures
        intent(current, active) is FocusCurrent <==> current is Some && (active is None
            || components(current->0) != components(active->0)),
{
}

/// How many steps a request can still take.
pub open spec fn steps_left(state: NextBufferView) -> nat {
    match state {
        NextBufferView::Current { .. } => 7,
        NextBufferView::ActivePath { .. } => 6,
        NextBufferView::Rotation { .. } => 5,
        NextBufferView::Proposal { .. } => 4,
        NextBufferView::Opening { .. } => 3,
        NextBufferView::Review => 2,
        NextBufferView::Focus => 1,
        NextBufferView::Finished => 0,
    }
}

/// A request ends: every event either leaves it as it is, or brings it nearer to
/// its end.
pub proof fn every_step_leads_to_the_end(state: NextBufferView, event: NextBufferEvent)
    ensures
        request_goes_on(state, event).1 is Wait ==> request_goes_on(state, event).0 == state,
        !(request_goes_on(state, event).1 is Wait) ==> steps_left(
            request_goes_on(state, event).0,
        ) < steps_left(state),
{
}

/// What a request holds and asks for is what it says.
pub proof fn requests_say_what_they_hold(state: NextBuffer, action: NextBufferAction)
    ensures
        state matches NextBuffer::Current { configuration } ==> state@ == (
        NextBufferView::Current { configuration: configuration@ }),
        state matches NextBuffer::ActivePath { configuration, current } ==> state@ == (
        NextBufferView::ActivePath { configuration: configuration@, current: current@ }),
        state matches NextBuffer::Rotation { configuration } ==> state@ == (
        NextBufferView::Rotation { configuration: configuration@ }),
        state matches NextBuffer::Proposal { path } ==> state@ == (NextBufferView::Proposal {
            path: path@,
        }),
        state matches NextBuffer::Opening { proposal: Some(proposal) } ==> state@ == (
        NextBufferView::Opening { proposal: Some(proposal@) }),
        state matches NextBuffer::Opening { proposal: None } ==> state@ == (
        NextBufferView::Opening { proposal: None }),
        state is Focus <==> state@ is Focus,
        state is Review <==> state@ is Review,
        state is Finished <==> state@ is Finished,
        action matches NextBufferAction::Run(command) ==> action@ == NextBufferActionView::Run(
            command@,
        ),
        action matches NextBufferAction::Advance(configuration) ==> action@
            == NextBufferActionView::Advance(configuration@),
        action matches NextBufferAction::Open(path) ==> action@ == NextBufferActionView::Open(
            path@,
        ),
        action matches NextBufferAction::Review(proposal) ==> action@
            == NextBufferActionView::Review(proposal@),
        action matches NextBufferAction::Fail(message) ==> action@ == NextBufferActionView::Fail(
            message@,
        ),
        action is FindActiveItem <==> action@ is FindActiveItem,
        action is RefreshQueue <==> action@ is RefreshQueue,
        action is Stop <==> action@ is Stop,
        action is Wait <==> action@ is Wait,
{
}

} // verus!
