//! Guided attention: only the current repetition can be edited, every other
//! document can only be read.

use crate::active_item::{active_document, document_path, ActiveItem};
use crate::invocation::{current_invocation, rotation_current_arguments};
use crate::markdown_preview::WorkspaceEvent;
use crate::paths::{components, paths_match, same_path};
use crate::runtime::{
    configuration_view, failed, failure_of, interpret, interpreted, lacking_text, Command,
    CommandOutput, CommandView, ConfigurationError, RuntimeConfiguration, RuntimeView,
};
use crate::text::{borrow_text, borrowed_text, is_text, owned_text, text_of_bytes, trimmed};
use vstd::prelude::*;
use vstd::string::*;

verus! {

/// The title under which a failure to guide attention is reported.
pub const FAILURE_TITLE: &'static str = "Altere could not apply Guided attention";

/// Whether a document can only be read: where it is not the current repetition.
pub open spec fn read_only(active: Seq<char>, current: Option<Seq<char>>) -> bool {
    !(current is Some && same_path(current->0, active))
}

/// Decides whether a document can only be read.
pub fn guided_read_only(active_path: &str, current_path: Option<&str>) -> (decision: bool)
    ensures
        decision == read_only(active_path@, borrowed_text(current_path)),
{
    match current_path {
        Some(current_path) => !paths_match(current_path, active_path),
        None => true,
    }
}

/// Whether attention is guided, by the setting `ALTERE_ATTENTION_MODE`: always, but
/// where that is `open`.
pub fn guides_attention(attention_mode: Option<&str>) -> (guided: bool)
    ensures
        guided == (borrowed_text(attention_mode) != Some("open"@)),
{
    !is_text(attention_mode, "open")
}

/// Whether an event asks to look at the active item again.
pub fn follows(event: WorkspaceEvent) -> (followed: bool)
    ensures
        followed == (event is ActiveItemChanged),
{
    match event {
        WorkspaceEvent::ActiveItemChanged => true,
        _ => false,
    }
}

/// A decision in progress: the runtime is asked which repetition is current, then
/// the editor is told.
pub enum Guidance {
    Asked { path: String },
    Telling,
    Finished,
}

/// What a decision in progress says.
pub enum GuidanceView {
    Asked { path: Seq<char> },
    Telling,
    Finished,
}

impl View for Guidance {
    type V = GuidanceView;

    open spec fn view(&self) -> GuidanceView {
        match self {
            Guidance::Asked { path } => GuidanceView::Asked { path: path@ },
            Guidance::Telling => GuidanceView::Telling,
            Guidance::Finished => GuidanceView::Finished,
        }
    }
}

/// What happened to a decision in progress. The answer comes with the path of the
/// current repetition that it decodes to, or why it does not decode.
pub enum GuidanceEvent {
    Answered { output: CommandOutput, current: Result<Option<String>, String> },
    Told,
    Failed(String),
}

/// What a decision asks for next.
pub enum GuidanceAction {
    Run(Command),
    SetReadOnly(bool),
    Fail(String),
    Stop,
    Wait,
}

/// What a request says.
pub enum GuidanceActionView {
    Run(CommandView),
    SetReadOnly(bool),
    Fail(Seq<char>),
    Stop,
    Wait,
}

impl View for GuidanceAction {
    type V = GuidanceActionView;

    open spec fn view(&self) -> GuidanceActionView {
        match self {
            GuidanceAction::Run(command) => GuidanceActionView::Run(command@),
            GuidanceAction::SetReadOnly(read_only) => GuidanceActionView::SetReadOnly(*read_only),
            GuidanceAction::Fail(message) => GuidanceActionView::Fail(message@),
            GuidanceAction::Stop => GuidanceActionView::Stop,
            GuidanceAction::Wait => GuidanceActionView::Wait,
        }
    }
}

/// How a decision begins: with nothing, where no Markdown document is edited; else
/// by asking the runtime.
pub open spec fn guidance_begins(
    document: Option<Seq<char>>,
    configuration: Result<RuntimeView, ConfigurationError>,
) -> (GuidanceView, GuidanceActionView) {
    match (document, configuration) {
        (None, _) => (GuidanceView::Finished, GuidanceActionView::Stop),
        (Some(_), Err(error)) => (
            GuidanceView::Finished,
            GuidanceActionView::Fail(lacking_text(error)),
        ),
        (Some(path), Ok(configuration)) => (
            GuidanceView::Asked { path },
            GuidanceActionView::Run(
                interpreted(
                    configuration.bun,
                    rotation_current_arguments(configuration.runtime, configuration.collection),
                ),
            ),
        ),
    }
}

/// Begins to decide whether the active item can be edited.
pub fn apply_to_active_editor(
    item: Option<ActiveItem>,
    configuration: Result<RuntimeConfiguration, ConfigurationError>,
) -> (begun: (Guidance, GuidanceAction))
    ensures
        (begun.0@, begun.1@) == guidance_begins(
            document_path(item),
            configuration_view(configuration),
        ),
{
    let path = match active_document(item) {
        Some(path) => path,
        None => return (Guidance::Finished, GuidanceAction::Stop),
    };
    let configuration = match configuration {
        Ok(configuration) => configuration,
        Err(error) => return (Guidance::Finished, GuidanceAction::Fail(error.message())),
    };
    let command = interpret(
        &configuration,
        current_invocation(
            configuration.runtime.as_str(),
            configuration.collection.as_str(),
        ).as_slice(),
    );
    (Guidance::Asked { path }, GuidanceAction::Run(command))
}

/// How a decision goes on. Events that the state does not wait for change nothing.
pub open spec fn guidance_goes_on(state: GuidanceView, event: GuidanceEvent) -> (
    GuidanceView,
    GuidanceActionView,
) {
    match (state, event) {
        (GuidanceView::Finished, _) => (state, GuidanceActionView::Wait),
        (_, GuidanceEvent::Failed(message)) => (
            GuidanceView::Finished,
            GuidanceActionView::Fail(message@),
        ),
        (GuidanceView::Asked { path }, GuidanceEvent::Answered { output, current }) => match (
            failed(output, "Altere current rotation projection failed"@),
            current,
        ) {
            (Some(message), _) => (GuidanceView::Finished, GuidanceActionView::Fail(message)),
            (None, Err(message)) => (GuidanceView::Finished, GuidanceActionView::Fail(message@)),
            (None, Ok(current)) => (
                GuidanceView::Telling,
                GuidanceActionView::SetReadOnly(read_only(path, owned_text(current))),
            ),
        },
        (GuidanceView::Telling, GuidanceEvent::Told) => (
            GuidanceView::Finished,
            GuidanceActionView::Stop,
        ),
        _ => (state, GuidanceActionView::Wait),
    }
}

impl Guidance {
    /// Goes on after an event.
    pub fn step(self, event: GuidanceEvent) -> (next: (Guidance, GuidanceAction))
        ensures
            (next.0@, next.1@) == guidance_goes_on(self@, event),
    {
        match (self, event) {
            (Guidance::Finished, _) => (Guidance::Finished, GuidanceAction::Wait),
            (_, GuidanceEvent::Failed(message)) => (
                Guidance::Finished,
                GuidanceAction::Fail(message),
            ),
            (Guidance::Asked { path }, GuidanceEvent::Answered { output, current }) => {
                if let Some(message) = failure_of(
                    &output,
                    "Altere current rotation projection failed",
                ) {
                    return (Guidance::Finished, GuidanceAction::Fail(message));
                }
                match current {
                    Ok(current) => {
                        let decision = guided_read_only(path.as_str(), borrow_text(&current));
                        (Guidance::Telling, GuidanceAction::SetReadOnly(decision))
                    },
                    Err(message) => (Guidance::Finished, GuidanceAction::Fail(message)),
                }
            },
            (Guidance::Telling, GuidanceEvent::Told) => (
                Guidance::Finished,
                GuidanceAction::Stop,
            ),
            (state, _) => (state, GuidanceAction::Wait),
        }
    }
}

/// At most one document can be edited: two that can be are the same path.
pub proof fn only_the_current_repetition_is_editable(
    one: Seq<char>,
    other: Seq<char>,
    current: Option<Seq<char>>,
)
    requires
        !read_only(one, current),
        !read_only(other, current),
    ensures
        same_path(one, other),
{
}

/// An editor is told something only by an answer that succeeded and could be
/// decoded; else it is left as it is.
pub proof fn failures_leave_the_editor_alone(state: GuidanceView, event: GuidanceEvent)
    requires
        guidance_goes_on(state, event).1 is SetReadOnly,
    ensures
        state is Asked,
        event is Answered,
        event->output.success,
        event->current is Ok,
{
}

/// Every answer that succeeded and decodes tells the editor something: that its document
/// can be edited exactly where the answer names a current repetition whose path has the
/// same components, and that it can only be read in every other case, so too where no
/// repetition is current.
pub proof fn only_the_answered_repetition_can_be_edited(
    path: Seq<char>,
    output: CommandOutput,
    current: Option<String>,
)
    requires
        output.success,
    ensures
        ({
            let next = guidance_goes_on(
                GuidanceView::Asked { path },
                GuidanceEvent::Answered { output, current: Ok(current) },
            );
            &&& next.0 is Telling
            &&& next.1 is SetReadOnly
            &&& current is None ==> next.1 == GuidanceActionView::SetReadOnly(true)
            &&& current matches Some(current) ==> {
                &&& components(current@) == components(path) ==> next.1
                    == GuidanceActionView::SetReadOnly(false)
                &&& components(current@) != components(path) ==> next.1
                    == GuidanceActionView::SetReadOnly(true)
            }
        }),
{
}

/// An editor is opened for editing only by an answer that succeeded and names its own
/// document as the current repetition.
pub proof fn editing_is_granted_by_name(state: GuidanceView, event: GuidanceEvent)
    requires
        guidance_goes_on(state, event).1 == GuidanceActionView::SetReadOnly(false),
    ensures
        state is Asked,
        event is Answered,
        event->output.success,
        event->current matches Ok(Some(current)) && components(current@) == components(
            state->path,
        ),
{
}

/// A decision begins by asking the configured interpreter, with nothing to read, which
/// repetition of the configured collection is current; not where no document is edited,
/// nor where the runtime is not configured.
pub proof fn decisions_begin_with_the_current_repetition(
    path: Seq<char>,
    configuration: RuntimeView,
    error: ConfigurationError,
    any: Result<RuntimeView, ConfigurationError>,
)
    ensures
        guidance_begins(Some(path), Ok(configuration)) == (
            GuidanceView::Asked { path },
            GuidanceActionView::Run(
                CommandView {
                    program: configuration.bun,
                    arguments: seq![
                        configuration.runtime,
                        "rotation"@,
                        "current"@,
                        "--collection"@,
                        configuration.collection,
                    ],
                    input: None,
                },
            ),
        ),
        guidance_begins(Some(path), Err(error)) == (
            GuidanceView::Finished,
            GuidanceActionView::Fail(lacking_text(error)),
        ),
        guidance_begins(None, any) == (GuidanceView::Finished, GuidanceActionView::Stop),
{
}

/// An answer that failed ends the decision with what the command wrote, and one that does
/// not decode with the reason for that.
pub proof fn failed_decisions_say_why(
    path: Seq<char>,
    output: CommandOutput,
    current: Result<Option<String>, String>,
)
    ensures
        !output.success ==> guidance_goes_on(
            GuidanceView::Asked { path },
            GuidanceEvent::Answered { output, current },
        ) == (
            GuidanceView::Finished,
            GuidanceActionView::Fail(
                "Altere current rotation projection failed"@ + ": "@ + trimmed(
                    text_of_bytes(output.stderr@),
                ),
            ),
        ),
        output.success && current is Err ==> guidance_goes_on(
            GuidanceView::Asked { path },
            GuidanceEvent::Answered { output, current },
        ) == (GuidanceView::Finished, GuidanceActionView::Fail(current->Err_0@)),
{
}

/// A failure ends a decision that is in progress, with its reason; once the editor is
/// told the decision is over; and what it does not wait for leaves it as it is.
pub proof fn decisions_heed_only_what_they_wait_for(state: GuidanceView, event: GuidanceEvent)
    ensures
        !(state is Finished) && event is Failed ==> guidance_goes_on(state, event) == (
            GuidanceView::Finished,
            GuidanceActionView::Fail(event->Failed_0@),
        ),
        state is Telling && event is Told ==> guidance_goes_on(state, event) == (
            GuidanceView::Finished,
            GuidanceActionView::Stop,
        ),
        state is Finished || (!(event is Failed) && !(state is Asked && event is Answered) && !(
        state is Telling && event is Told)) ==> guidance_goes_on(state, event) == (
            state,
            GuidanceActionView::Wait,
        ),
{
}

/// A document can be edited exactly where there is a current repetition and its path has
/// the same components.
pub proof fn reading_is_the_rule(active: Seq<char>, current: Option<Seq<char>>)
    ensures
        current is None ==> read_only(active, current),
        current matches Some(current) ==> (read_only(active, Some(current)) <==> components(current)
            != components(active)),
{
}

/// How many steps a decision can still take.
pub open spec fn steps_left(state: GuidanceView) -> nat {
    match state {
        GuidanceView::Asked { .. } => 2,
        GuidanceView::Telling => 1,
        GuidanceView::Finished => 0,
    }
}

/// A decision ends: every event either leaves it as it is, or brings it nearer to
/// its end.
pub proof fn every_step_leads_to_the_end(state: GuidanceView, event: GuidanceEvent)
    ensures
        guidance_goes_on(state, event).1 is Wait ==> guidance_goes_on(state, event).0 == state,
        !(guidance_goes_on(state, event).1 is Wait) ==> steps_left(
            guidance_goes_on(state, event).0,
        ) < steps_left(state),
{
}

/// What a decision holds and asks for is what it says.
pub proof fn decisions_say_what_they_hold(state: Guidance, action: GuidanceAction)
    ensures
        state matches Guidance::Asked { path } ==> state@ == (GuidanceView::Asked { path: path@ }),
        state is Telling <==> state@ is Telling,
        state is Finished <==> state@ is Finished,
        action matches GuidanceAction::Run(command) ==> action@ == GuidanceActionView::Run(
            command@,
        ),
        action matches GuidanceAction::SetReadOnly(read_only) ==> action@
            == GuidanceActionView::SetReadOnly(read_only),
        action matches GuidanceAction::Fail(message) ==> action@ == GuidanceActionView::Fail(
            message@,
        ),
        action is Stop <==> action@ is Stop,
        action is Wait <==> action@ is Wait,
{
}

} // verus!
