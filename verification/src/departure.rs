//! Departed documents: when a Markdown document is left, the runtime is told, and
//! the correction that it asks for is handed to an agent.

use crate::active_item::{active_document, document_path, ActiveItem};
use crate::invocation::{
    annotation_acknowledge_arguments, annotation_acknowledgement_invocation,
    annotation_depart_arguments, annotation_departure_invocation,
};
use crate::markdown_preview::WorkspaceEvent;
use crate::paths::{
    below, components, is_markdown, is_within, paths_match, relative_to, same_path, strip_prefix,
};
use crate::runtime::{
    configuration_view, failed, failure_of, interpret, interpreted, lacking_text, Command,
    CommandOutput, CommandView, ConfigurationError, RuntimeConfiguration, RuntimeView,
};
use crate::text::{owned_text, text_of_bytes, texts, trimmed};
use agent_client_protocol::v1::schema::{ContentBlock, TextContent};
use vstd::prelude::*;
use vstd::string::*;

verus! {

/// The title under which a failure to start a correction is reported.
pub const FAILURE_TITLE: &'static str = "Altere could not start the departed correction";

/// A Markdown document and the editor that shows it.
pub struct ActiveDocument {
    pub path: String,
    pub editor: u64,
}

/// What an active document says.
pub struct DocumentView {
    pub path: Seq<char>,
    pub editor: u64,
}

impl View for ActiveDocument {
    type V = DocumentView;

    open spec fn view(&self) -> DocumentView {
        DocumentView { path: self.path@, editor: self.editor }
    }
}

/// What an optional document says.
pub open spec fn document_view(document: Option<ActiveDocument>) -> Option<DocumentView> {
    match document {
        Some(document) => Some(document@),
        None => None,
    }
}

/// The document that an item shows in an editor.
pub open spec fn shown_document(item: Option<ActiveItem>, editor: u64) -> Option<DocumentView> {
    match document_path(item) {
        Some(path) => Some(DocumentView { path, editor }),
        None => None,
    }
}

fn document_of(item: Option<ActiveItem>, editor: u64) -> (document: Option<ActiveDocument>)
    ensures
        document_view(document) == shown_document(item, editor),
{
    match active_document(item) {
        Some(path) => Some(ActiveDocument { path, editor }),
        None => None,
    }
}

/// Watches which document is active.
pub struct DepartureObserver {
    previous: Option<ActiveDocument>,
}

impl View for DepartureObserver {
    type V = Option<DocumentView>;

    closed spec fn view(&self) -> Option<DocumentView> {
        document_view(self.previous)
    }
}

/// The document that is left where another one, or none, becomes active.
pub open spec fn departed(
    previous: Option<DocumentView>,
    current: Option<DocumentView>,
) -> Option<DocumentView> {
    if previous is Some && !(current is Some && same_path(current->0.path, previous->0.path)) {
        previous
    } else {
        None
    }
}

impl DepartureObserver {
    /// Starts to watch, with the item that is active and its editor.
    pub fn observe_document_departures(item: Option<ActiveItem>, editor: u64) -> (observer:
        DepartureObserver)
        ensures
            observer@ == shown_document(item, editor),
    {
        DepartureObserver { previous: document_of(item, editor) }
    }

    /// Takes an event, with the item that is active then and its editor; tells
    /// which document was left.
    pub fn on_event(&mut self, event: WorkspaceEvent, item: Option<ActiveItem>, editor: u64) -> (
        left: Option<ActiveDocument>)
        ensures
            event is ActiveItemChanged ==> {
                &&& final(self)@ == shown_document(item, editor)
                &&& document_view(left) == departed(old(self)@, shown_document(item, editor))
            },
            !(event is ActiveItemChanged) ==> left is None && final(self)@ == old(self)@,
    {
        match event {
            WorkspaceEvent::ActiveItemChanged => {},
            _ => return None,
        }
        let current = document_of(item, editor);
        let left = match self.previous.take() {
            Some(previous) => match &current {
                Some(current) => if paths_match(current.path.as_str(), previous.path.as_str()) {
                    None
                } else {
                    Some(previous)
                },
                None => Some(previous),
            },
            None => None,
        };
        self.previous = current;
        left
    }
}

/// What the runtime asks for when a document is left.
pub struct AnnotationDepartureRequest {
    pub annotation_id: String,
    pub title: String,
    pub prompt: String,
}

/// What such a request says.
pub struct DepartureRequestView {
    pub annotation_id: Seq<char>,
    pub title: Seq<char>,
    pub prompt: Seq<char>,
}

impl View for AnnotationDepartureRequest {
    type V = DepartureRequestView;

    open spec fn view(&self) -> DepartureRequestView {
        DepartureRequestView {
            annotation_id: self.annotation_id@,
            title: self.title@,
            prompt: self.prompt@,
        }
    }
}

/// A correction to hand to an agent.
pub struct DepartedDocumentAgentRequest {
    pub title: String,
    pub prompt: String,
    pub agent: Option<String>,
}

/// A block of content of the Agent Client Protocol.
#[verifier::external_type_specification]
#[verifier::external_body]
pub struct ExContentBlock(ContentBlock);

/// The block of content that holds a text and nothing else.
pub uninterp spec fn text_block(text: Seq<char>) -> ContentBlock;

/// Puts a text into a block with `TextContent::new` and `ContentBlock::Text`.
///
/// Believed of them: which block it is depends on the text alone. That the block
/// holds the text is not stated, as nothing here looks into a block.
#[verifier::external_body]
fn block_of_text(text: String) -> (block: ContentBlock)
    ensures
        block == text_block(text@),
{
    ContentBlock::Text(TextContent::new(text))
}

/// Where a thread comes from.
#[derive(Clone, Copy, Debug, PartialEq, Eq, Structural)]
pub enum AgentThreadSource {
    AgentPanel,
}

/// How a thread is created: its source and title, the blocks of content that it begins with
/// and whether they are sent at once, the agent, and the model and directories
/// where they are not left to the agent.
pub struct CreateThreadOptions {
    pub source: AgentThreadSource,
    pub title: Option<String>,
    pub blocks: Vec<ContentBlock>,
    pub auto_submit: bool,
    pub agent: Option<String>,
    pub model: Option<String>,
    pub work_dirs: Option<Vec<String>>,
}

/// What such options say.
pub struct ThreadOptionsView {
    pub source: AgentThreadSource,
    pub title: Option<Seq<char>>,
    pub blocks: Seq<ContentBlock>,
    pub auto_submit: bool,
    pub agent: Option<Seq<char>>,
    pub model: Option<Seq<char>>,
    pub work_dirs: Option<Seq<Seq<char>>>,
}

impl View for CreateThreadOptions {
    type V = ThreadOptionsView;

    open spec fn view(&self) -> ThreadOptionsView {
        ThreadOptionsView {
            source: self.source,
            title: owned_text(self.title),
            blocks: self.blocks@,
            auto_submit: self.auto_submit,
            agent: owned_text(self.agent),
            model: owned_text(self.model),
            work_dirs: match self.work_dirs {
                Some(work_dirs) => Some(texts(work_dirs@)),
                None => None,
            },
        }
    }
}

/// The thread for a correction: it comes from the panel of the agents, its prompt is
/// sent at once, and nothing else is settled.
pub open spec fn correction_thread(
    title: Seq<char>,
    prompt: Seq<char>,
    agent: Option<Seq<char>>,
) -> ThreadOptionsView {
    ThreadOptionsView {
        source: AgentThreadSource::AgentPanel,
        title: Some(title),
        blocks: seq![text_block(prompt)],
        auto_submit: true,
        agent,
        model: None,
        work_dirs: None,
    }
}

/// Hands a correction to an agent.
pub fn dispatch_departed_document(request: DepartedDocumentAgentRequest) -> (options:
    CreateThreadOptions)
    ensures
        options@ == correction_thread(request.title@, request.prompt@, owned_text(request.agent)),
{
    let blocks = vec![block_of_text(request.prompt)];
    assert(blocks@ =~= seq![text_block(request.prompt@)]);
    CreateThreadOptions {
        source: AgentThreadSource::AgentPanel,
        title: Some(request.title),
        blocks,
        auto_submit: true,
        agent: request.agent,
        model: None,
        work_dirs: None,
    }
}

/// A departure in progress, by what it waits for: the runtime's request, the panel
/// of the agents (which may have to be loaded, looked for again and added), the
/// agent to ask, the thread, and the runtime's acknowledgement.
pub enum Departure {
    Asked { configuration: RuntimeConfiguration },
    FindingPanel { configuration: RuntimeConfiguration, request: AnnotationDepartureRequest },
    LoadingPanel { configuration: RuntimeConfiguration, request: AnnotationDepartureRequest },
    FindingPanelAgain { configuration: RuntimeConfiguration, request: AnnotationDepartureRequest },
    AddingPanel { configuration: RuntimeConfiguration, request: AnnotationDepartureRequest },
    ChoosingAgent { configuration: RuntimeConfiguration, request: AnnotationDepartureRequest },
    Dispatched { configuration: RuntimeConfiguration, annotation_id: String },
    Acknowledging,
    Finished,
}

/// What a departure in progress says.
pub enum DepartureView {
    Asked { configuration: RuntimeView },
    FindingPanel { configuration: RuntimeView, request: DepartureRequestView },
    LoadingPanel { configuration: RuntimeView, request: DepartureRequestView },
    FindingPanelAgain { configuration: RuntimeView, request: DepartureRequestView },
    AddingPanel { configuration: RuntimeView, request: DepartureRequestView },
    ChoosingAgent { configuration: RuntimeView, request: DepartureRequestView },
    Dispatched { configuration: RuntimeView, annotation_id: Seq<char> },
    Acknowledging,
    Finished,
}

impl View for Departure {
    type V = DepartureView;

    open spec fn view(&self) -> DepartureView {
        match self {
            Departure::Asked { configuration } => DepartureView::Asked {
                configuration: configuration@,
            },
            Departure::FindingPanel { configuration, request } => DepartureView::FindingPanel {
                configuration: configuration@,
                request: request@,
            },
            Departure::LoadingPanel { configuration, request } => DepartureView::LoadingPanel {
                configuration: configuration@,
                request: request@,
            },
            Departure::FindingPanelAgain { configuration, request } => {
                DepartureView::FindingPanelAgain {
                    configuration: configuration@,
                    request: request@,
                }
            },
            Departure::AddingPanel { configuration, request } => DepartureView::AddingPanel {
                configuration: configuration@,
                request: request@,
            },
            Departure::ChoosingAgent { configuration, request } => DepartureView::ChoosingAgent {
                configuration: configuration@,
                request: request@,
            },
            Departure::Dispatched { configuration, annotation_id } => DepartureView::Dispatched {
                configuration: configuration@,
                annotation_id: annotation_id@,
            },
            Departure::Acknowledging => DepartureView::Acknowledging,
            Departure::Finished => DepartureView::Finished,
        }
    }
}

/// What happened to a departure in progress. The answer comes with what it decodes
/// to, or why it does not decode; the agent is the setting
/// `ALTERE_ANNOTATION_AGENT`.
pub enum DepartureEvent {
    Answered {
        output: CommandOutput,
        request: Result<Option<AnnotationDepartureRequest>, String>,
    },
    PanelFound(bool),
    PanelLoaded,
    PanelAdded,
    Agent(Option<String>),
    ThreadCreated(String),
    Acknowledged(CommandOutput),
    Failed(String),
}

/// What a departure asks for next.
pub enum DepartureAction {
    Run(Command),
    FindPanel,
    LoadPanel,
    AddPanel,
    ReadAgent,
    CreateThread(CreateThreadOptions),
    Fail(String),
    Stop,
    Wait,
}

/// What is asked for.
pub enum DepartureActionView {
    Run(CommandView),
    FindPanel,
    LoadPanel,
    AddPanel,
    ReadAgent,
    CreateThread(ThreadOptionsView),
    Fail(Seq<char>),
    Stop,
    Wait,
}

impl View for DepartureAction {
    type V = DepartureActionView;

    open spec fn view(&self) -> DepartureActionView {
        match self {
            DepartureAction::Run(command) => DepartureActionView::Run(command@),
            DepartureAction::FindPanel => DepartureActionView::FindPanel,
            DepartureAction::LoadPanel => DepartureActionView::LoadPanel,
            DepartureAction::AddPanel => DepartureActionView::AddPanel,
            DepartureAction::ReadAgent => DepartureActionView::ReadAgent,
            DepartureAction::CreateThread(options) => DepartureActionView::CreateThread(options@),
            DepartureAction::Fail(message) => DepartureActionView::Fail(message@),
            DepartureAction::Stop => DepartureActionView::Stop,
            DepartureAction::Wait => DepartureActionView::Wait,
        }
    }
}

/// A departure that ended without success.
pub open spec fn failing(message: Seq<char>) -> (DepartureView, DepartureActionView) {
    (DepartureView::Finished, DepartureActionView::Fail(message))
}

/// The message where a departed document is not in the collection.
pub open spec fn outside_message(path: Seq<char>, collection: Seq<char>) -> Seq<char> {
    "Departed document "@ + path + " is outside Altere Collection "@ + collection
}

/// How a departure begins: the runtime is told which source was left, and given
/// its text.
pub open spec fn departure_begins(
    path: Seq<char>,
    markdown: Seq<char>,
    configuration: Result<RuntimeView, ConfigurationError>,
) -> (DepartureView, DepartureActionView) {
    match configuration {
        Err(error) => failing(lacking_text(error)),
        Ok(configuration) => match relative_to(path, configuration.collection) {
            Some(source) => (
                DepartureView::Asked { configuration },
                DepartureActionView::Run(
                    CommandView {
                        input: Some(markdown),
                        ..interpreted(
                            configuration.bun,
                            annotation_depart_arguments(
                                configuration.runtime,
                                configuration.collection,
                                source,
                            ),
                        )
                    },
                ),
            ),
            None => failing(outside_message(path, configuration.collection)),
        },
    }
}

/// How a departure goes on once the runtime has answered: it ends where nothing is
/// to be corrected.
pub open spec fn after_answer(
    configuration: RuntimeView,
    output: CommandOutput,
    request: Result<Option<AnnotationDepartureRequest>, String>,
) -> (DepartureView, DepartureActionView) {
    match (failed(output, "Altere annotation departure failed"@), request) {
        (Some(message), _) => failing(message),
        (None, Err(message)) => failing(message@),
        (None, Ok(None)) => (DepartureView::Finished, DepartureActionView::Stop),
        (None, Ok(Some(request))) => (
            DepartureView::FindingPanel { configuration, request: request@ },
            DepartureActionView::FindPanel,
        ),
    }
}

/// How a departure goes on once an agent is, or is not, named.
pub open spec fn after_agent(
    configuration: RuntimeView,
    request: DepartureRequestView,
    agent: Option<Seq<char>>,
) -> (DepartureView, DepartureActionView) {
    match agent {
        Some(agent) => (
            DepartureView::Dispatched { configuration, annotation_id: request.annotation_id },
            DepartureActionView::CreateThread(
                correction_thread(request.title, request.prompt, Some(agent)),
            ),
        ),
        None => failing("ALTERE_ANNOTATION_AGENT is required for annotation departure"@),
    }
}

/// How a departure goes on. Events that the state does not wait for change nothing.
pub open spec fn departure_goes_on(state: DepartureView, event: DepartureEvent) -> (
    DepartureView,
    DepartureActionView,
) {
    match (state, event) {
        (DepartureView::Finished, _) => (state, DepartureActionView::Wait),
        (_, DepartureEvent::Failed(message)) => failing(message@),
        (DepartureView::Asked { configuration }, DepartureEvent::Answered { output, request }) => {
            after_answer(configuration, output, request)
        },
        (
            DepartureView::FindingPanel { configuration, request },
            DepartureEvent::PanelFound(found),
        ) => if found {
            (
                DepartureView::ChoosingAgent { configuration, request },
                DepartureActionView::ReadAgent,
            )
        } else {
            (
                DepartureView::LoadingPanel { configuration, request },
                DepartureActionView::LoadPanel,
            )
        },
        (DepartureView::LoadingPanel { configuration, request }, DepartureEvent::PanelLoaded) => (
            DepartureView::FindingPanelAgain { configuration, request },
            DepartureActionView::FindPanel,
        ),
        (
            DepartureView::FindingPanelAgain { configuration, request },
            DepartureEvent::PanelFound(found),
        ) => if found {
            (
                DepartureView::ChoosingAgent { configuration, request },
                DepartureActionView::ReadAgent,
            )
        } else {
            (
                DepartureView::AddingPanel { configuration, request },
                DepartureActionView::AddPanel,
            )
        },
        (DepartureView::AddingPanel { configuration, request }, DepartureEvent::PanelAdded) => (
            DepartureView::ChoosingAgent { configuration, request },
            DepartureActionView::ReadAgent,
        ),
        (DepartureView::ChoosingAgent { configuration, request }, DepartureEvent::Agent(agent)) => {
            after_agent(configuration, request, owned_text(agent))
        },
        (
            DepartureView::Dispatched { configuration, annotation_id },
            DepartureEvent::ThreadCreated(thread),
        ) => (
            DepartureView::Acknowledging,
            DepartureActionView::Run(
                interpreted(
                    configuration.bun,
                    annotation_acknowledge_arguments(
                        configuration.runtime,
                        configuration.collection,
                        annotation_id,
                        thread@,
                    ),
                ),
            ),
        ),
        (DepartureView::Acknowledging, DepartureEvent::Acknowledged(output)) => match failed(
            output,
            "Altere annotation acknowledgement failed"@,
        ) {
            Some(message) => failing(message),
            None => (DepartureView::Finished, DepartureActionView::Stop),
        },
        _ => (state, DepartureActionView::Wait),
    }
}

/// Begins the departure of a document with the given text.
pub fn depart_document(
    path: &str,
    markdown: String,
    configuration: Result<RuntimeConfiguration, ConfigurationError>,
) -> (begun: (Departure, DepartureAction))
    ensures
        (begun.0@, begun.1@) == departure_begins(
            path@,
            markdown@,
            configuration_view(configuration),
        ),
{
    let configuration = match configuration {
        Ok(configuration) => configuration,
        Err(error) => return Departure::fail(error.message()),
    };
    match strip_prefix(path, configuration.collection.as_str()) {
        Some(source) => {
            let command = interpret(
                &configuration,
                annotation_departure_invocation(
                    configuration.runtime.as_str(),
                    configuration.collection.as_str(),
                    source.as_str(),
                ).as_slice(),
            );
            let command = Command { input: Some(markdown), ..command };
            (Departure::Asked { configuration }, DepartureAction::Run(command))
        },
        None => {
            let mut message = "Departed document ".to_string();
            message.append(path);
            message.append(" is outside Altere Collection ");
            message.append(configuration.collection.as_str());
            Departure::fail(message)
        },
    }
}

impl Departure {
    fn fail(message: String) -> (ended: (Departure, DepartureAction))
        ensures
            (ended.0@, ended.1@) == failing(message@),
    {
        (Departure::Finished, DepartureAction::Fail(message))
    }

    fn answered(
        configuration: RuntimeConfiguration,
        output: CommandOutput,
        request: Result<Option<AnnotationDepartureRequest>, String>,
    ) -> (next: (Departure, DepartureAction))
        ensures
            (next.0@, next.1@) == after_answer(configuration@, output, request),
    {
        if let Some(message) = failure_of(&output, "Altere annotation departure failed") {
            return Self::fail(message);
        }
        match request {
            Ok(Some(request)) => (
                Departure::FindingPanel { configuration, request },
                DepartureAction::FindPanel,
            ),
            Ok(None) => (Departure::Finished, DepartureAction::Stop),
            Err(message) => Self::fail(message),
        }
    }

    fn agent_named(
        configuration: RuntimeConfiguration,
        request: AnnotationDepartureRequest,
        agent: Option<String>,
    ) -> (next: (Departure, DepartureAction))
        ensures
            (next.0@, next.1@) == after_agent(configuration@, request@, owned_text(agent)),
    {
        match agent {
            Some(agent) => {
                let options = dispatch_departed_document(
                    DepartedDocumentAgentRequest {
                        title: request.title,
                        prompt: request.prompt,
                        agent: Some(agent),
                    },
                );
                (
                    Departure::Dispatched { configuration, annotation_id: request.annotation_id },
                    DepartureAction::CreateThread(options),
                )
            },
            None => Self::fail(
                "ALTERE_ANNOTATION_AGENT is required for annotation departure".to_string(),
            ),
        }
    }

    /// Goes on after an event.
    pub fn step(self, event: DepartureEvent) -> (next: (Departure, DepartureAction))
        ensures
            (next.0@, next.1@) == departure_goes_on(self@, event),
    {
        match (self, event) {
            (Departure::Finished, _) => (Departure::Finished, DepartureAction::Wait),
            (_, DepartureEvent::Failed(message)) => Self::fail(message),
            (Departure::Asked { configuration }, DepartureEvent::Answered { output, request }) => {
                Self::answered(configuration, output, request)
            },
            (
                Departure::FindingPanel { configuration, request },
                DepartureEvent::PanelFound(found),
            ) => if found {
                (
                    Departure::ChoosingAgent { configuration, request },
                    DepartureAction::ReadAgent,
                )
            } else {
                (Departure::LoadingPanel { configuration, request }, DepartureAction::LoadPanel)
            },
            (Departure::LoadingPanel { configuration, request }, DepartureEvent::PanelLoaded) => (
                Departure::FindingPanelAgain { configuration, request },
                DepartureAction::FindPanel,
            ),
            (
                Departure::FindingPanelAgain { configuration, request },
                DepartureEvent::PanelFound(found),
            ) => if found {
                (
                    Departure::ChoosingAgent { configuration, request },
                    DepartureAction::ReadAgent,
                )
            } else {
                (Departure::AddingPanel { configuration, request }, DepartureAction::AddPanel)
            },
            (Departure::AddingPanel { configuration, request }, DepartureEvent::PanelAdded) => (
                Departure::ChoosingAgent { configuration, request },
                DepartureAction::ReadAgent,
            ),
            (
                Departure::ChoosingAgent { configuration, request },
                DepartureEvent::Agent(agent),
            ) => Self::agent_named(configuration, request, agent),
            (
                Departure::Dispatched { configuration, annotation_id },
                DepartureEvent::ThreadCreated(thread),
            ) => {
                let command = interpret(
                    &configuration,
                    annotation_acknowledgement_invocation(
                        configuration.runtime.as_str(),
                        configuration.collection.as_str(),
                        annotation_id.as_str(),
                        thread.as_str(),
                    ).as_slice(),
                );
                (Departure::Acknowledging, DepartureAction::Run(command))
            },
            (Departure::Acknowledging, DepartureEvent::Acknowledged(output)) => match failure_of(
                &output,
                "Altere annotation acknowledgement failed",
            ) {
                Some(message) => Self::fail(message),
                None => (Departure::Finished, DepartureAction::Stop),
            },
            (state, _) => (state, DepartureAction::Wait),
        }
    }
}

/// A document that stays active under the same path is never left.
pub proof fn staying_is_no_departure(document: DocumentView, current: DocumentView)
    requires
        same_path(current.path, document.path),
    ensures
        departed(Some(document), Some(current)) is None,
{
}

/// A document that was active is left as soon as no document, or another one, is
/// active, and then with the editor that showed it.
pub proof fn leaving_is_a_departure(document: DocumentView, current: Option<DocumentView>)
    requires
        current is Some ==> !same_path(current->0.path, document.path),
    ensures
        departed(Some(document), current) == Some(document),
{
}

/// The runtime hears nothing of a document outside the collection.
pub proof fn outside_documents_depart_silently(
    path: Seq<char>,
    markdown: Seq<char>,
    configuration: RuntimeView,
)
    requires
        !is_within(path, configuration.collection),
    ensures
        departure_begins(path, markdown, Ok(configuration)) == failing(
            outside_message(path, configuration.collection),
        ),
{
}

/// A thread is only created for a request of the runtime, for the agent that was
/// named, and its prompt is sent at once.
pub proof fn threads_follow_requests(state: DepartureView, event: DepartureEvent)
    requires
        departure_goes_on(state, event).1 is CreateThread,
    ensures
        state is ChoosingAgent,
        event is Agent,
        event->Agent_0 is Some,
        departure_goes_on(state, event).1 == DepartureActionView::CreateThread(
            correction_thread(
                state->ChoosingAgent_request.title,
                state->ChoosingAgent_request.prompt,
                owned_text(event->Agent_0),
            ),
        ),
{
}

/// The runtime is told of a thread only once it was created, and with the
/// annotation that it is for.
pub proof fn acknowledgements_follow_threads(state: DepartureView, event: DepartureEvent)
    requires
        departure_goes_on(state, event).1 is Run,
    ensures
        state is Dispatched,
        event is ThreadCreated,
        departure_goes_on(state, event).0 is Acknowledging,
{
}

/// A document is left exactly where one was active and no document, or one whose path
/// has other components, is active now; what is left is the document that was active.
pub proof fn only_the_previous_document_departs(
    previous: Option<DocumentView>,
    current: Option<DocumentView>,
)
    ensures
        departed(previous, current) is Some <==> previous is Some && (current is None || components(
            current->0.path,
        ) != components(previous->0.path)),
        departed(previous, current) is Some ==> departed(previous, current) == previous,
{
}

/// A document shows where an item acts as an editor of a Markdown file, and it is that
/// file in that editor.
pub proof fn shown_documents_are_markdown(item: Option<ActiveItem>, editor: u64)
    ensures
        shown_document(item, editor) is Some <==> item is Some && item->0.acts_as_editor
            && item->0.path is Some && is_markdown(item->0.path->0@),
        shown_document(item, editor) is Some ==> shown_document(item, editor)->0.path
            == item->0.path->0@ && shown_document(item, editor)->0.editor == editor,
{
}

/// A departure within the collection tells the configured runtime the path of the
/// document in the collection, and gives it the text to read; one outside is refused in
/// words that name both; where the runtime is not configured, it is said what is lacking.
pub proof fn departures_hand_over_path_and_text(
    path: Seq<char>,
    markdown: Seq<char>,
    configuration: RuntimeView,
    error: ConfigurationError,
)
    ensures
        is_within(path, configuration.collection) ==> departure_begins(
            path,
            markdown,
            Ok(configuration),
        ) == (
            DepartureView::Asked { configuration },
            DepartureActionView::Run(
                CommandView {
                    program: configuration.bun,
                    arguments: seq![
                        configuration.runtime,
                        "annotation"@,
                        "depart"@,
                        "--collection"@,
                        configuration.collection,
                        "--source"@,
                        below(path, configuration.collection),
                    ],
                    input: Some(markdown),
                },
            ),
        ),
        !is_within(path, configuration.collection) ==> departure_begins(
            path,
            markdown,
            Ok(configuration),
        ) == (
            DepartureView::Finished,
            DepartureActionView::Fail(
                "Departed document "@ + path + " is outside Altere Collection "@
                    + configuration.collection,
            ),
        ),
        departure_begins(path, markdown, Err(error)) == (
            DepartureView::Finished,
            DepartureActionView::Fail(lacking_text(error)),
        ),
{
}

/// The runtime's answer leads to the panel of the agents where it asks for a correction,
/// and that request is kept as it is; it ends the departure where nothing is asked for,
/// where it does not decode and where the command failed.
pub proof fn answers_lead_to_the_panel(
    configuration: RuntimeView,
    output: CommandOutput,
    request: AnnotationDepartureRequest,
    reason: String,
    any: Result<Option<AnnotationDepartureRequest>, String>,
)
    ensures
        output.success ==> departure_goes_on(
            DepartureView::Asked { configuration },
            DepartureEvent::Answered { output, request: Ok(Some(request)) },
        ) == (
            DepartureView::FindingPanel {
                configuration,
                request: DepartureRequestView {
                    annotation_id: request.annotation_id@,
                    title: request.title@,
                    prompt: request.prompt@,
                },
            },
            DepartureActionView::FindPanel,
        ),
        output.success ==> departure_goes_on(
            DepartureView::Asked { configuration },
            DepartureEvent::Answered { output, request: Ok(None) },
        ) == (DepartureView::Finished, DepartureActionView::Stop),
        output.success ==> departure_goes_on(
            DepartureView::Asked { configuration },
            DepartureEvent::Answered { output, request: Err(reason) },
        ) == (DepartureView::Finished, DepartureActionView::Fail(reason@)),
        !output.success ==> departure_goes_on(
            DepartureView::Asked { configuration },
            DepartureEvent::Answered { output, request: any },
        ) == (
            DepartureView::Finished,
            DepartureActionView::Fail(
                "Altere annotation departure failed"@ + ": "@ + trimmed(
                    text_of_bytes(output.stderr@),
                ),
            ),
        ),
{
}

/// The panel of the agents is looked for, loaded where it is not there, looked for again,
/// and added where it is still not there; the agent is read once it is there, and the
/// request and the configuration go with it unchanged.
pub proof fn panel_is_found_loaded_or_added(
    configuration: RuntimeView,
    request: DepartureRequestView,
)
    ensures
        ({
            let chosen = (
                DepartureView::ChoosingAgent { configuration, request },
                DepartureActionView::ReadAgent,
            );
            let finding = DepartureView::FindingPanel { configuration, request };
            let found = departure_goes_on(finding, DepartureEvent::PanelFound(true));
            let missing = departure_goes_on(finding, DepartureEvent::PanelFound(false));
            let loaded = departure_goes_on(missing.0, DepartureEvent::PanelLoaded);
            let found_late = departure_goes_on(loaded.0, DepartureEvent::PanelFound(true));
            let missing_still = departure_goes_on(loaded.0, DepartureEvent::PanelFound(false));
            let added = departure_goes_on(missing_still.0, DepartureEvent::PanelAdded);
            &&& found == chosen
            &&& missing.1 is LoadPanel
            &&& loaded.1 is FindPanel
            &&& found_late == chosen
            &&& missing_still.1 is AddPanel
            &&& added == chosen
        }),
{
}

/// The thread of a correction has the title and the prompt that the runtime asked for,
/// and the agent that was named; its one block of content is sent at once, and model and
/// directories are left to the agent. Where no agent is named there is no thread.
pub proof fn threads_carry_the_request(
    configuration: RuntimeView,
    request: DepartureRequestView,
    agent: String,
)
    ensures
        ({
            let named = departure_goes_on(
                DepartureView::ChoosingAgent { configuration, request },
                DepartureEvent::Agent(Some(agent)),
            );
            &&& named.0 == (DepartureView::Dispatched {
                configuration,
                annotation_id: request.annotation_id,
            })
            &&& named.1 matches DepartureActionView::CreateThread(thread)
            &&& thread.source is AgentPanel
            &&& thread.title == Some(request.title)
            &&& thread.blocks.len() == 1
            &&& thread.blocks[0] == text_block(request.prompt)
            &&& thread.auto_submit
            &&& thread.agent == Some(agent@)
            &&& thread.model is None
            &&& thread.work_dirs is None
        }),
        departure_goes_on(
            DepartureView::ChoosingAgent { configuration, request },
            DepartureEvent::Agent(None),
        ) == (
            DepartureView::Finished,
            DepartureActionView::Fail(
                "ALTERE_ANNOTATION_AGENT is required for annotation departure"@,
            ),
        ),
{
}

/// The thread for a correction holds its title, prompt and agent, and settles nothing
/// else but that the prompt is sent at once.
pub proof fn corrections_settle_nothing_else(
    title: Seq<char>,
    prompt: Seq<char>,
    agent: Option<Seq<char>>,
)
    ensures
        correction_thread(title, prompt, agent).source is AgentPanel,
        correction_thread(title, prompt, agent).title == Some(title),
        correction_thread(title, prompt, agent).blocks == seq![text_block(prompt)],
        correction_thread(title, prompt, agent).auto_submit,
        correction_thread(title, prompt, agent).agent == agent,
        correction_thread(title, prompt, agent).model is None,
        correction_thread(title, prompt, agent).work_dirs is None,
{
}

/// The runtime is told of the thread that was created, with the annotation that the
/// departure began with; it is over once the runtime has taken that.
pub proof fn threads_are_acknowledged(
    configuration: RuntimeView,
    annotation_id: Seq<char>,
    thread: String,
    output: CommandOutput,
)
    ensures
        departure_goes_on(
            DepartureView::Dispatched { configuration, annotation_id },
            DepartureEvent::ThreadCreated(thread),
        ) == (
            DepartureView::Acknowledging,
            DepartureActionView::Run(
                CommandView {
                    program: configuration.bun,
                    arguments: seq![
                        configuration.runtime,
                        "annotation"@,
                        "acknowledge"@,
                        "--collection"@,
                        configuration.collection,
                        "--annotation-id"@,
                        annotation_id,
                        "--thread-id"@,
                        thread@,
                    ],
                    input: None,
                },
            ),
        ),
        output.success ==> departure_goes_on(
            DepartureView::Acknowledging,
            DepartureEvent::Acknowledged(output),
        ) == (DepartureView::Finished, DepartureActionView::Stop),
        !output.success ==> departure_goes_on(
            DepartureView::Acknowledging,
            DepartureEvent::Acknowledged(output),
        ) == (
            DepartureView::Finished,
            DepartureActionView::Fail(
                "Altere annotation acknowledgement failed"@ + ": "@ + trimmed(
                    text_of_bytes(output.stderr@),
                ),
            ),
        ),
{
}

/// A failure ends a departure that is in progress, with its reason; and what the
/// departure does not wait for leaves it as it is.
pub proof fn departures_heed_only_what_they_wait_for(state: DepartureView, event: DepartureEvent)
    ensures
        !(state is Finished) && event is Failed ==> departure_goes_on(state, event) == (
            DepartureView::Finished,
            DepartureActionView::Fail(event->Failed_0@),
        ),
        state is Finished || (!(event is Failed) && !(state is Asked && event is Answered) && !((
        state is FindingPanel || state is FindingPanelAgain) && event is PanelFound) && !(
        state is LoadingPanel && event is PanelLoaded) && !(state is AddingPanel
            && event is PanelAdded) && !(state is ChoosingAgent && event is Agent) && !(
        state is Dispatched && event is ThreadCreated) && !(state is Acknowledging
            && event is Acknowledged)) ==> departure_goes_on(state, event) == (
            state,
            DepartureActionView::Wait,
        ),
{
}

/// How many steps a departure can still take.
pub open spec fn steps_left(state: DepartureView) -> nat {
    match state {
        DepartureView::Asked { .. } => 8,
        DepartureView::FindingPanel { .. } => 7,
        DepartureView::LoadingPanel { .. } => 6,
        DepartureView::FindingPanelAgain { .. } => 5,
        DepartureView::AddingPanel { .. } => 4,
        DepartureView::ChoosingAgent { .. } => 3,
        DepartureView::Dispatched { .. } => 2,
        DepartureView::Acknowledging => 1,
        DepartureView::Finished => 0,
    }
}

/// A departure ends: every event either leaves it as it is, or brings it nearer to
/// its end.
pub proof fn every_step_leads_to_the_end(state: DepartureView, event: DepartureEvent)
    ensures
        departure_goes_on(state, event).1 is Wait ==> departure_goes_on(state, event).0 == state,
        !(departure_goes_on(state, event).1 is Wait) ==> steps_left(
            departure_goes_on(state, event).0,
        ) < steps_left(state),
{
}

/// What a document, a request of the runtime and the options of a thread hold is what
/// they say.
pub proof fn requests_say_what_they_hold(
    document: ActiveDocument,
    request: AnnotationDepartureRequest,
    options: CreateThreadOptions,
)
    ensures
        document@.path == document.path@,
        document@.editor == document.editor,
        document_view(Some(document)) == Some(document@),
        document_view(None) is None,
        request@.annotation_id == request.annotation_id@,
        request@.title == request.title@,
        request@.prompt == request.prompt@,
        options@.source == options.source,
        options@.title == owned_text(options.title),
        options@.blocks == options.blocks@,
        options@.auto_submit == options.auto_submit,
        options@.agent == owned_text(options.agent),
        options@.model == owned_text(options.model),
        options.work_dirs is None <==> options@.work_dirs is None,
        options.work_dirs matches Some(work_dirs) ==> options@.work_dirs == Some(
            texts(work_dirs@),
        ),
{
}

/// What a departure holds and asks for is what it says.
pub proof fn departures_say_what_they_hold(state: Departure, action: DepartureAction)
    ensures
        state matches Departure::Asked { configuration } ==> state@ == (DepartureView::Asked {
            configuration: configuration@,
        }),
        state matches Departure::FindingPanel { configuration, request } ==> state@ == (
        DepartureView::FindingPanel { configuration: configuration@, request: request@ }),
        state matches Departure::LoadingPanel { configuration, request } ==> state@ == (
        DepartureView::LoadingPanel { configuration: configuration@, request: request@ }),
        state matches Departure::FindingPanelAgain { configuration, request } ==> state@ == (
        DepartureView::FindingPanelAgain { configuration: configuration@, request: request@ }),
        state matches Departure::AddingPanel { configuration, request } ==> state@ == (
        DepartureView::AddingPanel { configuration: configuration@, request: request@ }),
        state matches Departure::ChoosingAgent { configuration, request } ==> state@ == (
        DepartureView::ChoosingAgent { configuration: configuration@, request: request@ }),
        state matches Departure::Dispatched { configuration, annotation_id } ==> state@ == (
        DepartureView::Dispatched {
            configuration: configuration@,
            annotation_id: annotation_id@,
        }),
        state is Acknowledging <==> state@ is Acknowledging,
        state is Finished <==> state@ is Finished,
        action matches DepartureAction::Run(command) ==> action@ == DepartureActionView::Run(
            command@,
        ),
        action matches DepartureAction::CreateThread(options) ==> action@
            == DepartureActionView::CreateThread(options@),
        action matches DepartureAction::Fail(message) ==> action@ == DepartureActionView::Fail(
            message@,
        ),
        action is FindPanel <==> action@ is FindPanel,
        action is LoadPanel <==> action@ is LoadPanel,
        action is AddPanel <==> action@ is AddPanel,
        action is ReadAgent <==> action@ is ReadAgent,
        action is Stop <==> action@ is Stop,
        action is Wait <==> action@ is Wait,
{
}

} // verus!
