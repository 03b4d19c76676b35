//! Proposals under review: which views review which proposal, and what keeping or
//! rejecting one takes.

use crate::button::{button_views, plain_button, Button, ButtonView};
use crate::invocation::{proposal_resolution_arguments, proposal_resolution_invocation};
use crate::keys::Action;
use crate::paths::{join, joined};
use crate::runtime::{
    configuration_view, failed, failure_of, interpret, interpreted, lacking_text, Command,
    CommandOutput, CommandView, ConfigurationError, RuntimeConfiguration, RuntimeView,
};
use crate::text::{text_of_bytes, trimmed};
use std::collections::HashMap;
use vstd::prelude::*;
use vstd::string::*;

verus! {

broadcast use vstd::std_specs::hash::group_hash_axioms;

/// A proposal as the runtime projects it: a source, and the text that is proposed
/// in place of its text.
pub struct DetachedProposalProjection {
    pub proposal_id: String,
    pub source: DetachedProposalSource,
    pub hunk: DetachedProposalHunk,
}

/// The source that a proposal is about, by its path in the collection.
pub struct DetachedProposalSource {
    pub path: String,
}

/// What a proposal changes.
pub struct DetachedProposalHunk {
    pub original_text: String,
    pub proposed_text: String,
}

/// What a proposal says.
pub struct ProposalView {
    pub proposal_id: Seq<char>,
    pub source_path: Seq<char>,
    pub original_text: Seq<char>,
    pub proposed_text: Seq<char>,
}

impl View for DetachedProposalProjection {
    type V = ProposalView;

    open spec fn view(&self) -> ProposalView {
        ProposalView {
            proposal_id: self.proposal_id@,
            source_path: self.source.path@,
            original_text: self.hunk.original_text@,
            proposed_text: self.hunk.proposed_text@,
        }
    }
}

/// The proposal that a view reviews.
pub struct ProposalReviewReference {
    pub proposal_id: String,
    pub source_path: String,
}

/// What a reference says.
pub struct ReferenceView {
    pub proposal_id: Seq<char>,
    pub source_path: Seq<char>,
}

impl View for ProposalReviewReference {
    type V = ReferenceView;

    open spec fn view(&self) -> ReferenceView {
        ReferenceView { proposal_id: self.proposal_id@, source_path: self.source_path@ }
    }
}

impl Clone for ProposalReviewReference {
    fn clone(&self) -> (copy: Self)
        ensures
            copy@ == self@,
    {
        ProposalReviewReference {
            proposal_id: self.proposal_id.clone(),
            source_path: self.source_path.clone(),
        }
    }
}

/// What an optional reference says.
pub open spec fn reference_view(reference: Option<ProposalReviewReference>) -> Option<
    ReferenceView,
> {
    match reference {
        Some(reference) => Some(reference@),
        None => None,
    }
}

/// The views under review, each with its proposal.
pub struct ProposalReviewRegistry {
    reviews: HashMap<u64, ProposalReviewReference>,
}

impl View for ProposalReviewRegistry {
    type V = Map<u64, ReferenceView>;

    closed spec fn view(&self) -> Map<u64, ReferenceView> {
        self.reviews@.map_values(|reference: ProposalReviewReference| reference@)
    }
}

/// The proposal that the active item reviews, where it is a review at all.
pub open spec fn reviewed(registry: Map<u64, ReferenceView>, active: Option<u64>) -> Option<
    ReferenceView,
> {
    match active {
        Some(view) => if registry.dom().contains(view) {
            Some(registry[view])
        } else {
            None
        },
        None => None,
    }
}

impl ProposalReviewRegistry {
    /// A registry without reviews.
    pub fn new() -> (registry: ProposalReviewRegistry)
        ensures
            registry@ == Map::<u64, ReferenceView>::empty(),
    {
        let registry = ProposalReviewRegistry { reviews: HashMap::new() };
        assert(registry@ =~= Map::<u64, ReferenceView>::empty());
        registry
    }

    /// The proposal that a view reviews, where it is the active item and a
    /// comparison of texts.
    pub fn find(&self, active: Option<u64>) -> (reference: Option<ProposalReviewReference>)
        ensures
            reference_view(reference) == reviewed(self@, active),
    {
        match active {
            Some(view) => match self.reviews.get(&view) {
                Some(reference) => Some(reference.clone()),
                None => None,
            },
            None => None,
        }
    }

    fn insert(&mut self, view: u64, reference: ProposalReviewReference)
        ensures
            final(self)@ == old(self)@.insert(view, reference@),
    {
        self.reviews.insert(view, reference);
        assert(self@ =~= old(self)@.insert(view, reference@));
    }

    /// Forgets a review.
    pub fn remove(&mut self, view: u64)
        ensures
            final(self)@ == old(self)@.remove(view),
    {
        self.reviews.remove(&view);
        assert(self@ =~= old(self)@.remove(view));
    }

    /// Whether the active item, a comparison of texts, reviews a proposal.
    pub fn is_proposal_review(&self, active: Option<u64>) -> (under_review: bool)
        ensures
            under_review == (reviewed(self@, active) is Some),
    {
        self.find(active).is_some()
    }
}

/// What is shown to review a proposal: two detached texts under a title, and the
/// proposal to remember.
pub struct ReviewPlan {
    pub reference: ProposalReviewReference,
    pub title: String,
    pub original_text: String,
    pub proposed_text: String,
}

/// The title of a review.
pub open spec fn review_title(proposal: ProposalView) -> Seq<char> {
    "Proposal "@ + proposal.proposal_id + " · "@ + proposal.source_path
}

/// Prepares the review of a proposal.
pub fn open_detached_proposal_review(projection: DetachedProposalProjection) -> (plan: ReviewPlan)
    ensures
        plan.reference@ == (ReferenceView {
            proposal_id: projection@.proposal_id,
            source_path: projection@.source_path,
        }),
        plan.title@ == review_title(projection@),
        plan.original_text@ == projection@.original_text,
        plan.proposed_text@ == projection@.proposed_text,
{
    let mut title = "Proposal ".to_string();
    title.append(projection.proposal_id.as_str());
    title.append(" · ");
    title.append(projection.source.path.as_str());
    ReviewPlan {
        reference: ProposalReviewReference {
            proposal_id: projection.proposal_id,
            source_path: projection.source.path,
        },
        title,
        original_text: projection.hunk.original_text,
        proposed_text: projection.hunk.proposed_text,
    }
}

/// What follows once a review has opened: the button for the next repetition
/// offers to keep or reject, and the toolbar shows where the review is active.
pub struct ReviewOpened {
    pub reviewing: bool,
    pub toolbar: Option<ProposalReviewReference>,
}

/// Remembers a review that has opened.
pub fn review_opened(
    registry: &mut ProposalReviewRegistry,
    view: u64,
    reference: ProposalReviewReference,
    active: Option<u64>,
) -> (opened: ReviewOpened)
    ensures
        final(registry)@ == old(registry)@.insert(view, reference@),
        opened.reviewing,
        reference_view(opened.toolbar) == if active == Some(view) {
            Some(reference@)
        } else {
            None
        },
{
    let toolbar = match active {
        Some(active) => if active == view {
            Some(reference.clone())
        } else {
            None
        },
        None => None,
    };
    registry.insert(view, reference);
    ReviewOpened { reviewing: true, toolbar }
}

/// Forgets a review that is to be closed; the button for the next repetition then
/// offers that again.
pub fn review_closed(registry: &mut ProposalReviewRegistry, view: u64) -> (reviewing: bool)
    ensures
        final(registry)@ == old(registry)@.remove(view),
        !reviewing,
{
    registry.remove(view);
    false
}

/// What becomes of a proposal.
#[derive(Clone, Copy, Debug, PartialEq, Eq, Structural)]
pub enum Outcome {
    Keep,
    Reject,
}

/// The runtime's word for an outcome.
pub open spec fn outcome_word(outcome: Outcome) -> Seq<char> {
    match outcome {
        Outcome::Keep => "keep"@,
        Outcome::Reject => "reject"@,
    }
}

impl Outcome {
    /// The runtime's word for the outcome.
    pub fn word(self) -> (word: &'static str)
        ensures
            word@ == outcome_word(self),
    {
        match self {
            Outcome::Keep => "keep",
            Outcome::Reject => "reject",
        }
    }
}

/// The title under which a failure to resolve a proposal is reported.
pub const RESOLUTION_FAILURE_TITLE: &'static str = "Altere could not resolve the proposal";

/// A resolution in progress: the runtime is asked, then the review is closed, then
/// the source is opened.
pub enum Resolution {
    Asked { collection: String, view: u64, reference: ProposalReviewReference, outcome: Outcome },
    Closing { source: String },
    Opening,
    Finished,
}

/// What a resolution in progress says.
pub enum ResolutionView {
    Asked { collection: Seq<char>, view: u64, reference: ReferenceView, outcome: Outcome },
    Closing { source: Seq<char> },
    Opening,
    Finished,
}

impl View for Resolution {
    type V = ResolutionView;

    open spec fn view(&self) -> ResolutionView {
        match self {
            Resolution::Asked { collection, view, reference, outcome } => ResolutionView::Asked {
                collection: collection@,
                view: *view,
                reference: reference@,
                outcome: *outcome,
            },
            Resolution::Closing { source } => ResolutionView::Closing { source: source@ },
            Resolution::Opening => ResolutionView::Opening,
            Resolution::Finished => ResolutionView::Finished,
        }
    }
}

/// What happened to a resolution in progress.
pub enum ResolutionEvent {
    Answered(CommandOutput),
    Closed,
    Opened,
    Failed(String),
}

/// What a resolution asks for next. To close a review is to take it for closed, as
/// `review_closed` does, and to remove the view from its pane.
pub enum ResolutionAction {
    Run(Command),
    CloseReview(u64),
    Open(String),
    Fail(String),
    Stop,
    Wait,
}

/// What a request says.
pub enum ResolutionActionView {
    Run(CommandView),
    CloseReview(u64),
    Open(Seq<char>),
    Fail(Seq<char>),
    Stop,
    Wait,
}

impl View for ResolutionAction {
    type V = ResolutionActionView;

    open spec fn view(&self) -> ResolutionActionView {
        match self {
            ResolutionAction::Run(command) => ResolutionActionView::Run(command@),
            ResolutionAction::CloseReview(view) => ResolutionActionView::CloseReview(*view),
            ResolutionAction::Open(path) => ResolutionActionView::Open(path@),
            ResolutionAction::Fail(message) => ResolutionActionView::Fail(message@),
            ResolutionAction::Stop => ResolutionActionView::Stop,
            ResolutionAction::Wait => ResolutionActionView::Wait,
        }
    }
}

/// How a resolution begins: with nothing, where the active item reviews no
/// proposal; else by asking the runtime.
pub open spec fn resolution_begins(
    outcome: Outcome,
    active: Option<u64>,
    registry: Map<u64, ReferenceView>,
    configuration: Result<RuntimeView, ConfigurationError>,
) -> (ResolutionView, ResolutionActionView) {
    match (reviewed(registry, active), configuration) {
        (None, _) => (ResolutionView::Finished, ResolutionActionView::Stop),
        (Some(_), Err(error)) => (
            ResolutionView::Finished,
            ResolutionActionView::Fail(lacking_text(error)),
        ),
        (Some(reference), Ok(configuration)) => (
            ResolutionView::Asked {
                collection: configuration.collection,
                view: active->0,
                reference,
                outcome,
            },
            ResolutionActionView::Run(
                interpreted(
                    configuration.bun,
                    proposal_resolution_arguments(
                        configuration.runtime,
                        configuration.collection,
                        reference.proposal_id,
                        outcome_word(outcome),
                    ),
                ),
            ),
        ),
    }
}

/// Begins to keep or reject the proposal that the active item reviews.
pub fn resolve_active_proposal(
    outcome: Outcome,
    active: Option<u64>,
    registry: &ProposalReviewRegistry,
    configuration: Result<RuntimeConfiguration, ConfigurationError>,
) -> (begun: (Resolution, ResolutionAction))
    ensures
        (begun.0@, begun.1@) == resolution_begins(
            outcome,
            active,
            registry@,
            configuration_view(configuration),
        ),
{
    let reference = match registry.find(active) {
        Some(reference) => reference,
        None => return (Resolution::Finished, ResolutionAction::Stop),
    };
    let view = match active {
        Some(view) => view,
        None => return (Resolution::Finished, ResolutionAction::Stop),
    };
    let configuration = match configuration {
        Ok(configuration) => configuration,
        Err(error) => return (Resolution::Finished, ResolutionAction::Fail(error.message())),
    };
    let command = interpret(
        &configuration,
        proposal_resolution_invocation(
            configuration.runtime.as_str(),
            configuration.collection.as_str(),
            reference.proposal_id.as_str(),
            outcome.word(),
        ).as_slice(),
    );
    (
        Resolution::Asked { collection: configuration.collection, view, reference, outcome },
        ResolutionAction::Run(command),
    )
}

/// What could not be done where the runtime refuses an outcome.
pub open spec fn refusal_prefix(outcome: Outcome, reference: ReferenceView) -> Seq<char> {
    "Altere could not "@ + outcome_word(outcome) + " proposal "@ + reference.proposal_id
}

/// How a resolution goes on. Events that the state does not wait for change
/// nothing.
pub open spec fn resolution_goes_on(state: ResolutionView, event: ResolutionEvent) -> (
    ResolutionView,
    ResolutionActionView,
) {
    match (state, event) {
        (ResolutionView::Finished, _) => (state, ResolutionActionView::Wait),
        (_, ResolutionEvent::Failed(message)) => (
            ResolutionView::Finished,
            ResolutionActionView::Fail(message@),
        ),
        (
            ResolutionView::Asked { collection, view, reference, outcome },
            ResolutionEvent::Answered(output),
        ) => match failed(output, refusal_prefix(outcome, reference)) {
            Some(message) => (ResolutionView::Finished, ResolutionActionView::Fail(message)),
            None => (
                ResolutionView::Closing { source: joined(collection, reference.source_path) },
                ResolutionActionView::CloseReview(view),
            ),
        },
        (ResolutionView::Closing { source }, ResolutionEvent::Closed) => (
            ResolutionView::Opening,
            ResolutionActionView::Open(source),
        ),
        (ResolutionView::Opening, ResolutionEvent::Opened) => (
            ResolutionView::Finished,
            ResolutionActionView::Stop,
        ),
        _ => (state, ResolutionActionView::Wait),
    }
}

impl Resolution {
    /// Goes on after an event.
    pub fn step(self, event: ResolutionEvent) -> (next: (Resolution, ResolutionAction))
        ensures
            (next.0@, next.1@) == resolution_goes_on(self@, event),
    {
        match (self, event) {
            (Resolution::Finished, _) => (Resolution::Finished, ResolutionAction::Wait),
            (_, ResolutionEvent::Failed(message)) => (
                Resolution::Finished,
                ResolutionAction::Fail(message),
            ),
            (
                Resolution::Asked { collection, view, reference, outcome },
                ResolutionEvent::Answered(output),
            ) => {
                let mut prefix = "Altere could not ".to_string();
                prefix.append(outcome.word());
                prefix.append(" proposal ");
                prefix.append(reference.proposal_id.as_str());
                match failure_of(&output, prefix.as_str()) {
                    Some(message) => (Resolution::Finished, ResolutionAction::Fail(message)),
                    None => (
                        Resolution::Closing {
                            source: join(collection.as_str(), reference.source_path.as_str()),
                        },
                        ResolutionAction::CloseReview(view),
                    ),
                }
            },
            (Resolution::Closing { source }, ResolutionEvent::Closed) => (
                Resolution::Opening,
                ResolutionAction::Open(source),
            ),
            (Resolution::Opening, ResolutionEvent::Opened) => (
                Resolution::Finished,
                ResolutionAction::Stop,
            ),
            (state, _) => (state, ResolutionAction::Wait),
        }
    }
}

/// Where a toolbar item shows.
#[derive(Clone, Copy, Debug, PartialEq, Eq, Structural)]
pub enum ToolbarItemLocation {
    Hidden,
    PrimaryRight,
}

/// The toolbar that offers to keep or reject the proposal under review.
pub struct AltereProposalReviewToolbar {
    active: Option<ProposalReviewReference>,
}

impl View for AltereProposalReviewToolbar {
    type V = Option<ReferenceView>;

    closed spec fn view(&self) -> Option<ReferenceView> {
        reference_view(self.active)
    }
}

/// The buttons of the toolbar.
pub open spec fn toolbar_buttons() -> Seq<ButtonView> {
    seq![
        plain_button("altere-reject-proposal"@, "Reject"@, Action::RejectProposal),
        ButtonView {
            accented: true,
            ..plain_button("altere-keep-proposal"@, "Keep"@, Action::KeepProposal)
        },
    ]
}

impl AltereProposalReviewToolbar {
    /// A toolbar without a proposal.
    pub fn new() -> (toolbar: AltereProposalReviewToolbar)
        ensures
            toolbar@ is None,
    {
        AltereProposalReviewToolbar { active: None }
    }

    /// Follows the active item: shows where it reviews a proposal.
    pub fn set_active_pane_item(
        &mut self,
        active: Option<u64>,
        registry: &ProposalReviewRegistry,
    ) -> (location: ToolbarItemLocation)
        ensures
            final(self)@ == reviewed(registry@, active),
            location == if reviewed(registry@, active) is Some {
                ToolbarItemLocation::PrimaryRight
            } else {
                ToolbarItemLocation::Hidden
            },
    {
        self.active = registry.find(active);
        if self.active.is_some() {
            ToolbarItemLocation::PrimaryRight
        } else {
            ToolbarItemLocation::Hidden
        }
    }

    /// Shows a proposal whose review has just opened.
    pub fn show(&mut self, reference: ProposalReviewReference) -> (location: ToolbarItemLocation)
        ensures
            final(self)@ == Some(reference@),
            location == ToolbarItemLocation::PrimaryRight,
    {
        self.active = Some(reference);
        ToolbarItemLocation::PrimaryRight
    }

    /// The proposal that the toolbar is for.
    pub fn active(&self) -> (reference: Option<ProposalReviewReference>)
        ensures
            reference_view(reference) == self@,
    {
        match &self.active {
            Some(reference) => Some(reference.clone()),
            None => None,
        }
    }

    /// Shows the toolbar.
    pub fn render(&self) -> (buttons: [Button; 2])
        ensures
            button_views(buttons@) == toolbar_buttons(),
    {
        let reject = Button::plain("altere-reject-proposal", "Reject", Action::RejectProposal);
        let keep = Button::plain("altere-keep-proposal", "Keep", Action::KeepProposal);
        let buttons = [reject, Button { accented: true, ..keep }];
        assert(button_views(buttons@) =~= toolbar_buttons());
        buttons
    }
}

/// A review that has opened is found again by its view, and no other review is
/// touched.
pub proof fn opened_review_is_found(
    registry: Map<u64, ReferenceView>,
    view: u64,
    reference: ReferenceView,
    other: u64,
)
    ensures
        reviewed(registry.insert(view, reference), Some(view)) == Some(reference),
        other != view ==> reviewed(registry.insert(view, reference), Some(other)) == reviewed(
            registry,
            Some(other),
        ),
{
}

/// A review that was closed is under review no more.
pub proof fn closed_review_is_forgotten(registry: Map<u64, ReferenceView>, view: u64)
    ensures
        reviewed(registry.remove(view), Some(view)) is None,
{
}

/// A proposal that the runtime refuses to resolve stays under review: nothing is
/// closed and nothing is opened.
pub proof fn refused_resolution_closes_nothing(state: ResolutionView, output: CommandOutput)
    requires
        state is Asked,
        !output.success,
    ensures
        resolution_goes_on(state, ResolutionEvent::Answered(output)).0 is Finished,
        resolution_goes_on(state, ResolutionEvent::Answered(output)).1 is Fail,
{
}

/// A resolution asks the runtime once, and only then closes the review and opens
/// its source: no later step runs a command.
pub proof fn resolution_runs_one_command(state: ResolutionView, event: ResolutionEvent)
    ensures
        !(resolution_goes_on(state, event).1 is Run),
        resolution_goes_on(state, event).1 is CloseReview ==> (state is Asked && event is Answered
            && event->Answered_0.success),
        resolution_goes_on(state, event).1 is Open ==> state is Closing,
{
}

/// The command with which a resolution begins asks the configured interpreter to keep
/// or to reject, as the outcome is, the proposal that the active view reviews, and what
/// was asked is remembered.
pub proof fn resolutions_ask_for_their_outcome(
    outcome: Outcome,
    view: u64,
    registry: Map<u64, ReferenceView>,
    configuration: RuntimeView,
)
    requires
        registry.dom().contains(view),
    ensures
        ({
            let begun = resolution_begins(outcome, Some(view), registry, Ok(configuration));
            &&& begun.0 == (ResolutionView::Asked {
                collection: configuration.collection,
                view,
                reference: registry[view],
                outcome,
            })
            &&& begun.1 == ResolutionActionView::Run(
                CommandView {
                    program: configuration.bun,
                    arguments: seq![
                        configuration.runtime,
                        "proposal"@,
                        if outcome is Reject {
                            "reject"@
                        } else {
                            "keep"@
                        },
                        "--collection"@,
                        configuration.collection,
                        "--proposal-id"@,
                        registry[view].proposal_id,
                    ],
                    input: None,
                },
            )
        }),
{
}

/// To keep and to reject are different commands: the third argument is `keep` for the
/// one and `reject` for the other, and every other argument is the same.
pub proof fn keeping_is_not_rejecting(
    view: u64,
    registry: Map<u64, ReferenceView>,
    configuration: RuntimeView,
)
    requires
        registry.dom().contains(view),
    ensures
        ({
            let keep = resolution_begins(Outcome::Keep, Some(view), registry, Ok(configuration));
            let reject = resolution_begins(
                Outcome::Reject,
                Some(view),
                registry,
                Ok(configuration),
            );
            &&& keep.1 matches ResolutionActionView::Run(kept)
            &&& reject.1 matches ResolutionActionView::Run(rejected)
            &&& kept.arguments[2] == "keep"@
            &&& rejected.arguments[2] == "reject"@
            &&& kept.arguments[2] != rejected.arguments[2]
            &&& kept != rejected
            &&& kept.arguments.len() == rejected.arguments.len() == 7
            &&& forall|i: int|
                0 <= i < 7 && i != 2 ==> #[trigger] kept.arguments[i] == rejected.arguments[i]
        }),
{
    reveal_strlit("keep");
    reveal_strlit("reject");
    assert("keep"@.len() == 4 && "reject"@.len() == 6);
}

/// Nothing is resolved where the active item reviews no proposal, whatever the outcome;
/// where one is reviewed but the runtime is not configured, it is said what is lacking.
pub proof fn only_reviews_are_resolved(
    outcome: Outcome,
    active: Option<u64>,
    registry: Map<u64, ReferenceView>,
    configuration: Result<RuntimeView, ConfigurationError>,
)
    ensures
        active is None || !registry.dom().contains(active->0) ==> resolution_begins(
            outcome,
            active,
            registry,
            configuration,
        ) == (ResolutionView::Finished, ResolutionActionView::Stop),
        active is Some && registry.dom().contains(active->0) && configuration is Err
            ==> resolution_begins(outcome, active, registry, configuration) == (
            ResolutionView::Finished,
            ResolutionActionView::Fail(lacking_text(configuration->Err_0)),
        ),
{
}

/// A view reviews the proposal that the registry holds for it, and no view reviews one
/// that the registry does not hold.
pub proof fn reviews_are_the_registered_ones(
    registry: Map<u64, ReferenceView>,
    active: Option<u64>,
)
    ensures
        reviewed(registry, active) is Some <==> active is Some && registry.dom().contains(
            active->0,
        ),
        reviewed(registry, active) is Some ==> reviewed(registry, active)->0 == registry[active->0],
{
}

/// A resolution that the runtime took closes the view that was reviewed and no other,
/// then opens the source of that proposal in the collection, and then ends.
pub proof fn taken_resolution_closes_and_opens(
    collection: Seq<char>,
    view: u64,
    reference: ReferenceView,
    outcome: Outcome,
    output: CommandOutput,
)
    requires
        output.success,
    ensures
        ({
            let asked = ResolutionView::Asked { collection, view, reference, outcome };
            let answered = resolution_goes_on(asked, ResolutionEvent::Answered(output));
            let closed = resolution_goes_on(answered.0, ResolutionEvent::Closed);
            let opened = resolution_goes_on(closed.0, ResolutionEvent::Opened);
            &&& answered.1 == ResolutionActionView::CloseReview(view)
            &&& closed.1 == ResolutionActionView::Open(joined(collection, reference.source_path))
            &&& opened == (ResolutionView::Finished, ResolutionActionView::Stop)
        }),
{
}

/// A refusal says which outcome was refused for which proposal, and what the runtime
/// wrote.
pub proof fn refusals_name_the_outcome(
    collection: Seq<char>,
    view: u64,
    reference: ReferenceView,
    outcome: Outcome,
    output: CommandOutput,
)
    requires
        !output.success,
    ensures
        resolution_goes_on(
            ResolutionView::Asked { collection, view, reference, outcome },
            ResolutionEvent::Answered(output),
        ) == (
            ResolutionView::Finished,
            ResolutionActionView::Fail(
                "Altere could not "@ + (if outcome is Reject {
                    "reject"@
                } else {
                    "keep"@
                }) + " proposal "@ + reference.proposal_id + ": "@ + trimmed(
                    text_of_bytes(output.stderr@),
                ),
            ),
        ),
{
}

/// A failure ends a resolution that is in progress, with its reason; and what the
/// resolution does not wait for leaves it as it is.
pub proof fn resolutions_heed_only_what_they_wait_for(
    state: ResolutionView,
    event: ResolutionEvent,
)
    ensures
        !(state is Finished) && event is Failed ==> resolution_goes_on(state, event) == (
            ResolutionView::Finished,
            ResolutionActionView::Fail(event->Failed_0@),
        ),
        state is Finished || (!(event is Failed) && !(state is Asked && event is Answered) && !(
        state is Closing && event is Closed) && !(state is Opening && event is Opened))
            ==> resolution_goes_on(state, event) == (state, ResolutionActionView::Wait),
{
}

/// The title of a review names its proposal and then its source.
pub proof fn titles_name_proposal_and_source(proposal: ProposalView)
    ensures
        review_title(proposal) == "Proposal "@ + proposal.proposal_id + " · "@
            + proposal.source_path,
{
}

/// The toolbar rejects first and keeps second; only the button that keeps stands out.
pub proof fn toolbar_rejects_and_keeps()
    ensures
        toolbar_buttons().len() == 2,
        toolbar_buttons()[0].action == Action::RejectProposal,
        toolbar_buttons()[0].label == "Reject"@,
        !toolbar_buttons()[0].accented,
        toolbar_buttons()[1].action == Action::KeepProposal,
        toolbar_buttons()[1].label == "Keep"@,
        toolbar_buttons()[1].accented,
        forall|i: int|
            0 <= i < 2 ==> (#[trigger] toolbar_buttons()[i]).width is None
                && !toolbar_buttons()[i].tracks_focus && !toolbar_buttons()[i].toggled
                && !toolbar_buttons()[i].shows_keys,
{
}

/// A proposal says what its parts hold, and so does a reference.
pub proof fn proposals_say_what_they_hold(
    proposal: DetachedProposalProjection,
    reference: ProposalReviewReference,
)
    ensures
        proposal@.proposal_id == proposal.proposal_id@,
        proposal@.source_path == proposal.source.path@,
        proposal@.original_text == proposal.hunk.original_text@,
        proposal@.proposed_text == proposal.hunk.proposed_text@,
        reference@.proposal_id == reference.proposal_id@,
        reference@.source_path == reference.source_path@,
        reference_view(Some(reference)) == Some(reference@),
        reference_view(None) is None,
{
}

/// How many steps a resolution can still take.
pub open spec fn steps_left(state: ResolutionView) -> nat {
    match state {
        ResolutionView::Asked { .. } => 3,
        ResolutionView::Closing { .. } => 2,
        ResolutionView::Opening => 1,
        ResolutionView::Finished => 0,
    }
}

/// A resolution ends: every event either leaves it as it is, or brings it nearer to
/// its end.
pub proof fn every_step_leads_to_the_end(state: ResolutionView, event: ResolutionEvent)
    ensures
        resolution_goes_on(state, event).1 is Wait ==> resolution_goes_on(state, event).0 == state,
        !(resolution_goes_on(state, event).1 is Wait) ==> steps_left(
            resolution_goes_on(state, event).0,
        ) < steps_left(state),
{
}

/// What a resolution holds and asks for is what it says.
pub proof fn resolutions_say_what_they_hold(state: Resolution, action: ResolutionAction)
    ensures
        state matches Resolution::Asked { collection, view, reference, outcome } ==> state@ == (
        ResolutionView::Asked {
            collection: collection@,
            view,
            reference: reference@,
            outcome,
        }),
        state matches Resolution::Closing { source } ==> state@ == (ResolutionView::Closing {
            source: source@,
        }),
        state is Opening <==> state@ is Opening,
        state is Finished <==> state@ is Finished,
        action matches ResolutionAction::Run(command) ==> action@ == ResolutionActionView::Run(
            command@,
        ),
        action matches ResolutionAction::CloseReview(view) ==> action@
            == ResolutionActionView::CloseReview(view),
        action matches ResolutionAction::Open(path) ==> action@ == ResolutionActionView::Open(
            path@,
        ),
        action matches ResolutionAction::Fail(message) ==> action@ == ResolutionActionView::Fail(
            message@,
        ),
        action is Stop <==> action@ is Stop,
        action is Wait <==> action@ is Wait,
{
}

} // verus!
