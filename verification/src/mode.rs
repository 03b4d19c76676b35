//! Whether the workbench is in Altere mode, and what of the editor it then shows
//! and takes over.

use crate::hierarchy::IdSet;
use crate::text::{borrowed_text, is_text};
use vstd::prelude::*;
use vstd::string::*;

verus! {

/// Whether Altere mode is on.
#[derive(Clone, Copy, Debug, PartialEq, Eq, Structural)]
pub struct AltereMode {
    enabled: bool,
}

/// What the mode takes over in a workspace, in the order in which it does so.
#[derive(Clone, Copy, Debug, PartialEq, Eq, Structural)]
pub enum Registration {
    PriorityQueue,
    KnowledgeTree,
    ProposalReview,
    DocumentDepartures,
    GuidedAttention,
    MarkdownPreview,
    FocusNextRepetition,
    NextBuffer,
}

/// The texts of a sequence of borrowed strings.
pub open spec fn borrowed_texts(strings: Seq<&'static str>) -> Seq<Seq<char>> {
    strings.map_values(|s: &'static str| s@)
}

/// The namespaces of commands that the mode hides.
pub open spec fn hidden_namespaces(enabled: bool) -> Seq<Seq<char>> {
    if enabled {
        seq!["terminal_panel"@, "terminal"@]
    } else {
        seq![]
    }
}

/// What the mode takes over.
pub open spec fn registrations(enabled: bool) -> Seq<Registration> {
    if enabled {
        seq![
            Registration::PriorityQueue,
            Registration::KnowledgeTree,
            Registration::ProposalReview,
            Registration::DocumentDepartures,
            Registration::GuidedAttention,
            Registration::MarkdownPreview,
            Registration::FocusNextRepetition,
            Registration::NextBuffer,
        ]
    } else {
        seq![]
    }
}

impl AltereMode {
    /// Whether the mode is on.
    pub closed spec fn is_on(self) -> bool {
        self.enabled
    }

    /// Reads the mode from the setting `ALTERE_MODE`: it is on where that is `1`.
    pub fn from_value(value: Option<&str>) -> (mode: AltereMode)
        ensures
            mode.is_on() == (borrowed_text(value) == Some("1"@)),
    {
        AltereMode { enabled: is_text(value, "1") }
    }

    /// Whether the button for the next repetition shows.
    pub fn show_next_button(self) -> (shown: bool)
        ensures
            shown == self.is_on(),
    {
        self.enabled
    }

    /// Whether the debugger shows.
    pub fn show_debugger(self) -> (shown: bool)
        ensures
            shown == !self.is_on(),
    {
        !self.enabled
    }

    /// Whether the terminal shows.
    pub fn show_terminal(self) -> (shown: bool)
        ensures
            shown == !self.is_on(),
    {
        !self.enabled
    }

    /// Whether collaboration shows.
    pub fn show_collaboration(self) -> (shown: bool)
        ensures
            shown == !self.is_on(),
    {
        !self.enabled
    }

    /// Whether edit prediction shows.
    pub fn show_edit_prediction(self) -> (shown: bool)
        ensures
            shown == !self.is_on(),
    {
        !self.enabled
    }

    /// Whether a preview of Markdown is kept open.
    pub fn keep_markdown_preview_open(self) -> (kept: bool)
        ensures
            kept == self.is_on(),
    {
        self.enabled
    }

    /// The namespaces of commands that are hidden.
    pub fn hidden_command_namespaces(self) -> (namespaces: Vec<&'static str>)
        ensures
            borrowed_texts(namespaces@) == hidden_namespaces(self.is_on()),
    {
        let mut namespaces: Vec<&'static str> = Vec::new();
        if self.enabled {
            namespaces.push("terminal_panel");
            namespaces.push("terminal");
        }
        assert(borrowed_texts(namespaces@) =~= hidden_namespaces(self.is_on()));
        namespaces
    }

    /// Whether the priority queue shows.
    pub fn show_priority_queue(self) -> (shown: bool)
        ensures
            shown == self.is_on(),
    {
        self.enabled
    }

    /// Whether the knowledge tree shows.
    pub fn show_knowledge_tree(self) -> (shown: bool)
        ensures
            shown == self.is_on(),
    {
        self.enabled
    }
}

/// Lists what the mode takes over in a workspace.
pub fn register_actions(mode: AltereMode) -> (taken: Vec<Registration>)
    ensures
        taken@ == registrations(mode.is_on()),
{
    let mut taken: Vec<Registration> = Vec::new();
    if !mode.show_next_button() {
        return taken;
    }
    taken.push(Registration::PriorityQueue);
    taken.push(Registration::KnowledgeTree);
    taken.push(Registration::ProposalReview);
    taken.push(Registration::DocumentDepartures);
    taken.push(Registration::GuidedAttention);
    if mode.keep_markdown_preview_open() {
        taken.push(Registration::MarkdownPreview);
    }
    taken.push(Registration::FocusNextRepetition);
    taken.push(Registration::NextBuffer);
    assert(taken@ =~= registrations(true));
    taken
}

/// Hides the namespaces of commands that the mode hides, beside those that are
/// hidden already.
pub fn apply_capability_policy(mode: AltereMode, hidden: &mut IdSet)
    requires
        old(hidden).well_formed(),
    ensures
        final(hidden).well_formed(),
        final(hidden)@ == old(hidden)@.union(hidden_namespaces(mode.is_on()).to_set()),
{
    let namespaces = mode.hidden_command_namespaces();
    let ghost listed = borrowed_texts(namespaces@);
    let mut i: usize = 0;
    assert(hidden@ =~= old(hidden)@.union(listed.take(0).to_set()));
    while i < namespaces.len()
        invariant
            i <= namespaces.len(),
            listed == borrowed_texts(namespaces@),
            hidden.well_formed(),
            hidden@ == old(hidden)@.union(listed.take(i as int).to_set()),
        decreases namespaces.len() - i,
    {
        hidden.insert(namespaces[i].to_string());
        proof {
            let more = listed.take(i + 1);
            assert(more =~= listed.take(i as int).push(listed[i as int]));
            assert forall|text: Seq<char>|
                more.to_set().contains(text) == listed.take(i as int).to_set().insert(
                    listed[i as int],
                ).contains(text) by {
                if listed.take(i as int).contains(text) {
                    let j = choose|j: int| 0 <= j < i && listed.take(i as int)[j] == text;
                    assert(more[j] == text);
                }
                assert(more[i as int] == listed[i as int]);
            }
            assert(hidden@ =~= old(hidden)@.union(more.to_set()));
        }
        i += 1;
    }
    assert(listed.take(listed.len() as int) =~= listed);
}

/// Every setting but `1` leaves the editor as it is: nothing is taken over and
/// nothing is hidden.
pub proof fn other_settings_leave_the_editor_alone(mode: AltereMode)
    requires
        !mode.is_on(),
    ensures
        registrations(mode.is_on()).len() == 0,
        hidden_namespaces(mode.is_on()).len() == 0,
{
}

/// The mode that is on takes every part over once, and hides the terminal and its panel
/// and nothing else.
pub proof fn mode_takes_every_part_over(part: Registration, namespace: Seq<char>)
    ensures
        registrations(true).contains(part),
        registrations(true).no_duplicates(),
        hidden_namespaces(true).contains(namespace) <==> namespace == "terminal_panel"@
            || namespace == "terminal"@,
{
    let taken = registrations(true);
    assert(taken[0] is PriorityQueue && taken[1] is KnowledgeTree && taken[2] is ProposalReview);
    assert(taken[3] is DocumentDepartures && taken[4] is GuidedAttention);
    assert(taken[5] is MarkdownPreview && taken[6] is FocusNextRepetition);
    assert(taken[7] is NextBuffer);
    assert(hidden_namespaces(true)[0] == "terminal_panel"@);
    assert(hidden_namespaces(true)[1] == "terminal"@);
}

/// The texts of borrowed strings are those that they hold, each in its place.
pub proof fn borrowed_texts_are_the_strings(strings: Seq<&'static str>, i: int)
    requires
        0 <= i < strings.len(),
    ensures
        borrowed_texts(strings).len() == strings.len(),
        borrowed_texts(strings)[i] == strings[i]@,
{
}

} // verus!
