//! The actions of the workbench, and the keys that they are bound to.

use crate::knowledge_tree;
use crate::mode::AltereMode;
use crate::priority_queue;
use vstd::prelude::*;
use vstd::string::*;

verus! {

/// What a key or a button does.
#[derive(Clone, Copy, Debug, PartialEq, Eq, Structural)]
pub enum Action {
    UnbindTerminalToggle,
    FocusNextRepetition,
    NextBuffer,
    KeepProposal,
    RejectProposal,
    ToggleMarkdownPreviewTracking,
    ToggleQueueFocus,
    ToggleTreeFocus,
    SelectNext,
    SelectPrevious,
    SelectFirst,
    SelectLast,
    ScrollUp,
    ScrollDown,
    OpenQueueItem,
    MoreImportant,
    LessImportant,
    CollapseSelected,
    ExpandSelected,
    OpenTreeItem,
}

/// The editor's own action that is unbound.
pub const TERMINAL_TOGGLE: &'static str = "terminal_panel::Toggle";

/// Keys that do something, in a context or everywhere.
pub struct KeyBinding {
    pub keys: String,
    pub action: Action,
    pub context: Option<String>,
}

/// What a key binding says.
pub struct BindingView {
    pub keys: Seq<char>,
    pub action: Action,
    pub context: Option<Seq<char>>,
}

impl View for KeyBinding {
    type V = BindingView;

    open spec fn view(&self) -> BindingView {
        BindingView {
            keys: self.keys@,
            action: self.action,
            context: crate::text::owned_text(self.context),
        }
    }
}

/// What a sequence of key bindings says.
pub open spec fn binding_views(bindings: Seq<KeyBinding>) -> Seq<BindingView> {
    bindings.map_values(|binding: KeyBinding| binding@)
}

/// Keys bound in a context.
pub open spec fn within(keys: Seq<char>, action: Action, context: Seq<char>) -> BindingView {
    BindingView { keys, action, context: Some(context) }
}

/// The keys of the workbench itself.
pub open spec fn workbench_bindings() -> Seq<BindingView> {
    seq![
        BindingView { keys: "ctrl-`"@, action: Action::UnbindTerminalToggle, context: None },
        within(
            "escape"@,
            Action::FocusNextRepetition,
            "Editor && vim_mode == normal && !menu"@,
        ),
        within("escape"@, Action::FocusNextRepetition, "Workspace && !Editor && !menu"@),
        within("enter"@, Action::NextBuffer, "AltereNextRepetition"@),
    ]
}

/// The keys of the priority queue.
pub open spec fn queue_bindings() -> Seq<BindingView> {
    let context = priority_queue::rendering::KEY_CONTEXT@;
    seq![
        within("j"@, Action::SelectNext, context),
        within("down"@, Action::SelectNext, context),
        within("k"@, Action::SelectPrevious, context),
        within("up"@, Action::SelectPrevious, context),
        within("g g"@, Action::SelectFirst, context),
        within("shift-g"@, Action::SelectLast, context),
        within("ctrl-u"@, Action::ScrollUp, context),
        within("ctrl-d"@, Action::ScrollDown, context),
        within("enter"@, Action::OpenQueueItem, context),
        within("="@, Action::MoreImportant, context),
        within("shift-="@, Action::MoreImportant, context),
        within("-"@, Action::LessImportant, context),
    ]
}

/// The keys of the knowledge tree.
pub open spec fn tree_bindings() -> Seq<BindingView> {
    let context = knowledge_tree::rendering::KEY_CONTEXT@;
    seq![
        within("j"@, Action::SelectNext, context),
        within("down"@, Action::SelectNext, context),
        within("k"@, Action::SelectPrevious, context),
        within("up"@, Action::SelectPrevious, context),
        within("g g"@, Action::SelectFirst, context),
        within("shift-g"@, Action::SelectLast, context),
        within("h"@, Action::CollapseSelected, context),
        within("left"@, Action::CollapseSelected, context),
        within("l"@, Action::ExpandSelected, context),
        within("right"@, Action::ExpandSelected, context),
        within("enter"@, Action::OpenTreeItem, context),
    ]
}

fn bind(bindings: &mut Vec<KeyBinding>, keys: &str, action: Action, context: &str)
    ensures
        binding_views(final(bindings)@) == binding_views(old(bindings)@).push(
            within(keys@, action, context@),
        ),
{
    bindings.push(
        KeyBinding { keys: keys.to_string(), action, context: Some(context.to_string()) },
    );
    assert(binding_views(bindings@) =~= binding_views(old(bindings)@).push(
        within(keys@, action, context@),
    ));
}

/// Binds the keys of the priority queue.
pub fn bind_queue_keys(bindings: &mut Vec<KeyBinding>)
    ensures
        binding_views(final(bindings)@) == binding_views(old(bindings)@) + queue_bindings(),
{
    let context = priority_queue::rendering::KEY_CONTEXT;
    bind(bindings, "j", Action::SelectNext, context);
    bind(bindings, "down", Action::SelectNext, context);
    bind(bindings, "k", Action::SelectPrevious, context);
    bind(bindings, "up", Action::SelectPrevious, context);
    bind(bindings, "g g", Action::SelectFirst, context);
    bind(bindings, "shift-g", Action::SelectLast, context);
    bind(bindings, "ctrl-u", Action::ScrollUp, context);
    bind(bindings, "ctrl-d", Action::ScrollDown, context);
    bind(bindings, "enter", Action::OpenQueueItem, context);
    bind(bindings, "=", Action::MoreImportant, context);
    bind(bindings, "shift-=", Action::MoreImportant, context);
    bind(bindings, "-", Action::LessImportant, context);
    assert(binding_views(bindings@) =~= binding_views(old(bindings)@) + queue_bindings());
}

/// Binds the keys of the knowledge tree.
pub fn bind_tree_keys(bindings: &mut Vec<KeyBinding>)
    ensures
        binding_views(final(bindings)@) == binding_views(old(bindings)@) + tree_bindings(),
{
    let context = knowledge_tree::rendering::KEY_CONTEXT;
    bind(bindings, "j", Action::SelectNext, context);
    bind(bindings, "down", Action::SelectNext, context);
    bind(bindings, "k", Action::SelectPrevious, context);
    bind(bindings, "up", Action::SelectPrevious, context);
    bind(bindings, "g g", Action::SelectFirst, context);
    bind(bindings, "shift-g", Action::SelectLast, context);
    bind(bindings, "h", Action::CollapseSelected, context);
    bind(bindings, "left", Action::CollapseSelected, context);
    bind(bindings, "l", Action::ExpandSelected, context);
    bind(bindings, "right", Action::ExpandSelected, context);
    bind(bindings, "enter", Action::OpenTreeItem, context);
    assert(binding_views(bindings@) =~= binding_views(old(bindings)@) + tree_bindings());
}

/// Lists the keys that the mode binds: those of the workbench, of the queue and of
/// the tree where it is on, and none where it is off.
pub fn key_bindings(mode: AltereMode) -> (bindings: Vec<KeyBinding>)
    ensures
        binding_views(bindings@) == if mode.is_on() {
            workbench_bindings() + queue_bindings() + tree_bindings()
        } else {
            seq![]
        },
{
    let mut bindings: Vec<KeyBinding> = Vec::new();
    assert(binding_views(bindings@) =~= seq![]);
    if !mode.show_next_button() {
        return bindings;
    }
    bindings.push(
        KeyBinding {
            keys: "ctrl-`".to_string(),
            action: Action::UnbindTerminalToggle,
            context: None,
        },
    );
    bind(
        &mut bindings,
        "escape",
        Action::FocusNextRepetition,
        "Editor && vim_mode == normal && !menu",
    );
    bind(
        &mut bindings,
        "escape",
        Action::FocusNextRepetition,
        "Workspace && !Editor && !menu",
    );
    bind(&mut bindings, "enter", Action::NextBuffer, "AltereNextRepetition");
    assert(binding_views(bindings@) =~= workbench_bindings());
    bind_queue_keys(&mut bindings);
    bind_tree_keys(&mut bindings);
    bindings
}

/// Every key of a panel is bound in the context of that panel alone, and the keys that
/// move the selection are the same in both panels.
pub proof fn panel_keys_stay_in_their_panel(i: int, j: int)
    ensures
        0 <= i < queue_bindings().len() ==> queue_bindings()[i].context == Some(
            "AlterePriorityQueue"@,
        ),
        0 <= j < tree_bindings().len() ==> tree_bindings()[j].context == Some(
            "AltereKnowledgeTree"@,
        ),
        0 <= i < 6 ==> queue_bindings()[i].keys == tree_bindings()[i].keys
            && queue_bindings()[i].action == tree_bindings()[i].action,
{
}

/// Keys do something in the queue exactly where they stand for it: to go down and up, to the
/// ends and by half a page, to open, and to change a priority.
pub proof fn queue_keys_do_what_they_stand_for(binding: BindingView)
    ensures
        queue_bindings().contains(binding) <==> {
            &&& binding.context == Some("AlterePriorityQueue"@)
            &&& {
                ||| binding.action is SelectNext && (binding.keys == "j"@ || binding.keys == "down"@)
                ||| binding.action is SelectPrevious && (binding.keys == "k"@ || binding.keys == "up"@)
                ||| binding.action is SelectFirst && binding.keys == "g g"@
                ||| binding.action is SelectLast && binding.keys == "shift-g"@
                ||| binding.action is ScrollUp && binding.keys == "ctrl-u"@
                ||| binding.action is ScrollDown && binding.keys == "ctrl-d"@
                ||| binding.action is OpenQueueItem && binding.keys == "enter"@
                ||| binding.action is MoreImportant && (binding.keys == "="@ || binding.keys == "shift-="@)
                ||| binding.action is LessImportant && binding.keys == "-"@
            }
        },
{
    let bound = queue_bindings();
    assert(bound[0] == within("j"@, Action::SelectNext, "AlterePriorityQueue"@));
    assert(bound[1] == within("down"@, Action::SelectNext, "AlterePriorityQueue"@));
    assert(bound[2] == within("k"@, Action::SelectPrevious, "AlterePriorityQueue"@));
    assert(bound[3] == within("up"@, Action::SelectPrevious, "AlterePriorityQueue"@));
    assert(bound[4] == within("g g"@, Action::SelectFirst, "AlterePriorityQueue"@));
    assert(bound[5] == within("shift-g"@, Action::SelectLast, "AlterePriorityQueue"@));
    assert(bound[6] == within("ctrl-u"@, Action::ScrollUp, "AlterePriorityQueue"@));
    assert(bound[7] == within("ctrl-d"@, Action::ScrollDown, "AlterePriorityQueue"@));
    assert(bound[8] == within("enter"@, Action::OpenQueueItem, "AlterePriorityQueue"@));
    assert(bound[9] == within("="@, Action::MoreImportant, "AlterePriorityQueue"@));
    assert(bound[10] == within("shift-="@, Action::MoreImportant, "AlterePriorityQueue"@));
    assert(bound[11] == within("-"@, Action::LessImportant, "AlterePriorityQueue"@));
}

/// Keys do something in the tree exactly where they stand for it: to go down and up and to
/// the ends, to collapse and to open out, and to open.
pub proof fn tree_keys_do_what_they_stand_for(binding: BindingView)
    ensures
        tree_bindings().contains(binding) <==> {
            &&& binding.context == Some("AltereKnowledgeTree"@)
            &&& {
                ||| binding.action is SelectNext && (binding.keys == "j"@ || binding.keys == "down"@)
                ||| binding.action is SelectPrevious && (binding.keys == "k"@ || binding.keys == "up"@)
                ||| binding.action is SelectFirst && binding.keys == "g g"@
                ||| binding.action is SelectLast && binding.keys == "shift-g"@
                ||| binding.action is CollapseSelected && (binding.keys == "h"@ || binding.keys == "left"@)
                ||| binding.action is ExpandSelected && (binding.keys == "l"@ || binding.keys == "right"@)
                ||| binding.action is OpenTreeItem && binding.keys == "enter"@
            }
        },
{
    let bound = tree_bindings();
    assert(bound[0] == within("j"@, Action::SelectNext, "AltereKnowledgeTree"@));
    assert(bound[1] == within("down"@, Action::SelectNext, "AltereKnowledgeTree"@));
    assert(bound[2] == within("k"@, Action::SelectPrevious, "AltereKnowledgeTree"@));
    assert(bound[3] == within("up"@, Action::SelectPrevious, "AltereKnowledgeTree"@));
    assert(bound[4] == within("g g"@, Action::SelectFirst, "AltereKnowledgeTree"@));
    assert(bound[5] == within("shift-g"@, Action::SelectLast, "AltereKnowledgeTree"@));
    assert(bound[6] == within("h"@, Action::CollapseSelected, "AltereKnowledgeTree"@));
    assert(bound[7] == within("left"@, Action::CollapseSelected, "AltereKnowledgeTree"@));
    assert(bound[8] == within("l"@, Action::ExpandSelected, "AltereKnowledgeTree"@));
    assert(bound[9] == within("right"@, Action::ExpandSelected, "AltereKnowledgeTree"@));
    assert(bound[10] == within("enter"@, Action::OpenTreeItem, "AltereKnowledgeTree"@));
}

/// Key bindings say what they hold, each in its place.
pub proof fn bindings_say_what_they_hold(bindings: Seq<KeyBinding>, i: int)
    requires
        0 <= i < bindings.len(),
    ensures
        binding_views(bindings).len() == bindings.len(),
        binding_views(bindings)[i].keys == bindings[i].keys@,
        binding_views(bindings)[i].action == bindings[i].action,
        binding_views(bindings)[i].context == crate::text::owned_text(bindings[i].context),
{
}

} // verus!
