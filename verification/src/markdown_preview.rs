//! The preview that is kept open beside a Markdown document until its user says
//! otherwise.

use crate::keys::Action;
use crate::proposal_review::ToolbarItemLocation;
use vstd::prelude::*;
use vstd::string::*;

verus! {

/// Whether the preview is kept open.
pub struct PreviewTrackingPolicy {
    enabled: bool,
}

impl Default for PreviewTrackingPolicy {
    fn default() -> (policy: Self)
        ensures
            policy.keeps_open(),
    {
        PreviewTrackingPolicy { enabled: true }
    }
}

impl PreviewTrackingPolicy {
    /// Whether the preview is kept open.
    pub closed spec fn keeps_open(&self) -> bool {
        self.enabled
    }

    /// Whether the preview is to be opened where it is not.
    pub fn should_ensure_preview(&self) -> (ensured: bool)
        ensures
            ensured == self.keeps_open(),
    {
        self.enabled
    }

    /// Changes whether the preview is kept open; tells what holds now.
    pub fn toggle(&mut self) -> (enabled: bool)
        ensures
            final(self).keeps_open() == !old(self).keeps_open(),
            enabled == final(self).keeps_open(),
    {
        self.enabled = !self.enabled;
        self.enabled
    }
}

/// The one policy that all workspaces share.
pub struct PreviewTrackingState {
    policy: PreviewTrackingPolicy,
}

impl Default for PreviewTrackingState {
    fn default() -> (state: Self)
        ensures
            state.tracks(),
    {
        PreviewTrackingState { policy: PreviewTrackingPolicy::default() }
    }
}

impl PreviewTrackingState {
    /// Whether the preview is kept open.
    pub closed spec fn tracks(&self) -> bool {
        self.policy.keeps_open()
    }

    /// Changes whether the preview is kept open; tells what holds now.
    pub fn toggle(&mut self) -> (enabled: bool)
        ensures
            final(self).tracks() == !old(self).tracks(),
            enabled == final(self).tracks(),
    {
        self.policy.toggle()
    }

    /// Whether the preview is kept open.
    pub fn enabled(&self) -> (enabled: bool)
        ensures
            enabled == self.tracks(),
    {
        self.policy.should_ensure_preview()
    }
}

/// The shared policy, made where there was none.
pub fn preview_tracking(shared: Option<PreviewTrackingState>) -> (state: PreviewTrackingState)
    ensures
        state.tracks() == match shared {
            Some(shared) => shared.tracks(),
            None => true,
        },
{
    match shared {
        Some(shared) => shared,
        None => PreviewTrackingState::default(),
    }
}

/// What can happen in a workspace.
#[derive(Clone, Copy, Debug, PartialEq, Eq, Structural)]
pub enum WorkspaceEvent {
    ActiveItemChanged,
    ItemAdded,
    ItemRemoved,
    PaneRemoved,
    UserSavedItem,
    Other,
}

/// Whether the preview is to be opened: where the active item is a Markdown
/// document in an editor.
pub fn ensure_preview(active_is_markdown: bool) -> (opened: bool)
    ensures
        opened == active_is_markdown,
{
    active_is_markdown
}

/// Whether an event asks to look after the preview, once it has been dealt with.
pub open spec fn disturbs_preview(event: WorkspaceEvent) -> bool {
    event is ActiveItemChanged || event is ItemRemoved || event is PaneRemoved
}

/// Whether an event asks to look after the preview, once it has been dealt with.
pub fn defers_preview_ensure(event: WorkspaceEvent) -> (deferred: bool)
    ensures
        deferred == disturbs_preview(event),
{
    match event {
        WorkspaceEvent::ActiveItemChanged
        | WorkspaceEvent::ItemRemoved
        | WorkspaceEvent::PaneRemoved => true,
        _ => false,
    }
}

/// Looks after the preview: whether it is to be opened now.
pub fn deferred_preview_ensure(state: &PreviewTrackingState, active_is_markdown: bool) -> (opened:
    bool)
    ensures
        opened == (state.tracks() && active_is_markdown),
{
    state.enabled() && ensure_preview(active_is_markdown)
}

/// Starts to look after the preview of a workspace: whether it is to be opened
/// now.
pub fn register(state: &PreviewTrackingState, active_is_markdown: bool) -> (opened: bool)
    ensures
        opened == (state.tracks() && active_is_markdown),
{
    if state.enabled() {
        ensure_preview(active_is_markdown)
    } else {
        false
    }
}

/// Changes whether the preview is kept open; tells what holds now, and whether the
/// preview is to be opened now.
pub fn toggle_tracking(state: &mut PreviewTrackingState, active_is_markdown: bool) -> (outcome: (
    bool,
    bool,
))
    ensures
        final(state).tracks() == !old(state).tracks(),
        outcome.0 == final(state).tracks(),
        outcome.1 == (final(state).tracks() && active_is_markdown),
{
    let enabled = state.toggle();
    if enabled {
        (enabled, ensure_preview(active_is_markdown))
    } else {
        (enabled, false)
    }
}

/// The toolbar of a preview.
pub struct AltereMarkdownPreviewToolbar {
    preview_active: bool,
}

/// The button of the toolbar as it shows.
pub struct TrackingButton {
    pub id: String,
    pub toggled: bool,
    pub tooltip: String,
    pub action: Action,
}

impl AltereMarkdownPreviewToolbar {
    /// Whether a preview is active.
    pub closed spec fn for_preview(&self) -> bool {
        self.preview_active
    }

    /// A toolbar without a preview.
    pub fn new() -> (toolbar: AltereMarkdownPreviewToolbar)
        ensures
            !toolbar.for_preview(),
    {
        AltereMarkdownPreviewToolbar { preview_active: false }
    }

    /// Follows the active item: shows where it is a preview.
    pub fn set_active_pane_item(&mut self, is_preview: bool) -> (location: ToolbarItemLocation)
        ensures
            final(self).for_preview() == is_preview,
            location == if is_preview {
                ToolbarItemLocation::PrimaryRight
            } else {
                ToolbarItemLocation::Hidden
            },
    {
        self.preview_active = is_preview;
        if self.preview_active {
            ToolbarItemLocation::PrimaryRight
        } else {
            ToolbarItemLocation::Hidden
        }
    }

    /// Shows the toolbar.
    pub fn render(&self, state: &PreviewTrackingState) -> (button: TrackingButton)
        ensures
            button.id@ == "altere-markdown-preview-tracking"@,
            button.toggled == state.tracks(),
            button.tooltip@ == if state.tracks() {
                "Stop Tracking Markdown Preview"@
            } else {
                "Track Markdown Preview"@
            },
            button.action == Action::ToggleMarkdownPreviewTracking,
    {
        let tracking = state.enabled();
        let tooltip = if tracking {
            "Stop Tracking Markdown Preview".to_string()
        } else {
            "Track Markdown Preview".to_string()
        };
        TrackingButton {
            id: "altere-markdown-preview-tracking".to_string(),
            toggled: tracking,
            tooltip,
            action: Action::ToggleMarkdownPreviewTracking,
        }
    }
}

/// The preview is looked after exactly where the active item changes, an item goes, or a
/// pane goes.
pub proof fn preview_follows_what_may_hide_it(event: WorkspaceEvent)
    ensures
        event is ActiveItemChanged || event is ItemRemoved || event is PaneRemoved
            ==> disturbs_preview(event),
        event is ItemAdded || event is UserSavedItem || event is Other ==> !disturbs_preview(event),
{
}

} // verus!
