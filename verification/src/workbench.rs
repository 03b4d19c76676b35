//! The mode of the workbench's editor, as its own switches report it.

use vstd::prelude::*;

verus! {

/// Whether keys are commands or text.
#[derive(Clone, Copy, Debug, PartialEq, Eq, Structural)]
pub enum WorkbenchMode {
    Normal,
    Insert,
}

/// A switch of modes that the editor reports, or something else that it does.
#[derive(Clone, Copy, Debug, PartialEq, Eq, Structural)]
pub enum EditorAction {
    SwitchToInsertMode,
    SwitchToNormalMode,
    Other,
}

/// Follows the mode of an editor.
pub struct ModeTracker {
    mode: WorkbenchMode,
}

/// The mode after an action.
pub open spec fn mode_after(mode: WorkbenchMode, action: EditorAction) -> WorkbenchMode {
    match action {
        EditorAction::SwitchToInsertMode => WorkbenchMode::Insert,
        EditorAction::SwitchToNormalMode => WorkbenchMode::Normal,
        EditorAction::Other => mode,
    }
}

impl ModeTracker {
    /// The mode.
    pub closed spec fn mode(&self) -> WorkbenchMode {
        self.mode
    }

    /// Starts to follow an editor that has just been launched.
    pub fn launch() -> (tracker: ModeTracker)
        ensures
            tracker.mode() == WorkbenchMode::Normal,
    {
        ModeTracker { mode: WorkbenchMode::Normal }
    }

    /// Takes an action of the editor.
    pub fn on_action(&mut self, action: EditorAction)
        ensures
            final(self).mode() == mode_after(old(self).mode(), action),
    {
        match action {
            EditorAction::SwitchToInsertMode => {
                self.mode = WorkbenchMode::Insert;
            },
            EditorAction::SwitchToNormalMode => {
                self.mode = WorkbenchMode::Normal;
            },
            EditorAction::Other => {},
        }
    }

    /// The mode.
    pub fn active_mode(&self) -> (mode: WorkbenchMode)
        ensures
            mode == self.mode(),
    {
        self.mode
    }
}

/// The last switch that was reported decides the mode; what is no switch changes nothing.
pub proof fn last_switch_decides(mode: WorkbenchMode, action: EditorAction)
    ensures
        action is SwitchToInsertMode ==> mode_after(mode, action) is Insert,
        action is SwitchToNormalMode ==> mode_after(mode, action) is Normal,
        action is Other ==> mode_after(mode, action) == mode,
{
}

} // verus!
