//! What toggling the launcher's main window does.

use vstd::prelude::*;

verus! {

/// The steps a toggle takes on the main window.
#[derive(Clone, Copy, Debug, PartialEq, Eq, Structural)]
pub enum ToggleAction {
    /// Unminimize, show and focus the window.
    Restore,
    /// Hide the window.
    Hide,
    /// Show and focus the window.
    Reveal,
}

/// A minimized window is restored; a visible one is hidden; a hidden one is
/// shown. A state that cannot be read counts as `false`.
pub fn toggle_action(minimized: bool, visible: bool) -> (a: ToggleAction)
    ensures
        a == (if minimized {
            ToggleAction::Restore
        } else if visible {
            ToggleAction::Hide
        } else {
            ToggleAction::Reveal
        }),
{
    if minimized {
        ToggleAction::Restore
    } else if visible {
        ToggleAction::Hide
    } else {
        ToggleAction::Reveal
    }
}

} // verus!
