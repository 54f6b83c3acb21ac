//! The background trigger task's decisions: what one hotkey press does —
//! collect the capture results, report how many frames came back, and pick
//! what happens to the main window from its visibility reading.

use vstd::prelude::*;
use crate::screencapture::Image;
use crate::screencapture::successes;
use crate::screencapture::capture_screen;

verus! {

/// What a trigger does to the main window.
#[derive(Clone, Copy, PartialEq, Eq, Structural, Debug)]
pub enum WindowAction {
    /// The window was visible: hide it. No focus change is requested.
    Hide,
    /// The window was hidden, or its visibility could not be read: show it
    /// and give it focus.
    ShowAndFocus,
}

/// The observable state of the main window.
#[derive(Clone, Copy, PartialEq, Eq, Structural, Debug)]
pub struct WindowState {
    /// Whether the window is shown.
    pub visible: bool,
    /// Whether the window holds input focus.
    pub focused: bool,
}

/// The action for a visibility reading. A reading that could not be made
/// counts as not visible.
pub open spec fn action_for(visible: Option<bool>) -> WindowAction {
    if visible == Some(true) {
        WindowAction::Hide
    } else {
        WindowAction::ShowAndFocus
    }
}

/// Picks the window action from the visibility reading: hide a window seen
/// visible; show and focus one seen hidden or whose visibility could not
/// be read.
pub fn toggle_action(visible: Option<bool>) -> (a: WindowAction)
    ensures
        a == action_for(visible),
{
    match visible {
        Some(true) => WindowAction::Hide,
        _ => WindowAction::ShowAndFocus,
    }
}

/// The window state after an action is carried out. Hiding touches only
/// visibility; showing also moves input focus to the window.
pub open spec fn spec_apply_action(w: WindowState, a: WindowAction) -> WindowState {
    match a {
        WindowAction::Hide => WindowState { visible: false, focused: w.focused },
        WindowAction::ShowAndFocus => WindowState { visible: true, focused: true },
    }
}

impl WindowState {
    /// Carries an action out on a window state.
    pub fn apply(self, a: WindowAction) -> (w: WindowState)
        ensures
            w == spec_apply_action(self, a),
    {
        match a {
            WindowAction::Hide => WindowState { visible: false, focused: self.focused },
            WindowAction::ShowAndFocus => WindowState { visible: true, focused: true },
        }
    }
}

/// A trigger toggles the window. When the reading is faithful where it
/// exists: a window read as visible ends hidden, with its focus untouched;
/// a window read as hidden, or whose visibility could not be read, ends
/// visible and focused.
pub proof fn lemma_trigger_toggles_window(w: WindowState, reading: Option<bool>)
    requires
        reading matches Some(v) ==> v == w.visible,
    ensures
        reading == Some(true) ==> !spec_apply_action(w, action_for(reading)).visible,
        reading == Some(true) ==> spec_apply_action(w, action_for(reading)).focused == w.focused,
        reading != Some(true) ==> spec_apply_action(w, action_for(reading)).visible,
        reading != Some(true) ==> spec_apply_action(w, action_for(reading)).focused,
{
}

/// Everything one trigger decides: the captured batch, if any, and the
/// window action.
pub struct TriggerOutcome {
    /// The successful captures, or absent when enumeration failed or no
    /// capture succeeded.
    pub captured: Option<Vec<Image>>,
    /// What to do to the main window.
    pub action: WindowAction,
}

impl TriggerOutcome {
    /// The frame count to report: present exactly when a batch was
    /// produced, and then equal to its length.
    pub fn log_count(&self) -> (c: Option<usize>)
        ensures
            c is Some <==> self.captured is Some,
            (match self.captured {
                Some(imgs) => c == Some(imgs@.len() as usize),
                None => c is None,
            }),
    {
        match &self.captured {
            Some(imgs) => Some(imgs.len()),
            None => None,
        }
    }
}

/// The whole decision of one trigger: collect the capture results of one
/// pass, then pick the window action from the visibility reading.
pub fn handle_trigger(enumerated: Option<Vec<Option<Image>>>, visible: Option<bool>) -> (t:
    TriggerOutcome)
    ensures
        (match enumerated {
            Some(outcomes) => (match t.captured {
                Some(imgs) => imgs@ == successes(outcomes@) && imgs@.len() > 0,
                None => successes(outcomes@).len() == 0,
            }),
            None => t.captured is None,
        }),
        t.action == action_for(visible),
{
    TriggerOutcome { captured: capture_screen(enumerated), action: toggle_action(visible) }
}

} // verus!
