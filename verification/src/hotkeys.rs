//! The hotkey model: the one registered shortcut, incoming key events, and
//! the decision whether an event fires the trigger.

use vstd::prelude::*;

verus! {

/// Key code for the letter `S`.
pub const KEY_S: u32 = 0x53;

/// A global shortcut: a modifier-key combination plus one key, matched
/// against incoming key events by equality.
#[derive(Clone, Copy, PartialEq, Eq, Structural, Debug)]
pub struct Shortcut {
    /// Control modifier held.
    pub control: bool,
    /// Alt modifier held.
    pub alt: bool,
    /// Shift modifier held.
    pub shift: bool,
    /// Meta (super/command) modifier held.
    pub meta: bool,
    /// Key code of the non-modifier key.
    pub key: u32,
}

/// Whether a key event is the press or the release transition.
#[derive(Clone, Copy, PartialEq, Eq, Structural, Debug)]
pub enum ShortcutState {
    /// The combination was pressed down.
    Pressed,
    /// The combination was released.
    Released,
}

/// One global key event: which combination fired, and whether it was a
/// press or a release.
#[derive(Clone, Copy, PartialEq, Eq, Structural, Debug)]
pub struct ShortcutEvent {
    /// The combination the event reports.
    pub shortcut: Shortcut,
    /// Press or release.
    pub state: ShortcutState,
}

/// The one shortcut this utility registers: Control + S.
pub open spec fn spec_ctrl_s() -> Shortcut {
    Shortcut { control: true, alt: false, shift: false, meta: false, key: KEY_S }
}

/// Builds the registered shortcut, Control + S.
pub fn ctrl_s() -> (s: Shortcut)
    ensures
        s == spec_ctrl_s(),
{
    Shortcut { control: true, alt: false, shift: false, meta: false, key: KEY_S }
}

/// The handler acts on an event exactly when it reports the configured
/// combination and is a press, not a release.
pub open spec fn spec_should_trigger(configured: Shortcut, event: ShortcutEvent) -> bool {
    event.shortcut == configured && event.state == ShortcutState::Pressed
}

/// Decides whether a key event fires the trigger: only an exact match of
/// the configured combination, and only on the press transition.
pub fn should_trigger(configured: Shortcut, event: ShortcutEvent) -> (r: bool)
    ensures
        r == spec_should_trigger(configured, event),
{
    event.shortcut == configured && event.state == ShortcutState::Pressed
}

/// The registered handler ignores every event that does not exactly match
/// the configured combination, and ignores the release transition of the
/// matching one.
pub proof fn lemma_handler_ignores_non_matching(configured: Shortcut, event: ShortcutEvent)
    requires
        event.shortcut != configured || event.state == ShortcutState::Released,
    ensures
        !spec_should_trigger(configured, event),
{
}

} // verus!
