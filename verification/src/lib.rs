//! Core logic of a small desktop utility: a global hotkey that, when
//! pressed, captures a screenshot of every attached monitor and toggles the
//! visibility of the main application window.
//!
//! The modules here hold the decisions that the utility makes — which key
//! events fire the hotkey, which capture attempts make it into the returned
//! batch, and what is done to the window — each with a contract. The
//! operating-system calls themselves (registering the shortcut, grabbing the
//! pixels, showing and hiding the window) live outside this crate.

pub mod hotkeys;
pub mod screencapture;
pub mod trigger;
