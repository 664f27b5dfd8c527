//! A minimal desktop application shell: one front-end command that greets by
//! name, a system-tray menu with quit and hide entries, and a two-state
//! lifecycle that terminates when the quit entry is selected.
//!
//! The host GUI runtime itself (windows, the event loop, the OS tray icon) is
//! not modelled here; this crate holds the data and the decisions the shell is
//! built from: the greeting text, the menu layout, and the state transitions.

pub mod greeting;
pub mod shell;
pub mod tray;
