//! Core of a modal terminal text editor: the text buffer and cursor model,
//! the Command / Insert / Visual mode state machine, selection and clipboard,
//! viewport scrolling, the directory browser, and the `:`-command parser.
//!
//! Everything here is pure state-machine logic on plain values; terminal
//! drawing and file-system access live outside the library and talk to it
//! through the [`command::Action`] values that [`dispatch`] hands back.

pub mod browser;
pub mod clip;
pub mod command;
pub mod dispatch;
pub mod display;
pub mod edit;
pub mod editor;
pub mod laws;
pub mod nav;
pub mod order;
pub mod text;
