//! Natural-language shell assistant: the verified core.
//!
//! The crate holds the logic of the assistant's terminal dialogue: the key
//! decoder, the visual-row accounting, the inline editor and the confirmation
//! state machine, together with the prompt templates and response cleaning.
//! Every function states its behaviour over mathematical models of its data.

pub mod cli;
pub mod common;
pub mod config;
pub mod confirmation;
pub mod editor;
pub mod error;
pub mod interactive;
pub mod keys;
pub mod layout;
pub mod prompt;
pub mod providers;
pub mod session;
pub mod shell_integration;
pub mod style;
pub mod text;
pub mod uninstall;
