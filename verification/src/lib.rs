//! Ferrum Email: typed, composable email templates rendered to email-safe
//! HTML and plain text, and the message logic of the sending side.

pub mod text;
pub mod email_core;
pub mod render;
pub mod components;
pub mod send;
pub mod tui;
pub mod cli;
pub mod relay;
pub mod relay_run;
