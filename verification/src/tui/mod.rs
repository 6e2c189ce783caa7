//! The terminal dashboard's logic: its built-in email templates, its state
//! and the decisions it takes on each key.

pub mod templates;
pub mod clock;
pub mod app;
pub mod keys;
