//! The foundation: the `Component` trait, the `Node` tree and the typed style
//! system with its primitive CSS values.

pub mod decimal;
pub mod types;
pub mod color;
pub mod spacing;
pub mod style;
pub mod node;
pub mod component;
