//! The rendering engine: CSS inlining, HTML emission and plain-text
//! extraction.

pub mod html_emitter;
pub mod css_inliner;
pub mod html;
pub mod text_extractor;
pub mod renderer;
