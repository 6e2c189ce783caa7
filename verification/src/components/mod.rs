//! The standard component library: email-safe, composable components that
//! produce table-based layouts for maximum client compatibility.
//!
//! - Layout: `Html`, `Head`, `Body`, `Container`, `Section`, `Row`, `Column`
//! - Content: `Text`, `Heading`, `Link`, `Image`, `Button`
//! - Utility: `Preview`, `Hr`, `Spacer`, `Code`, `CodeBlock`

pub mod text;
pub mod body;
pub mod container;
pub mod section;
pub mod row;
pub mod column;
pub mod html;
pub mod button;
pub mod code;
pub mod head;
pub mod heading;
pub mod hr;
pub mod link;
pub mod image;
pub mod spacer;
pub mod preview;
