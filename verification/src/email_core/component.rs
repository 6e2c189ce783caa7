//! The `Component` trait: the building block of every email template.

use vstd::prelude::*;
use crate::email_core::node::{Node, NodeView};

verus! {

/// The core trait for all components.
///
/// Components are composable building blocks for email templates. Each
/// component defines how it renders to a `Node` tree, which the renderer
/// then converts to email-safe HTML.
pub trait Component {
    /// Whether `render` is known to produce `spec_render` (and the plain
    /// text is the one extracted from it): every component of this library
    /// says so; a component written elsewhere, whose `render` and
    /// `plain_text` nobody checked, promises nothing.
    open spec fn obeys_render_spec(&self) -> bool {
        false
    }

    /// The view of the tree this component renders to, where
    /// `obeys_render_spec` holds.
    open spec fn spec_render(&self) -> NodeView {
        NodeView::Empty
    }

    /// Render this component into a `Node` tree.
    fn render(&self) -> (n: Node)
        ensures
            self.obeys_render_spec() ==> n@ == self.spec_render(),
    ;

    /// Optional: provide a custom plain text version.
    ///
    /// If `None`, the renderer extracts plain text from the node tree. A
    /// component for which `obeys_render_spec` holds gives none: its plain
    /// text is the one extracted from `spec_render`.
    fn plain_text(&self) -> (r: Option<String>)
        ensures
            self.obeys_render_spec() ==> r is None,
    {
        None
    }

    /// The email subject line. Only meaningful on top-level email components.
    fn subject(&self) -> Option<&str> {
        None
    }
}

} // verus!
