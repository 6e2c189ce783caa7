//! Table row component for multi-column email layouts.

use vstd::prelude::*;
use crate::text::{string_of, nat_text, u64_text};
use crate::email_core::color::Color;
use crate::email_core::component::Component;
use crate::email_core::decimal::Decimal;
use crate::email_core::node::{
    Element, ElementView, Node, NodeView, Tag, nodes_view, clone_nodes, lemma_nodes_view_push,
};
use crate::email_core::spacing::Spacing;
use crate::email_core::style::{Style, no_style, empty_style, clone_opt_color};
use crate::email_core::types::{Px, Percent, SizeValue, TextAlign, VerticalAlign};

verus! {

broadcast use vstd::string::group_string_axioms;

use crate::components::container::full_width;

/// A table row for multi-column email layouts.
///
/// Contains `Column` components as children. Renders as a `<table>` with a
/// single `<tr>` holding the `<td>` cells.
pub struct Row {
    pub children: Vec<Node>,
}

/// The full-width table of a row with the given cells.
pub open spec fn row_view(children: Seq<NodeView>) -> NodeView {
        NodeView::Element(ElementView {
            tag: Tag::Table,
            attrs: seq![]
                .push(("role"@, "presentation"@))
                .push(("cellpadding"@, "0"@))
                .push(("cellspacing"@, "0"@))
                .push(("border"@, "0"@))
                .push(("width"@, "100%"@)),
            style: Style { width: Some(full_width()), ..no_style() }@,
            children: seq![NodeView::Element(ElementView {
                tag: Tag::Tbody,
                attrs: seq![],
                style: empty_style(),
                children: seq![NodeView::Element(ElementView {
                    tag: Tag::Tr,
                    attrs: seq![],
                    style: empty_style(),
                    children: children,
                })],
            })],
        })
    }

impl Row {
    /// Create a new, empty Row.
    pub fn new() -> (r: Row)
        ensures
            r.children@.len() == 0,
    {
        Row { children: Vec::new() }
    }

    /// Add a child component.
    pub fn child<C: Component>(self, child: C) -> (r: Row)
        ensures
            r == (Row { children: r.children, ..self }),
            r.children@.len() == self.children@.len() + 1,
            r.children@.drop_last() == self.children@,
            child.obeys_render_spec() ==> nodes_view(r.children@) == nodes_view(self.children@).push(child.spec_render()),
    {
        let ghost before = self.children@;
        let mut r = self;
        let n = child.render();
        proof {
            lemma_nodes_view_push(r.children@, n);
        }
        r.children.push(n);
        assert(r.children@.drop_last() =~= before);
        r
    }

    /// Add a raw Node as a child.
    pub fn child_node(self, node: Node) -> (r: Row)
        ensures
            r == (Row { children: r.children, ..self }),
            r.children@ == self.children@.push(node),
    {
        let mut r = self;
        r.children.push(node);
        r
    }

    /// Add multiple children.
    pub fn children(self, children: Vec<Node>) -> (r: Row)
        ensures
            r == (Row { children: r.children, ..self }),
            r.children@ == self.children@ + children@,
    {
        let mut r = self;
        let mut more = children;
        r.children.append(&mut more);
        r
    }

    /// Convert this component into a Node.
    pub fn into_node(self) -> (n: Node)
        ensures
            n@ == self.spec_render(),
    {
        self.render()
    }
}

impl Default for Row {
    fn default() -> (r: Row)
        ensures
            r.children@.len() == 0,
    {
        Row::new()
    }
}

impl Component for Row {
    open spec fn obeys_render_spec(&self) -> bool {
        true
    }

    open spec fn spec_render(&self) -> NodeView {
        row_view(nodes_view(self.children@))
    }

    fn render(&self) -> (n: Node) {
        let mut s = Style::new();
        s.width = Some(SizeValue::Percent(Percent(Decimal::new(100, 0))));
        let tr = Element::new(Tag::Tr).children(clone_nodes(&self.children));
        let tbody = Element::new(Tag::Tbody).child(Node::Element(tr));
        Node::Element(
            Element::new(Tag::Table)
                .attr("role", "presentation")
                .attr("cellpadding", "0")
                .attr("cellspacing", "0")
                .attr("border", "0")
                .attr("width", "100%")
                .style(s)
                .child(Node::Element(tbody)),
        )
    }
}

} // verus!
