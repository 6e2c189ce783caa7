//! Spacer component for vertical whitespace.

use vstd::prelude::*;
use crate::text::{nat_text, u64_text};
use crate::email_core::component::Component;
use crate::email_core::node::{Element, ElementView, Node, NodeView, Tag};
use crate::email_core::style::{Style, no_style, empty_style};
use crate::email_core::types::{LineHeight, Px, SizeValue};

verus! {

/// Vertical whitespace of a fixed height.
///
/// Uses a table cell with explicit height and line height, the most
/// reliable spacing across email clients.
pub struct Spacer {
    pub height: Px,
}

impl Spacer {
    /// Create a spacer of the given height.
    pub fn new(height: Px) -> (s: Spacer)
        ensures
            s.height == height,
    {
        Spacer { height }
    }

    /// Convert this component into a Node.
    pub fn into_node(self) -> (n: Node)
        ensures
            n@ == self.spec_render(),
    {
        self.render()
    }
}

impl Component for Spacer {
    open spec fn obeys_render_spec(&self) -> bool {
        true
    }

    open spec fn spec_render(&self) -> NodeView {
        let td = NodeView::Element(ElementView {
            tag: Tag::Td,
            attrs: seq![("height"@, nat_text(self.height.0 as nat))],
            style: Style {
                height: Some(SizeValue::Px(self.height)),
                line_height: Some(LineHeight::Px(self.height)),
                font_size: Some(Px(1)),
                ..no_style()
            }@,
            children: seq![NodeView::Text("\u{00A0}"@)],
        });
        let tr = NodeView::Element(
            ElementView { tag: Tag::Tr, attrs: seq![], style: empty_style(), children: seq![td] },
        );
        let tbody = NodeView::Element(
            ElementView { tag: Tag::Tbody, attrs: seq![], style: empty_style(), children: seq![tr] },
        );
        NodeView::Element(ElementView {
            tag: Tag::Table,
            attrs: seq![]
                .push(("role"@, "presentation"@))
                .push(("cellpadding"@, "0"@))
                .push(("cellspacing"@, "0"@))
                .push(("border"@, "0"@))
                .push(("width"@, "100%"@)),
            style: empty_style(),
            children: seq![tbody],
        })
    }

    fn render(&self) -> (n: Node) {
        let mut td_style = Style::new();
        td_style.height = Some(SizeValue::Px(self.height));
        td_style.line_height = Some(LineHeight::Px(self.height));
        td_style.font_size = Some(Px(1));
        let height_text = u64_text(self.height.0 as u64);
        let nbsp = Node::text("\u{00A0}");
        let td = Element::new(Tag::Td)
            .attr("height", height_text.as_str())
            .style(td_style)
            .child(nbsp);
        let tr = Element::new(Tag::Tr).child(Node::Element(td));
        let tbody = Element::new(Tag::Tbody).child(Node::Element(tr));
        Node::Element(
            Element::new(Tag::Table)
                .attr("role", "presentation")
                .attr("cellpadding", "0")
                .attr("cellspacing", "0")
                .attr("border", "0")
                .attr("width", "100%")
                .child(Node::Element(tbody)),
        )
    }
}

} // verus!
