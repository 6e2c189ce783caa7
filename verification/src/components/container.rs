//! Centered max-width container using table-based layout.

use vstd::prelude::*;
use crate::text::{string_of, nat_text, u64_text};
use crate::email_core::color::Color;
use crate::email_core::component::Component;
use crate::email_core::decimal::Decimal;
use crate::email_core::node::{
    Element, ElementView, Node, NodeView, Tag, nodes_view, clone_nodes, lemma_nodes_view_push,
};
use crate::email_core::spacing::Spacing;
use crate::email_core::style::{Style, no_style, empty_style, clone_opt_color};
use crate::email_core::types::{Px, Percent, SizeValue, TextAlign, VerticalAlign};

verus! {

broadcast use vstd::string::group_string_axioms;

/// A centered, max-width container for email content.
///
/// Renders as a table-based layout: centered horizontally and constrained
/// to a max width.
pub struct Container {
    pub max_width: Px,
    pub background_color: Option<Color>,
    pub padding: Option<Spacing>,
    pub children: Vec<Node>,
}

/// 100%.
pub open spec fn full_width() -> SizeValue {
    SizeValue::Percent(Percent(Decimal { units: 100, scale: 0 }))
}

/// The centered table of a container with the given settings and content.
pub open spec fn container_view(max_width: Px, background_color: Option<Color>, padding: Option<Spacing>, children: Seq<NodeView>) -> NodeView {
    NodeView::Element(ElementView {
        tag: Tag::Table,
        attrs: seq![]
            .push(("align"@, "center"@))
            .push(("role"@, "presentation"@))
            .push(("cellpadding"@, "0"@))
            .push(("cellspacing"@, "0"@))
            .push(("border"@, "0"@)),
        style: Style {
            max_width: Some(SizeValue::Px(max_width)),
            width: Some(full_width()),
            background_color: background_color,
            ..no_style()
        }@,
        children: seq![NodeView::Element(ElementView {
            tag: Tag::Tbody,
            attrs: seq![],
            style: empty_style(),
            children: seq![NodeView::Element(ElementView {
                tag: Tag::Tr,
                attrs: seq![],
                style: empty_style(),
                children: seq![NodeView::Element(ElementView {
                    tag: Tag::Td,
                    attrs: seq![],
                    style: Style { padding: padding, ..no_style() }@,
                    children: children,
                })],
            })],
        })],
    })
}

impl Container {
    /// Create a new Container with a default max-width of 600px.
    pub fn new() -> (c: Container)
        ensures
            c.max_width == Px(600),
            c.background_color is None,
            c.padding is None,
            c.children@.len() == 0,
    {
        Container { max_width: Px(600), background_color: None, padding: None, children: Vec::new() }
    }

    /// Set the max-width.
    pub fn max_width(self, max_width: Px) -> (r: Container)
        ensures
            r == (Container { max_width: max_width, ..self }),
    {
        Container { max_width: max_width, ..self }
    }

    /// Set the background color.
    pub fn background(self, color: Color) -> (r: Container)
        ensures
            r == (Container { background_color: Some(color), ..self }),
    {
        Container { background_color: Some(color), ..self }
    }

    /// Set padding.
    pub fn padding(self, padding: Spacing) -> (r: Container)
        ensures
            r == (Container { padding: Some(padding), ..self }),
    {
        Container { padding: Some(padding), ..self }
    }

    /// Add a child component.
    pub fn child<C: Component>(self, child: C) -> (r: Container)
        ensures
            r == (Container { children: r.children, ..self }),
            r.children@.len() == self.children@.len() + 1,
            r.children@.drop_last() == self.children@,
            child.obeys_render_spec() ==> nodes_view(r.children@) == nodes_view(self.children@).push(child.spec_render()),
    {
        let ghost before = self.children@;
        let mut r = self;
        let n = child.render();
        proof {
            lemma_nodes_view_push(r.children@, n);
        }
        r.children.push(n);
        assert(r.children@.drop_last() =~= before);
        r
    }

    /// Add a raw Node as a child.
    pub fn child_node(self, node: Node) -> (r: Container)
        ensures
            r == (Container { children: r.children, ..self }),
            r.children@ == self.children@.push(node),
    {
        let mut r = self;
        r.children.push(node);
        r
    }

    /// Add multiple children.
    pub fn children(self, children: Vec<Node>) -> (r: Container)
        ensures
            r == (Container { children: r.children, ..self }),
            r.children@ == self.children@ + children@,
    {
        let mut r = self;
        let mut more = children;
        r.children.append(&mut more);
        r
    }

    /// Convert this component into a Node.
    pub fn into_node(self) -> (n: Node)
        ensures
            n@ == self.spec_render(),
    {
        self.render()
    }
}

impl Default for Container {
    fn default() -> (c: Container)
        ensures
            c.max_width == Px(600),
            c.children@.len() == 0,
    {
        Container::new()
    }
}

impl Component for Container {
    open spec fn obeys_render_spec(&self) -> bool {
        true
    }

    open spec fn spec_render(&self) -> NodeView {
        container_view(self.max_width, self.background_color, self.padding, nodes_view(self.children@))
    }

    fn render(&self) -> (n: Node) {
        let mut td_style = Style::new();
        td_style.padding = self.padding;
        let mut table_style = Style::new();
        table_style.max_width = Some(SizeValue::Px(self.max_width));
        table_style.width = Some(SizeValue::Percent(Percent(Decimal::new(100, 0))));
        table_style.background_color = clone_opt_color(&self.background_color);
        let td = Element::new(Tag::Td).style(td_style).children(clone_nodes(&self.children));
        let tr = Element::new(Tag::Tr).child(Node::Element(td));
        let tbody = Element::new(Tag::Tbody).child(Node::Element(tr));
        Node::Element(
            Element::new(Tag::Table)
                .attr("align", "center")
                .attr("role", "presentation")
                .attr("cellpadding", "0")
                .attr("cellspacing", "0")
                .attr("border", "0")
                .style(table_style)
                .child(Node::Element(tbody)),
        )
    }
}

} // verus!
