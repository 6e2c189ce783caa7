//! Full-width section component.

use vstd::prelude::*;
use crate::text::{string_of, nat_text, u64_text};
use crate::email_core::color::Color;
use crate::email_core::component::Component;
use crate::email_core::decimal::Decimal;
use crate::email_core::node::{
    Element, ElementView, Node, NodeView, Tag, nodes_view, clone_nodes, lemma_nodes_view_push,
};
use crate::email_core::spacing::Spacing;
use crate::email_core::style::{color_css, lemma_style_views_agree, Style, no_style, empty_style, clone_opt_color};
use crate::email_core::types::{Px, Percent, SizeValue, TextAlign, VerticalAlign};

verus! {

broadcast use vstd::string::group_string_axioms;

use crate::components::container::full_width;

/// A full-width section within an email layout.
///
/// Renders as a full-width table row. Supports background color, padding
/// and text alignment.
pub struct Section {
    pub background_color: Option<Color>,
    pub padding: Option<Spacing>,
    pub text_align: Option<TextAlign>,
    pub children: Vec<Node>,
}

/// The full-width table of a section with the given settings and content.
pub open spec fn section_view(background_color: Option<Color>, padding: Option<Spacing>, text_align: Option<TextAlign>, children: Seq<NodeView>) -> NodeView {
    NodeView::Element(ElementView {
        tag: Tag::Table,
        attrs: seq![]
            .push(("role"@, "presentation"@))
            .push(("cellpadding"@, "0"@))
            .push(("cellspacing"@, "0"@))
            .push(("border"@, "0"@))
            .push(("width"@, "100%"@)),
        style: Style { width: Some(full_width()), ..no_style() }@,
        children: seq![NodeView::Element(ElementView {
            tag: Tag::Tbody,
            attrs: seq![],
            style: empty_style(),
            children: seq![NodeView::Element(ElementView {
                tag: Tag::Tr,
                attrs: seq![],
                style: empty_style(),
                children: seq![NodeView::Element(ElementView {
                    tag: Tag::Td,
                    attrs: seq![],
                    style: Style {
                        background_color: background_color,
                        padding: padding,
                        text_align: text_align,
                        ..no_style()
                    }@,
                    children: children,
                })],
            })],
        })],
    })
}

impl Section {
    /// Create a new, empty Section.
    pub fn new() -> (s: Section)
        ensures
            s.background_color is None,
            s.padding is None,
            s.text_align is None,
            s.children@.len() == 0,
    {
        Section { background_color: None, padding: None, text_align: None, children: Vec::new() }
    }

    /// Set the background color.
    pub fn background(self, color: Color) -> (r: Section)
        ensures
            r == (Section { background_color: Some(color), ..self }),
    {
        Section { background_color: Some(color), ..self }
    }

    /// Set padding.
    pub fn padding(self, padding: Spacing) -> (r: Section)
        ensures
            r == (Section { padding: Some(padding), ..self }),
    {
        Section { padding: Some(padding), ..self }
    }

    /// Set text alignment.
    pub fn text_align(self, text_align: TextAlign) -> (r: Section)
        ensures
            r == (Section { text_align: Some(text_align), ..self }),
    {
        Section { text_align: Some(text_align), ..self }
    }

    /// Add a child component.
    pub fn child<C: Component>(self, child: C) -> (r: Section)
        ensures
            r == (Section { children: r.children, ..self }),
            r.children@.len() == self.children@.len() + 1,
            r.children@.drop_last() == self.children@,
            child.obeys_render_spec() ==> nodes_view(r.children@) == nodes_view(self.children@).push(child.spec_render()),
    {
        let ghost before = self.children@;
        let mut r = self;
        let n = child.render();
        proof {
            lemma_nodes_view_push(r.children@, n);
        }
        r.children.push(n);
        assert(r.children@.drop_last() =~= before);
        r
    }

    /// Add a raw Node as a child.
    pub fn child_node(self, node: Node) -> (r: Section)
        ensures
            r == (Section { children: r.children, ..self }),
            r.children@ == self.children@.push(node),
    {
        let mut r = self;
        r.children.push(node);
        r
    }

    /// Add multiple children.
    pub fn children(self, children: Vec<Node>) -> (r: Section)
        ensures
            r == (Section { children: r.children, ..self }),
            r.children@ == self.children@ + children@,
    {
        let mut r = self;
        let mut more = children;
        r.children.append(&mut more);
        r
    }

    /// Convert this component into a Node.
    pub fn into_node(self) -> (n: Node)
        ensures
            n@ == self.spec_render(),
    {
        self.render()
    }
}

impl Default for Section {
    fn default() -> (s: Section)
        ensures
            s.children@.len() == 0,
    {
        Section::new()
    }
}

impl Component for Section {
    open spec fn obeys_render_spec(&self) -> bool {
        true
    }

    open spec fn spec_render(&self) -> NodeView {
        section_view(self.background_color, self.padding, self.text_align, nodes_view(self.children@))
    }

    fn render(&self) -> (n: Node) {
        let mut td_style = Style::new();
        td_style.background_color = clone_opt_color(&self.background_color);
        td_style.padding = self.padding;
        td_style.text_align = self.text_align;
        let mut table_style = Style::new();
        table_style.width = Some(SizeValue::Percent(Percent(Decimal::new(100, 0))));
        let td = Element::new(Tag::Td).style(td_style).children(clone_nodes(&self.children));
        let tr = Element::new(Tag::Tr).child(Node::Element(td));
        let tbody = Element::new(Tag::Tbody).child(Node::Element(tr));
        Node::Element(
            Element::new(Tag::Table)
                .attr("role", "presentation")
                .attr("cellpadding", "0")
                .attr("cellspacing", "0")
                .attr("border", "0")
                .attr("width", "100%")
                .style(table_style)
                .child(Node::Element(tbody)),
        )
    }
}

/// Sections whose background colors have the same CSS look the same.
pub proof fn lemma_section_view_same(
    b1: Option<Color>,
    b2: Option<Color>,
    padding: Option<Spacing>,
    text_align: Option<TextAlign>,
    children: Seq<NodeView>,
)
    requires
        color_css(b1) == color_css(b2),
    ensures
        section_view(b1, padding, text_align, children) == section_view(b2, padding, text_align, children),
{
    lemma_style_views_agree(
        Style { background_color: b1, padding: padding, text_align: text_align, ..no_style() },
        Style { background_color: b2, padding: padding, text_align: text_align, ..no_style() },
    );
}

} // verus!
