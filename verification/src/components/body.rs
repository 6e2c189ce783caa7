//! The `<body>` component with background color and base styling.

use vstd::prelude::*;
use crate::email_core::color::Color;
use crate::email_core::component::Component;
use crate::email_core::node::{
    Element, ElementView, Node, NodeView, Tag, nodes_view, clone_nodes, lemma_nodes_view_push,
};
use crate::email_core::spacing::Spacing;
use crate::email_core::style::{color_css, lemma_style_views_agree, Style, no_style, clone_opt_color, clone_opt_ff};
use crate::email_core::types::{FontFamily, Px};

verus! {

/// The `<body>` element of an email.
///
/// Supports background color and base font family. All email content
/// goes inside this component.
pub struct Body {
    pub background_color: Option<Color>,
    pub font_family: Option<FontFamily>,
    pub margin: Option<Spacing>,
    pub padding: Option<Spacing>,
    pub children: Vec<Node>,
}

/// The `<body>` element with the given settings and content.
pub open spec fn body_view(background_color: Option<Color>, font_family: Option<FontFamily>, margin: Option<Spacing>, padding: Option<Spacing>, children: Seq<NodeView>) -> NodeView {
    NodeView::Element(
        ElementView {
            tag: Tag::Body,
            attrs: seq![],
            style: Style {
                background_color: background_color,
                font_family: font_family,
                margin: margin,
                padding: padding,
                ..no_style()
            }@,
            children: children,
        },
    )
}

impl Body {
    /// Create a new Body: sans-serif font, zero margin and padding, no children.
    pub fn new() -> (b: Body)
        ensures
            b.background_color is None,
            b.font_family == Some(FontFamily::SansSerif),
            b.margin == Some(Spacing { top: Px(0), right: Px(0), bottom: Px(0), left: Px(0) }),
            b.padding == Some(Spacing { top: Px(0), right: Px(0), bottom: Px(0), left: Px(0) }),
            b.children@.len() == 0,
    {
        Body {
            background_color: None,
            font_family: Some(FontFamily::SansSerif),
            margin: Some(Spacing::zero()),
            padding: Some(Spacing::zero()),
            children: Vec::new(),
        }
    }

    /// Set the background color.
    pub fn background(self, color: Color) -> (b: Body)
        ensures
            b == (Body { background_color: Some(color), ..self }),
    {
        Body { background_color: Some(color), ..self }
    }

    /// Set the font family.
    pub fn font_family(self, family: FontFamily) -> (b: Body)
        ensures
            b == (Body { font_family: Some(family), ..self }),
    {
        Body { font_family: Some(family), ..self }
    }

    /// Set margin.
    pub fn margin(self, margin: Spacing) -> (b: Body)
        ensures
            b == (Body { margin: Some(margin), ..self }),
    {
        Body { margin: Some(margin), ..self }
    }

    /// Set padding.
    pub fn padding(self, padding: Spacing) -> (b: Body)
        ensures
            b == (Body { padding: Some(padding), ..self }),
    {
        Body { padding: Some(padding), ..self }
    }

    /// Add a child component.
    pub fn child<C: Component>(self, child: C) -> (b: Body)
        ensures
            b == (Body { children: b.children, ..self }),
            b.children@.len() == self.children@.len() + 1,
            b.children@.drop_last() == self.children@,
            child.obeys_render_spec() ==> nodes_view(b.children@) == nodes_view(self.children@).push(child.spec_render()),
    {
        let ghost before = self.children@;
        let mut b = self;
        let n = child.render();
        proof {
            lemma_nodes_view_push(b.children@, n);
        }
        b.children.push(n);
        assert(b.children@.drop_last() =~= before);
        b
    }

    /// Add a raw Node as a child.
    pub fn child_node(self, node: Node) -> (b: Body)
        ensures
            b == (Body { children: b.children, ..self }),
            b.children@ == self.children@.push(node),
    {
        let mut b = self;
        b.children.push(node);
        b
    }

    /// Add multiple children.
    pub fn children(self, children: Vec<Node>) -> (b: Body)
        ensures
            b == (Body { children: b.children, ..self }),
            b.children@ == self.children@ + children@,
    {
        let mut b = self;
        let mut more = children;
        b.children.append(&mut more);
        b
    }

    /// Convert this component into a Node.
    pub fn into_node(self) -> (n: Node)
        ensures
            n@ == self.spec_render(),
    {
        self.render()
    }
}

impl Default for Body {
    fn default() -> (b: Body)
        ensures
            b.background_color is None,
            b.font_family == Some(FontFamily::SansSerif),
            b.children@.len() == 0,
    {
        Body::new()
    }
}

impl Component for Body {
    open spec fn obeys_render_spec(&self) -> bool {
        true
    }

    open spec fn spec_render(&self) -> NodeView {
        body_view(self.background_color, self.font_family, self.margin, self.padding, nodes_view(self.children@))
    }

    fn render(&self) -> (n: Node) {
        let mut style = Style::new();
        style.background_color = clone_opt_color(&self.background_color);
        style.font_family = clone_opt_ff(&self.font_family);
        style.margin = self.margin;
        style.padding = self.padding;
        Node::Element(Element::new(Tag::Body).style(style).children(clone_nodes(&self.children)))
    }
}

/// Bodies whose background colors have the same CSS look the same.
pub proof fn lemma_body_view_same(
    b1: Option<Color>,
    b2: Option<Color>,
    font_family: Option<FontFamily>,
    margin: Option<Spacing>,
    padding: Option<Spacing>,
    children: Seq<NodeView>,
)
    requires
        color_css(b1) == color_css(b2),
    ensures
        body_view(b1, font_family, margin, padding, children) == body_view(b2, font_family, margin, padding, children),
{
    lemma_style_views_agree(
        Style { background_color: b1, font_family: font_family, margin: margin, padding: padding, ..no_style() },
        Style { background_color: b2, font_family: font_family, margin: margin, padding: padding, ..no_style() },
    );
}

} // verus!
