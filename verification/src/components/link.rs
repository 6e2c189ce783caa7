//! Link (anchor) component.

use vstd::prelude::*;
use crate::text::string_of;
use crate::email_core::color::{Color, strip_hash};
use crate::email_core::component::Component;
use crate::email_core::node::{Element, ElementView, Node, NodeView, Tag};
use crate::email_core::style::{color_css, lemma_style_views_agree, Style, no_style, clone_opt_color};
use crate::email_core::types::{FontWeight, Px, TextDecoration};

verus! {

/// A hyperlink (`<a>` element); opens in a new window by default.
pub struct Link {
    pub href: String,
    pub text: String,
    pub color: Option<Color>,
    pub font_size: Option<Px>,
    pub font_weight: Option<FontWeight>,
    pub text_decoration: Option<TextDecoration>,
    pub target: String,
}

impl Link {
    /// Create a new Link: `#067df7`, underlined, target `_blank`.
    pub fn new(href: &str, text: &str) -> (l: Link)
        ensures
            l.href@ == href@,
            l.text@ == text@,
            l.color matches Some(Color::Hex(c)) && c@ == "067df7"@,
            l.font_size is None,
            l.font_weight is None,
            l.text_decoration == Some(TextDecoration::Underline),
            l.target@ == "_blank"@,
    {
        let c = Color::hex("067df7");
        proof {
            reveal_strlit("067df7");
            assert(strip_hash("067df7"@) == "067df7"@);
        }
        Link {
            href: string_of(href),
            text: string_of(text),
            color: Some(c),
            font_size: None,
            font_weight: None,
            text_decoration: Some(TextDecoration::Underline),
            target: string_of("_blank"),
        }
    }

    /// Set the link color.
    pub fn color(self, color: Color) -> (l: Link)
        ensures
            l == (Link { color: Some(color), ..self }),
    {
        Link { color: Some(color), ..self }
    }

    /// Set the font size.
    pub fn font_size(self, size: Px) -> (l: Link)
        ensures
            l == (Link { font_size: Some(size), ..self }),
    {
        Link { font_size: Some(size), ..self }
    }

    /// Set the font weight.
    pub fn font_weight(self, weight: FontWeight) -> (l: Link)
        ensures
            l == (Link { font_weight: Some(weight), ..self }),
    {
        Link { font_weight: Some(weight), ..self }
    }

    /// Set the text decoration.
    pub fn text_decoration(self, decoration: TextDecoration) -> (l: Link)
        ensures
            l == (Link { text_decoration: Some(decoration), ..self }),
    {
        Link { text_decoration: Some(decoration), ..self }
    }

    /// Set the target window (e.g. `_self`).
    pub fn target(self, target: &str) -> (l: Link)
        ensures
            l.target@ == target@,
            l == (Link { target: l.target, ..self }),
    {
        Link { target: string_of(target), ..self }
    }

    /// Convert this component into a Node.
    pub fn into_node(self) -> (n: Node)
        ensures
            n@ == self.spec_render(),
    {
        self.render()
    }
}

impl Component for Link {
    open spec fn obeys_render_spec(&self) -> bool {
        true
    }

    open spec fn spec_render(&self) -> NodeView {
        NodeView::Element(ElementView {
            tag: Tag::A,
            attrs: seq![].push(("href"@, self.href@)).push(("target"@, self.target@)),
            style: Style {
                color: self.color,
                font_size: self.font_size,
                font_weight: self.font_weight,
                text_decoration: self.text_decoration,
                ..no_style()
            }@,
            children: seq![NodeView::Text(self.text@)],
        })
    }

    fn render(&self) -> (n: Node) {
        let mut style = Style::new();
        style.color = clone_opt_color(&self.color);
        style.font_size = self.font_size;
        style.font_weight = self.font_weight;
        style.text_decoration = self.text_decoration;
        Node::Element(
            Element::new(Tag::A)
                .attr("href", self.href.as_str())
                .attr("target", self.target.as_str())
                .style(style)
                .child(Node::text(self.text.as_str())),
        )
    }
}

/// Two links render alike when their targets and texts have the same
/// characters, their colors the same CSS, and their other settings agree.
pub proof fn lemma_link_render_same(a: Link, b: Link)
    requires
        a.href@ == b.href@,
        a.text@ == b.text@,
        a.target@ == b.target@,
        color_css(a.color) == color_css(b.color),
        a.font_size == b.font_size,
        a.font_weight == b.font_weight,
        a.text_decoration == b.text_decoration,
    ensures
        a.spec_render() == b.spec_render(),
{
    lemma_style_views_agree(
        Style {
            color: a.color,
            font_size: a.font_size,
            font_weight: a.font_weight,
            text_decoration: a.text_decoration,
            ..no_style()
        },
        Style {
            color: b.color,
            font_size: b.font_size,
            font_weight: b.font_weight,
            text_decoration: b.text_decoration,
            ..no_style()
        },
    );
    assert(seq![].push(("href"@, a.href@)).push(("target"@, a.target@)) =~= seq![].push(("href"@, b.href@)).push(("target"@, b.target@)));
    assert(seq![NodeView::Text(a.text@)] =~= seq![NodeView::Text(b.text@)]);
}

} // verus!
