//! Text/paragraph component with typography props.

use vstd::prelude::*;
use crate::text::string_of;
use crate::email_core::color::Color;
use crate::email_core::component::Component;
use crate::email_core::decimal::Decimal;
use crate::email_core::node::{Element, ElementView, Node, NodeView, Tag};
use crate::email_core::spacing::Spacing;
use crate::email_core::style::{Style, no_style, clone_opt_color, clone_opt_ff, color_css, font_family_css};
use crate::email_core::types::{FontFamily, FontWeight, LineHeight, Px, TextAlign};

verus! {

/// A paragraph of text with typography controls.
///
/// Renders as a `<p>` element with inline styles for font size, color,
/// line height, font weight, and more.
pub struct Text {
    pub content: String,
    pub color: Option<Color>,
    pub font_size: Option<Px>,
    pub font_weight: Option<FontWeight>,
    pub font_family: Option<FontFamily>,
    pub line_height: Option<LineHeight>,
    pub text_align: Option<TextAlign>,
    pub margin: Option<Spacing>,
    pub padding: Option<Spacing>,
}

impl Text {
    /// Create a new Text component with the given content: 14px, line
    /// height 1.5, zero margin.
    pub fn new(content: &str) -> (t: Text)
        ensures
            t.content@ == content@,
            t.color is None,
            t.font_size == Some(Px(14)),
            t.font_weight is None,
            t.font_family is None,
            t.line_height == Some(LineHeight::Multiplier(Decimal { units: 15, scale: 1 })),
            t.text_align is None,
            t.margin == Some(Spacing { top: Px(0), right: Px(0), bottom: Px(0), left: Px(0) }),
            t.padding is None,
    {
        Text {
            content: string_of(content),
            color: None,
            font_size: Some(Px(14)),
            font_weight: None,
            font_family: None,
            line_height: Some(LineHeight::Multiplier(Decimal::new(15, 1))),
            text_align: None,
            margin: Some(Spacing::xy(Px(0), Px(0))),
            padding: None,
        }
    }

    /// Set the text color.
    pub fn color(self, color: Color) -> (t: Text)
        ensures
            t == (Text { color: Some(color), ..self }),
    {
        Text { color: Some(color), ..self }
    }

    /// Set the font size.
    pub fn font_size(self, size: Px) -> (t: Text)
        ensures
            t == (Text { font_size: Some(size), ..self }),
    {
        Text { font_size: Some(size), ..self }
    }

    /// Set the font weight.
    pub fn font_weight(self, weight: FontWeight) -> (t: Text)
        ensures
            t == (Text { font_weight: Some(weight), ..self }),
    {
        Text { font_weight: Some(weight), ..self }
    }

    /// Set the font family.
    pub fn font_family(self, family: FontFamily) -> (t: Text)
        ensures
            t == (Text { font_family: Some(family), ..self }),
    {
        Text { font_family: Some(family), ..self }
    }

    /// Set the line height.
    pub fn line_height(self, height: LineHeight) -> (t: Text)
        ensures
            t == (Text { line_height: Some(height), ..self }),
    {
        Text { line_height: Some(height), ..self }
    }

    /// Set the text alignment.
    pub fn text_align(self, align: TextAlign) -> (t: Text)
        ensures
            t == (Text { text_align: Some(align), ..self }),
    {
        Text { text_align: Some(align), ..self }
    }

    /// Set the margin.
    pub fn margin(self, margin: Spacing) -> (t: Text)
        ensures
            t == (Text { margin: Some(margin), ..self }),
    {
        Text { margin: Some(margin), ..self }
    }

    /// Set the padding.
    pub fn padding(self, padding: Spacing) -> (t: Text)
        ensures
            t == (Text { padding: Some(padding), ..self }),
    {
        Text { padding: Some(padding), ..self }
    }

    /// Convert this component into a Node.
    pub fn into_node(self) -> (n: Node)
        ensures
            n@ == self.spec_render(),
    {
        self.render()
    }
}

impl Component for Text {
    open spec fn obeys_render_spec(&self) -> bool {
        true
    }

    open spec fn spec_render(&self) -> NodeView {
        NodeView::Element(
            ElementView {
                tag: Tag::P,
                attrs: seq![],
                style: Style {
                    color: self.color,
                    font_size: self.font_size,
                    font_weight: self.font_weight,
                    font_family: self.font_family,
                    line_height: self.line_height,
                    text_align: self.text_align,
                    margin: self.margin,
                    padding: self.padding,
                    ..no_style()
                }@,
                children: seq![NodeView::Text(self.content@)],
            },
        )
    }

    fn render(&self) -> (n: Node) {
        let mut style = Style::new();
        style.color = clone_opt_color(&self.color);
        style.font_size = self.font_size;
        style.font_weight = self.font_weight;
        style.font_family = clone_opt_ff(&self.font_family);
        style.line_height = self.line_height;
        style.text_align = self.text_align;
        style.margin = self.margin;
        style.padding = self.padding;
        Node::Element(Element::new(Tag::P).style(style).child(Node::text(self.content.as_str())))
    }
}

/// Two texts render alike when their contents have the same characters,
/// their colors the same CSS, and their other settings agree.
pub proof fn lemma_text_render_same(a: Text, b: Text)
    requires
        a.content@ == b.content@,
        color_css(a.color) == color_css(b.color),
        a.font_size == b.font_size,
        a.font_weight == b.font_weight,
        font_family_css(a.font_family) == font_family_css(b.font_family),
        a.line_height == b.line_height,
        a.text_align == b.text_align,
        a.margin == b.margin,
        a.padding == b.padding,
    ensures
        a.spec_render() == b.spec_render(),
{
    let sa = Style {
        color: a.color,
        font_size: a.font_size,
        font_weight: a.font_weight,
        font_family: a.font_family,
        line_height: a.line_height,
        text_align: a.text_align,
        margin: a.margin,
        padding: a.padding,
        ..no_style()
    };
    let sb = Style {
        color: b.color,
        font_size: b.font_size,
        font_weight: b.font_weight,
        font_family: b.font_family,
        line_height: b.line_height,
        text_align: b.text_align,
        margin: b.margin,
        padding: b.padding,
        ..no_style()
    };
    assert(sa@ =~= sb@);
    assert(seq![NodeView::Text(a.content@)] =~= seq![NodeView::Text(b.content@)]);
}

} // verus!
