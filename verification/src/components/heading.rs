//! Heading component (H1-H6) with per-level size presets.

use vstd::prelude::*;
use crate::text::string_of;
use crate::email_core::color::Color;
use crate::email_core::component::Component;
use crate::email_core::decimal::Decimal;
use crate::email_core::node::{Element, ElementView, Node, NodeView, Tag};
use crate::email_core::spacing::Spacing;
use crate::email_core::style::{color_css, font_family_css, lemma_style_views_agree, Style, no_style, clone_opt_color, clone_opt_ff};
use crate::email_core::types::{FontFamily, FontWeight, HeadingLevel, LineHeight, Px, TextAlign};

verus! {

/// A heading element (`<h1>` through `<h6>`).
///
/// Without an explicit font size, the level's default size is used.
pub struct Heading {
    pub level: HeadingLevel,
    pub content: String,
    pub color: Option<Color>,
    pub font_size: Option<Px>,
    pub font_weight: Option<FontWeight>,
    pub font_family: Option<FontFamily>,
    pub line_height: Option<LineHeight>,
    pub text_align: Option<TextAlign>,
    pub margin: Option<Spacing>,
}

/// The element tag of a heading level.
pub open spec fn heading_tag(level: HeadingLevel) -> Tag {
    match level {
        HeadingLevel::H1 => Tag::H1,
        HeadingLevel::H2 => Tag::H2,
        HeadingLevel::H3 => Tag::H3,
        HeadingLevel::H4 => Tag::H4,
        HeadingLevel::H5 => Tag::H5,
        HeadingLevel::H6 => Tag::H6,
    }
}

/// A heading of `level` with `content` and the preset styling.
pub open spec fn heading_of(level: HeadingLevel, content: Seq<char>, h: Heading) -> bool {
    &&& h.level == level
    &&& h.content@ == content
    &&& h.color is None
    &&& h.font_size is None
    &&& h.font_weight == Some(FontWeight::Bold)
    &&& h.font_family is None
    &&& h.line_height == Some(LineHeight::Multiplier(Decimal { units: 13, scale: 1 }))
    &&& h.text_align is None
    &&& h.margin == Some(Spacing { top: Px(16), right: Px(0), bottom: Px(16), left: Px(0) })
}

impl Heading {
    /// Create a new heading: bold, line height 1.3, 16px vertical margin.
    pub fn new(level: HeadingLevel, content: &str) -> (h: Heading)
        ensures
            heading_of(level, content@, h),
    {
        Heading {
            level,
            content: string_of(content),
            color: None,
            font_size: None,
            font_weight: Some(FontWeight::Bold),
            font_family: None,
            line_height: Some(LineHeight::Multiplier(Decimal::new(13, 1))),
            text_align: None,
            margin: Some(Spacing::xy(Px(16), Px(0))),
        }
    }

    /// An `<h1>` heading.
    pub fn h1(content: &str) -> (h: Heading)
        ensures
            heading_of(HeadingLevel::H1, content@, h),
    {
        Heading::new(HeadingLevel::H1, content)
    }

    /// An `<h2>` heading.
    pub fn h2(content: &str) -> (h: Heading)
        ensures
            heading_of(HeadingLevel::H2, content@, h),
    {
        Heading::new(HeadingLevel::H2, content)
    }

    /// An `<h3>` heading.
    pub fn h3(content: &str) -> (h: Heading)
        ensures
            heading_of(HeadingLevel::H3, content@, h),
    {
        Heading::new(HeadingLevel::H3, content)
    }

    /// An `<h4>` heading.
    pub fn h4(content: &str) -> (h: Heading)
        ensures
            heading_of(HeadingLevel::H4, content@, h),
    {
        Heading::new(HeadingLevel::H4, content)
    }

    /// An `<h5>` heading.
    pub fn h5(content: &str) -> (h: Heading)
        ensures
            heading_of(HeadingLevel::H5, content@, h),
    {
        Heading::new(HeadingLevel::H5, content)
    }

    /// An `<h6>` heading.
    pub fn h6(content: &str) -> (h: Heading)
        ensures
            heading_of(HeadingLevel::H6, content@, h),
    {
        Heading::new(HeadingLevel::H6, content)
    }

    /// Set the text color.
    pub fn color(self, color: Color) -> (h: Heading)
        ensures
            h == (Heading { color: Some(color), ..self }),
    {
        Heading { color: Some(color), ..self }
    }

    /// Set the font size, overriding the level default.
    pub fn font_size(self, size: Px) -> (h: Heading)
        ensures
            h == (Heading { font_size: Some(size), ..self }),
    {
        Heading { font_size: Some(size), ..self }
    }

    /// Set the font weight.
    pub fn font_weight(self, weight: FontWeight) -> (h: Heading)
        ensures
            h == (Heading { font_weight: Some(weight), ..self }),
    {
        Heading { font_weight: Some(weight), ..self }
    }

    /// Set the font family.
    pub fn font_family(self, family: FontFamily) -> (h: Heading)
        ensures
            h == (Heading { font_family: Some(family), ..self }),
    {
        Heading { font_family: Some(family), ..self }
    }

    /// Set the line height.
    pub fn line_height(self, height: LineHeight) -> (h: Heading)
        ensures
            h == (Heading { line_height: Some(height), ..self }),
    {
        Heading { line_height: Some(height), ..self }
    }

    /// Set the text alignment.
    pub fn text_align(self, align: TextAlign) -> (h: Heading)
        ensures
            h == (Heading { text_align: Some(align), ..self }),
    {
        Heading { text_align: Some(align), ..self }
    }

    /// Set the margin.
    pub fn margin(self, margin: Spacing) -> (h: Heading)
        ensures
            h == (Heading { margin: Some(margin), ..self }),
    {
        Heading { margin: Some(margin), ..self }
    }

    /// Convert this component into a Node.
    pub fn into_node(self) -> (n: Node)
        ensures
            n@ == self.spec_render(),
    {
        self.render()
    }
}

impl Component for Heading {
    open spec fn obeys_render_spec(&self) -> bool {
        true
    }

    open spec fn spec_render(&self) -> NodeView {
        let size = match self.font_size {
            Some(s) => s,
            None => Px(self.level.spec_default_font_size()),
        };
        NodeView::Element(ElementView {
            tag: heading_tag(self.level),
            attrs: seq![],
            style: Style {
                color: self.color,
                font_size: Some(size),
                font_weight: self.font_weight,
                font_family: self.font_family,
                line_height: self.line_height,
                text_align: self.text_align,
                margin: self.margin,
                ..no_style()
            }@,
            children: seq![NodeView::Text(self.content@)],
        })
    }

    fn render(&self) -> (n: Node) {
        let tag = match self.level {
            HeadingLevel::H1 => Tag::H1,
            HeadingLevel::H2 => Tag::H2,
            HeadingLevel::H3 => Tag::H3,
            HeadingLevel::H4 => Tag::H4,
            HeadingLevel::H5 => Tag::H5,
            HeadingLevel::H6 => Tag::H6,
        };
        let size = match self.font_size {
            Some(s) => s,
            None => self.level.default_font_size(),
        };
        let mut style = Style::new();
        style.color = clone_opt_color(&self.color);
        style.font_size = Some(size);
        style.font_weight = self.font_weight;
        style.font_family = clone_opt_ff(&self.font_family);
        style.line_height = self.line_height;
        style.text_align = self.text_align;
        style.margin = self.margin;
        Node::Element(Element::new(tag).style(style).child(Node::text(self.content.as_str())))
    }
}

/// Two headings render alike when their texts have the same characters,
/// their colors and font families the same CSS, and their other settings
/// agree.
pub proof fn lemma_heading_render_same(a: Heading, b: Heading)
    requires
        a.level == b.level,
        a.content@ == b.content@,
        color_css(a.color) == color_css(b.color),
        a.font_size == b.font_size,
        a.font_weight == b.font_weight,
        font_family_css(a.font_family) == font_family_css(b.font_family),
        a.line_height == b.line_height,
        a.text_align == b.text_align,
        a.margin == b.margin,
    ensures
        a.spec_render() == b.spec_render(),
{
    let size = match a.font_size {
        Some(s) => s,
        None => Px(a.level.spec_default_font_size()),
    };
    lemma_style_views_agree(
        Style {
            color: a.color,
            font_size: Some(size),
            font_weight: a.font_weight,
            font_family: a.font_family,
            line_height: a.line_height,
            text_align: a.text_align,
            margin: a.margin,
            ..no_style()
        },
        Style {
            color: b.color,
            font_size: Some(size),
            font_weight: b.font_weight,
            font_family: b.font_family,
            line_height: b.line_height,
            text_align: b.text_align,
            margin: b.margin,
            ..no_style()
        },
    );
    assert(seq![NodeView::Text(a.content@)] =~= seq![NodeView::Text(b.content@)]);
}

} // verus!
