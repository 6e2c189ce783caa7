//! Horizontal rule divider component.

use vstd::prelude::*;
use crate::email_core::color::{Color, strip_hash};
use crate::email_core::component::Component;
use crate::email_core::decimal::Decimal;
use crate::email_core::node::{Element, ElementView, Node, NodeView, Tag};
use crate::email_core::spacing::Spacing;
use crate::email_core::style::{color_css, lemma_style_views_agree, Border, Style, no_style};
use crate::email_core::types::{BorderStyle, Percent, Px, SizeValue};

verus! {

/// A horizontal divider line.
///
/// Drawn as a 1px top border (with all other borders removed) so it looks
/// the same across email clients.
pub struct Hr {
    pub color: Option<Color>,
    pub width: Option<SizeValue>,
    pub margin: Option<Spacing>,
    pub border_style: BorderStyle,
}

impl Hr {
    /// Create a new Hr: `#eaeaea`, full width, 16px vertical margin, solid.
    pub fn new() -> (h: Hr)
        ensures
            h.color matches Some(Color::Hex(c)) && c@ == "eaeaea"@,
            h.width == Some(SizeValue::Percent(Percent(Decimal { units: 100, scale: 0 }))),
            h.margin == Some(Spacing { top: Px(16), right: Px(0), bottom: Px(16), left: Px(0) }),
            h.border_style == BorderStyle::Solid,
    {
        let c = Color::hex("eaeaea");
        proof {
            reveal_strlit("eaeaea");
            assert(strip_hash("eaeaea"@) == "eaeaea"@);
        }
        Hr {
            color: Some(c),
            width: Some(SizeValue::Percent(Percent(Decimal::new(100, 0)))),
            margin: Some(Spacing::xy(Px(16), Px(0))),
            border_style: BorderStyle::Solid,
        }
    }

    /// Set the line color.
    pub fn color(self, color: Color) -> (h: Hr)
        ensures
            h == (Hr { color: Some(color), ..self }),
    {
        Hr { color: Some(color), ..self }
    }

    /// Set the width.
    pub fn width(self, width: SizeValue) -> (h: Hr)
        ensures
            h == (Hr { width: Some(width), ..self }),
    {
        Hr { width: Some(width), ..self }
    }

    /// Set the margin.
    pub fn margin(self, margin: Spacing) -> (h: Hr)
        ensures
            h == (Hr { margin: Some(margin), ..self }),
    {
        Hr { margin: Some(margin), ..self }
    }

    /// Convert this component into a Node.
    pub fn into_node(self) -> (n: Node)
        ensures
            n@ == self.spec_render(),
    {
        self.render()
    }
}

impl Default for Hr {
    fn default() -> (h: Hr)
        ensures
            h.border_style == BorderStyle::Solid,
            h.margin == Some(Spacing { top: Px(16), right: Px(0), bottom: Px(16), left: Px(0) }),
    {
        Hr::new()
    }
}

impl Component for Hr {
    open spec fn obeys_render_spec(&self) -> bool {
        true
    }

    open spec fn spec_render(&self) -> NodeView {
        let base = Style { width: self.width, margin: self.margin, ..no_style() };
        let style = match self.color {
            Some(c) => Style {
                border: Some(Border { width: Px(0), style: BorderStyle::NoBorder, color: Color::Transparent }),
                border_top: Some(Border { width: Px(1), style: self.border_style, color: c }),
                ..base
            },
            None => base,
        };
        NodeView::Element(ElementView { tag: Tag::Hr, attrs: seq![], style: style@, children: seq![] })
    }

    fn render(&self) -> (n: Node) {
        let mut style = Style::new();
        style.width = self.width;
        style.margin = self.margin;
        match &self.color {
            Some(color) => {
                style.border = Some(Border::new(Px(0), BorderStyle::NoBorder, Color::transparent()));
                style.border_top = Some(Border::new(Px(1), self.border_style, color.clone()));
            },
            None => {},
        }
        Node::Element(Element::new(Tag::Hr).style(style))
    }
}

/// Two rules render alike when their colors have the same CSS and their
/// other settings agree.
pub proof fn lemma_hr_render_same(a: Hr, b: Hr)
    requires
        color_css(a.color) == color_css(b.color),
        a.width == b.width,
        a.margin == b.margin,
        a.border_style == b.border_style,
    ensures
        a.spec_render() == b.spec_render(),
{
    let base = Style { width: a.width, margin: a.margin, ..no_style() };
    match (a.color, b.color) {
        (Some(ca), Some(cb)) => {
            lemma_style_views_agree(
                Style {
                    border: Some(Border { width: Px(0), style: BorderStyle::NoBorder, color: Color::Transparent }),
                    border_top: Some(Border { width: Px(1), style: a.border_style, color: ca }),
                    ..base
                },
                Style {
                    border: Some(Border { width: Px(0), style: BorderStyle::NoBorder, color: Color::Transparent }),
                    border_top: Some(Border { width: Px(1), style: b.border_style, color: cb }),
                    ..base
                },
            );
        },
        _ => {},
    }
}

} // verus!
