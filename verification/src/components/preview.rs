//! Preview text component: the text shown in email client inbox lists.

use vstd::prelude::*;
use crate::text::string_of;
use crate::email_core::color::{Color, color_with_css};
use crate::email_core::component::Component;
use crate::email_core::decimal::Decimal;
use crate::email_core::node::{Element, ElementView, Node, NodeView, Tag, nodes_view};
use crate::email_core::style::{Style, no_style};
use crate::email_core::types::{Display, LineHeight, Px, SizeValue};
use crate::render::html::{repeat, repeat_str};

verus! {

/// Preview text shown in the inbox list next to the subject.
///
/// Rendered as a hidden `<div>`, followed by a second hidden `<div>` of
/// invisible whitespace so that body content does not leak into the
/// preview line.
pub struct Preview {
    pub text: String,
}

/// One unit of the invisible filler: zero-width non-joiners, no-break
/// spaces and zero-width spaces.
pub open spec fn filler_unit() -> Seq<char> {
    "\u{200C}\u{00A0}\u{200B}\u{200C}\u{00A0}\u{200B}"@
}

/// The inline style of the div that holds the preview text.
pub open spec fn preview_style() -> Seq<char> {
    "display:none;font-size:1px;color:#ffffff;line-height:1;max-height:0;max-width:0;opacity:0;overflow:hidden"@
}

/// The inline style of the filler div.
pub open spec fn filler_style() -> Seq<char> {
    "display:none;max-height:0;overflow:hidden"@
}

impl Preview {
    /// Create a new Preview with the given text.
    pub fn new(text: &str) -> (p: Preview)
        ensures
            p.text@ == text@,
    {
        Preview { text: string_of(text) }
    }

    /// Convert this component into a Node.
    pub fn into_node(self) -> (n: Node)
        ensures
            n@ == self.spec_render(),
    {
        self.render()
    }
}

impl Component for Preview {
    open spec fn obeys_render_spec(&self) -> bool {
        true
    }

    open spec fn spec_render(&self) -> NodeView {
        let text_div = NodeView::Element(ElementView {
            tag: Tag::Div,
            attrs: seq![("style"@, preview_style())],
            style: Style {
                display: Some(Display::NoDisplay),
                font_size: Some(Px(1)),
                color: Some(color_with_css("#ffffff"@)),
                line_height: Some(LineHeight::Multiplier(Decimal { units: 1, scale: 0 })),
                max_width: Some(SizeValue::Px(Px(0))),
                height: Some(SizeValue::Px(Px(0))),
                ..no_style()
            }@,
            children: seq![NodeView::Text(self.text@)],
        });
        let filler_div = NodeView::Element(ElementView {
            tag: Tag::Div,
            attrs: seq![("style"@, filler_style())],
            style: Style {
                display: Some(Display::NoDisplay),
                max_width: Some(SizeValue::Px(Px(0))),
                height: Some(SizeValue::Px(Px(0))),
                ..no_style()
            }@,
            children: seq![NodeView::Text(repeat(filler_unit(), 30))],
        });
        NodeView::Fragment(seq![].push(text_div).push(filler_div))
    }

    fn render(&self) -> (n: Node) {
        let mut text_style = Style::new();
        text_style.display = Some(Display::NoDisplay);
        text_style.font_size = Some(Px(1));
        let white = Color::white();
        proof {
            reveal_strlit("ffffff");
            reveal_strlit("#ffffff");
            assert(white.css() == "#ffffff"@);
        }
        text_style.color = Some(white);
        text_style.line_height = Some(LineHeight::Multiplier(Decimal::new(1, 0)));
        text_style.max_width = Some(SizeValue::Px(Px(0)));
        text_style.height = Some(SizeValue::Px(Px(0)));

        let mut hidden_style = Style::new();
        hidden_style.display = Some(Display::NoDisplay);
        hidden_style.max_width = Some(SizeValue::Px(Px(0)));
        hidden_style.height = Some(SizeValue::Px(Px(0)));

        let filler = repeat_str("\u{200C}\u{00A0}\u{200B}\u{200C}\u{00A0}\u{200B}", 30);

        let text_div = Element::new(Tag::Div)
            .style(text_style)
            .attr(
                "style",
                "display:none;font-size:1px;color:#ffffff;line-height:1;max-height:0;max-width:0;opacity:0;overflow:hidden",
            )
            .child(Node::text(self.text.as_str()));
        let filler_div = Element::new(Tag::Div)
            .style(hidden_style)
            .attr("style", "display:none;max-height:0;overflow:hidden")
            .child(Node::text(filler.as_str()));
        assert(text_style@ == Style {
                display: Some(Display::NoDisplay),
                font_size: Some(Px(1)),
                color: Some(color_with_css("#ffffff"@)),
                line_height: Some(LineHeight::Multiplier(Decimal { units: 1, scale: 0 })),
                max_width: Some(SizeValue::Px(Px(0))),
                height: Some(SizeValue::Px(Px(0))),
                ..no_style()
            }@);
        let mut nodes: Vec<Node> = Vec::new();
        nodes.push(Node::Element(text_div));
        nodes.push(Node::Element(filler_div));
        proof {
            assert(nodes_view(nodes@) =~= seq![].push(nodes@[0]@).push(nodes@[1]@)) by {
                reveal_with_fuel(nodes_view, 3);
            }
        }
        Node::Fragment(nodes)
    }
}

} // verus!
