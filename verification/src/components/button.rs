//! Call-to-action button using a table-based layout for Outlook compatibility.

use vstd::prelude::*;
use crate::text::string_of;
use crate::email_core::color::{Color, strip_hash};
use crate::email_core::component::Component;
use crate::email_core::node::{Element, ElementView, Node, NodeView, Tag};
use crate::email_core::spacing::Spacing;
use crate::email_core::style::{font_family_css, lemma_style_views_agree, Style, no_style, empty_style, clone_opt_ff};
use crate::email_core::types::{Display, FontFamily, FontWeight, Px, TextAlign, TextDecoration};

verus! {

/// A call-to-action button.
///
/// Uses a table-based layout so the padded, colored cell renders in
/// Outlook; the label is a link that opens in a new window.
pub struct Button {
    pub href: String,
    pub label: String,
    pub background_color: Color,
    pub text_color: Color,
    pub border_radius: Px,
    pub padding: Spacing,
    pub font_size: Px,
    pub font_weight: FontWeight,
    pub font_family: Option<FontFamily>,
    pub text_align: Option<TextAlign>,
}

impl Button {
    /// Create a new Button: black background, white text, 4px radius,
    /// 12px/20px padding, 14px semi-bold sans-serif label.
    pub fn new(href: &str, label: &str) -> (b: Button)
        ensures
            b.href@ == href@,
            b.label@ == label@,
            b.background_color matches Color::Hex(h) && h@ == "000000"@,
            b.text_color matches Color::Hex(h) && h@ == "ffffff"@,
            b.border_radius == Px(4),
            b.padding == (Spacing { top: Px(12), right: Px(20), bottom: Px(12), left: Px(20) }),
            b.font_size == Px(14),
            b.font_weight == FontWeight::SemiBold,
            b.font_family == Some(FontFamily::SansSerif),
            b.text_align is None,
    {
        let background_color = Color::hex("000000");
        let text_color = Color::hex("ffffff");
        proof {
            reveal_strlit("000000");
            reveal_strlit("ffffff");
            assert(strip_hash("000000"@) == "000000"@);
            assert(strip_hash("ffffff"@) == "ffffff"@);
        }
        Button {
            href: string_of(href),
            label: string_of(label),
            background_color,
            text_color,
            border_radius: Px(4),
            padding: Spacing::xy(Px(12), Px(20)),
            font_size: Px(14),
            font_weight: FontWeight::SemiBold,
            font_family: Some(FontFamily::SansSerif),
            text_align: None,
        }
    }

    /// Set the background color.
    pub fn background(self, color: Color) -> (b: Button)
        ensures
            b == (Button { background_color: color, ..self }),
    {
        Button { background_color: color, ..self }
    }

    /// Set the text color.
    pub fn text_color(self, color: Color) -> (b: Button)
        ensures
            b == (Button { text_color: color, ..self }),
    {
        Button { text_color: color, ..self }
    }

    /// Set the border radius.
    pub fn border_radius(self, radius: Px) -> (b: Button)
        ensures
            b == (Button { border_radius: radius, ..self }),
    {
        Button { border_radius: radius, ..self }
    }

    /// Set the padding.
    pub fn padding(self, padding: Spacing) -> (b: Button)
        ensures
            b == (Button { padding: padding, ..self }),
    {
        Button { padding: padding, ..self }
    }

    /// Set the font size.
    pub fn font_size(self, size: Px) -> (b: Button)
        ensures
            b == (Button { font_size: size, ..self }),
    {
        Button { font_size: size, ..self }
    }

    /// Set the font weight.
    pub fn font_weight(self, weight: FontWeight) -> (b: Button)
        ensures
            b == (Button { font_weight: weight, ..self }),
    {
        Button { font_weight: weight, ..self }
    }

    /// Set the font family.
    pub fn font_family(self, family: FontFamily) -> (b: Button)
        ensures
            b == (Button { font_family: Some(family), ..self }),
    {
        Button { font_family: Some(family), ..self }
    }

    /// Set the alignment of the button within its container.
    pub fn text_align(self, align: TextAlign) -> (b: Button)
        ensures
            b == (Button { text_align: Some(align), ..self }),
    {
        Button { text_align: Some(align), ..self }
    }

    /// Convert this component into a Node.
    pub fn into_node(self) -> (n: Node)
        ensures
            n@ == self.spec_render(),
    {
        self.render()
    }
}

impl Default for Button {
    fn default() -> (b: Button)
        ensures
            b.href@ == Seq::<char>::empty(),
            b.label@ == Seq::<char>::empty(),
            b.border_radius == Px(4),
            b.font_size == Px(14),
            b.font_weight == FontWeight::SemiBold,
            b.text_align is None,
    {
        let b = Button::new("", "");
        proof {
            reveal_strlit("");
        }
        b
    }
}

impl Component for Button {
    open spec fn obeys_render_spec(&self) -> bool {
        true
    }

    open spec fn spec_render(&self) -> NodeView {
        let link = NodeView::Element(ElementView {
            tag: Tag::A,
            attrs: seq![].push(("href"@, self.href@)).push(("target"@, "_blank"@)),
            style: Style {
                color: Some(self.text_color),
                font_size: Some(self.font_size),
                font_weight: Some(self.font_weight),
                font_family: self.font_family,
                text_decoration: Some(TextDecoration::NoDecoration),
                display: Some(Display::InlineBlock),
                ..no_style()
            }@,
            children: seq![NodeView::Text(self.label@)],
        });
        let td = NodeView::Element(ElementView {
            tag: Tag::Td,
            attrs: seq![],
            style: Style {
                background_color: Some(self.background_color),
                border_radius: Some(self.border_radius),
                padding: Some(self.padding),
                text_align: Some(TextAlign::Center),
                ..no_style()
            }@,
            children: seq![link],
        });
        let tr = NodeView::Element(
            ElementView { tag: Tag::Tr, attrs: seq![], style: empty_style(), children: seq![td] },
        );
        let tbody = NodeView::Element(
            ElementView { tag: Tag::Tbody, attrs: seq![], style: empty_style(), children: seq![tr] },
        );
        NodeView::Element(ElementView {
            tag: Tag::Table,
            attrs: seq![]
                .push(("role"@, "presentation"@))
                .push(("cellpadding"@, "0"@))
                .push(("cellspacing"@, "0"@))
                .push(("border"@, "0"@)),
            style: Style { text_align: self.text_align, ..no_style() }@,
            children: seq![tbody],
        })
    }

    fn render(&self) -> (n: Node) {
        let mut td_style = Style::new();
        td_style.background_color = Some(self.background_color.clone());
        td_style.border_radius = Some(self.border_radius);
        td_style.padding = Some(self.padding);
        td_style.text_align = Some(TextAlign::Center);

        let mut a_style = Style::new();
        a_style.color = Some(self.text_color.clone());
        a_style.font_size = Some(self.font_size);
        a_style.font_weight = Some(self.font_weight);
        a_style.font_family = clone_opt_ff(&self.font_family);
        a_style.text_decoration = Some(TextDecoration::NoDecoration);
        a_style.display = Some(Display::InlineBlock);

        let link = Element::new(Tag::A)
            .attr("href", self.href.as_str())
            .attr("target", "_blank")
            .style(a_style)
            .child(Node::text(self.label.as_str()));

        let mut table_style = Style::new();
        table_style.text_align = self.text_align;

        let td = Element::new(Tag::Td).style(td_style).child(Node::Element(link));
        let tr = Element::new(Tag::Tr).child(Node::Element(td));
        let tbody = Element::new(Tag::Tbody).child(Node::Element(tr));
        Node::Element(
            Element::new(Tag::Table)
                .attr("role", "presentation")
                .attr("cellpadding", "0")
                .attr("cellspacing", "0")
                .attr("border", "0")
                .style(table_style)
                .child(Node::Element(tbody)),
        )
    }
}

/// Two buttons render alike when their links and labels have the same
/// characters, their colors and font families the same CSS, and their
/// other settings agree.
pub proof fn lemma_button_render_same(a: Button, b: Button)
    requires
        a.href@ == b.href@,
        a.label@ == b.label@,
        a.background_color.css() == b.background_color.css(),
        a.text_color.css() == b.text_color.css(),
        a.border_radius == b.border_radius,
        a.padding == b.padding,
        a.font_size == b.font_size,
        a.font_weight == b.font_weight,
        font_family_css(a.font_family) == font_family_css(b.font_family),
        a.text_align == b.text_align,
    ensures
        a.spec_render() == b.spec_render(),
{
    lemma_style_views_agree(
        Style {
            color: Some(a.text_color),
            font_size: Some(a.font_size),
            font_weight: Some(a.font_weight),
            font_family: a.font_family,
            text_decoration: Some(TextDecoration::NoDecoration),
            display: Some(Display::InlineBlock),
            ..no_style()
        },
        Style {
            color: Some(b.text_color),
            font_size: Some(b.font_size),
            font_weight: Some(b.font_weight),
            font_family: b.font_family,
            text_decoration: Some(TextDecoration::NoDecoration),
            display: Some(Display::InlineBlock),
            ..no_style()
        },
    );
    lemma_style_views_agree(
        Style {
            background_color: Some(a.background_color),
            border_radius: Some(a.border_radius),
            padding: Some(a.padding),
            text_align: Some(TextAlign::Center),
            ..no_style()
        },
        Style {
            background_color: Some(b.background_color),
            border_radius: Some(b.border_radius),
            padding: Some(b.padding),
            text_align: Some(TextAlign::Center),
            ..no_style()
        },
    );
    assert(seq![].push(("href"@, a.href@)).push(("target"@, "_blank"@)) =~= seq![].push(("href"@, b.href@)).push(("target"@, "_blank"@)));
    assert(seq![NodeView::Text(a.label@)] =~= seq![NodeView::Text(b.label@)]);
}

} // verus!
