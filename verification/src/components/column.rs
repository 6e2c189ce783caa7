//! Table column component for multi-column email layouts.

use vstd::prelude::*;
use crate::text::{string_of, nat_text, u64_text};
use crate::email_core::color::Color;
use crate::email_core::component::Component;
use crate::email_core::decimal::Decimal;
use crate::email_core::node::{
    Element, ElementView, Node, NodeView, Tag, nodes_view, clone_nodes, lemma_nodes_view_push,
};
use crate::email_core::spacing::Spacing;
use crate::email_core::style::{Style, no_style, empty_style, clone_opt_color};
use crate::email_core::types::{Px, Percent, SizeValue, TextAlign, VerticalAlign};

verus! {

broadcast use vstd::string::group_string_axioms;

/// A table column within a `Row`.
///
/// Renders as a `<td>` element with configurable width, padding, and
/// alignment; the width is also given as a `width` attribute for Outlook.
pub struct Column {
    pub width: Option<SizeValue>,
    pub padding: Option<Spacing>,
    pub vertical_align: Option<VerticalAlign>,
    pub text_align: Option<TextAlign>,
    pub background_color: Option<Color>,
    pub children: Vec<Node>,
}

/// The `width` and `valign` attributes of a column.
pub open spec fn column_attrs(width: Option<SizeValue>, valign: Option<VerticalAlign>) -> Seq<
    (Seq<char>, Seq<char>),
> {
    let w: Seq<(Seq<char>, Seq<char>)> = match width {
        Some(SizeValue::Px(px)) => seq![("width"@, nat_text(px.0 as nat))],
        Some(SizeValue::Percent(p)) => seq![("width"@, p.css())],
        _ => seq![],
    };
    match valign {
        Some(va) => w.push(("valign"@, va.css())),
        None => w,
    }
}

/// The `<td>` of a column with the given settings and children.
pub open spec fn column_view(
    width: Option<SizeValue>,
    padding: Option<Spacing>,
    vertical_align: Option<VerticalAlign>,
    text_align: Option<TextAlign>,
    background_color: Option<Color>,
    children: Seq<NodeView>,
) -> NodeView {
    NodeView::Element(ElementView {
        tag: Tag::Td,
        attrs: column_attrs(width, vertical_align),
        style: Style {
            width: width,
            padding: padding,
            vertical_align: vertical_align,
            text_align: text_align,
            background_color: background_color,
            ..no_style()
        }@,
        children: children,
    })
}

impl Column {
    /// Create a new Column, top-aligned.
    pub fn new() -> (c: Column)
        ensures
            c.width is None,
            c.padding is None,
            c.vertical_align == Some(VerticalAlign::Top),
            c.text_align is None,
            c.background_color is None,
            c.children@.len() == 0,
    {
        Column {
            width: None,
            padding: None,
            vertical_align: Some(VerticalAlign::Top),
            text_align: None,
            background_color: None,
            children: Vec::new(),
        }
    }

    /// Set the column width.
    pub fn width(self, width: SizeValue) -> (r: Column)
        ensures
            r == (Column { width: Some(width), ..self }),
    {
        Column { width: Some(width), ..self }
    }

    /// Set the column width as a percentage.
    pub fn width_percent(self, pct: Decimal) -> (r: Column)
        ensures
            r == (Column { width: Some(SizeValue::Percent(Percent(pct))), ..self }),
    {
        Column { width: Some(SizeValue::Percent(Percent(pct))), ..self }
    }

    /// Set the column width in pixels.
    pub fn width_px(self, px: u32) -> (r: Column)
        ensures
            r == (Column { width: Some(SizeValue::Px(Px(px))), ..self }),
    {
        Column { width: Some(SizeValue::Px(Px(px))), ..self }
    }

    /// Set padding.
    pub fn padding(self, padding: Spacing) -> (r: Column)
        ensures
            r == (Column { padding: Some(padding), ..self }),
    {
        Column { padding: Some(padding), ..self }
    }

    /// Set vertical alignment.
    pub fn vertical_align(self, vertical_align: VerticalAlign) -> (r: Column)
        ensures
            r == (Column { vertical_align: Some(vertical_align), ..self }),
    {
        Column { vertical_align: Some(vertical_align), ..self }
    }

    /// Set text alignment.
    pub fn text_align(self, text_align: TextAlign) -> (r: Column)
        ensures
            r == (Column { text_align: Some(text_align), ..self }),
    {
        Column { text_align: Some(text_align), ..self }
    }

    /// Set background color.
    pub fn background(self, color: Color) -> (r: Column)
        ensures
            r == (Column { background_color: Some(color), ..self }),
    {
        Column { background_color: Some(color), ..self }
    }

    /// Add a child component.
    pub fn child<C: Component>(self, child: C) -> (r: Column)
        ensures
            r == (Column { children: r.children, ..self }),
            r.children@.len() == self.children@.len() + 1,
            r.children@.drop_last() == self.children@,
            child.obeys_render_spec() ==> nodes_view(r.children@) == nodes_view(self.children@).push(child.spec_render()),
    {
        let ghost before = self.children@;
        let mut r = self;
        let n = child.render();
        proof {
            lemma_nodes_view_push(r.children@, n);
        }
        r.children.push(n);
        assert(r.children@.drop_last() =~= before);
        r
    }

    /// Add a raw Node as a child.
    pub fn child_node(self, node: Node) -> (r: Column)
        ensures
            r == (Column { children: r.children, ..self }),
            r.children@ == self.children@.push(node),
    {
        let mut r = self;
        r.children.push(node);
        r
    }

    /// Add multiple children.
    pub fn children(self, children: Vec<Node>) -> (r: Column)
        ensures
            r == (Column { children: r.children, ..self }),
            r.children@ == self.children@ + children@,
    {
        let mut r = self;
        let mut more = children;
        r.children.append(&mut more);
        r
    }

    /// Convert this component into a Node.
    pub fn into_node(self) -> (n: Node)
        ensures
            n@ == self.spec_render(),
    {
        self.render()
    }
}

impl Default for Column {
    fn default() -> (c: Column)
        ensures
            c.vertical_align == Some(VerticalAlign::Top),
            c.children@.len() == 0,
    {
        Column::new()
    }
}

impl Component for Column {
    open spec fn obeys_render_spec(&self) -> bool {
        true
    }

    open spec fn spec_render(&self) -> NodeView {
        column_view(self.width, self.padding, self.vertical_align, self.text_align, self.background_color, nodes_view(self.children@))
    }

    fn render(&self) -> (n: Node) {
        let mut style = Style::new();
        style.width = self.width;
        style.padding = self.padding;
        style.vertical_align = self.vertical_align;
        style.text_align = self.text_align;
        style.background_color = clone_opt_color(&self.background_color);
        let mut element = Element::new(Tag::Td).style(style);
        match self.width {
            Some(SizeValue::Px(px)) => {
                element = element.attr("width", u64_text(px.0 as u64).as_str());
            },
            Some(SizeValue::Percent(pct)) => {
                element = element.attr("width", pct.to_string().as_str());
            },
            _ => {},
        }
        match self.vertical_align {
            Some(va) => {
                element = element.attr("valign", va.to_string().as_str());
            },
            None => {},
        }
        Node::Element(element.children(clone_nodes(&self.children)))
    }
}

} // verus!
