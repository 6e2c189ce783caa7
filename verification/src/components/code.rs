//! Code components: an inline code span and a code block.

use vstd::prelude::*;
use crate::text::string_of;
use crate::email_core::color::{Color, strip_hash};
use crate::email_core::component::Component;
use crate::email_core::decimal::Decimal;
use crate::email_core::node::{Element, ElementView, Node, NodeView, Tag};
use crate::email_core::spacing::Spacing;
use crate::email_core::style::{Style, no_style, clone_opt_color};
use crate::email_core::types::{FontFamily, LineHeight, Px};

verus! {

/// Inline code span: monospace text with a light background.
pub struct Code {
    pub content: String,
    pub color: Option<Color>,
    pub background_color: Option<Color>,
    pub font_size: Option<Px>,
    pub border_radius: Option<Px>,
    pub padding: Option<Spacing>,
}

/// `o` is a hex color whose digits are `hex`.
pub open spec fn is_hex_color(o: Option<Color>, hex: Seq<char>) -> bool {
    o matches Some(Color::Hex(h)) && h@ == hex
}

impl Code {
    /// Create a new inline code span: `#f4f4f4` background, 14px, 3px
    /// radius, 2px/4px padding.
    pub fn new(content: &str) -> (c: Code)
        ensures
            c.content@ == content@,
            c.color is None,
            is_hex_color(c.background_color, "f4f4f4"@),
            c.font_size == Some(Px(14)),
            c.border_radius == Some(Px(3)),
            c.padding == Some(Spacing { top: Px(2), right: Px(4), bottom: Px(2), left: Px(4) }),
    {
        let bg = Color::hex("f4f4f4");
        proof {
            reveal_strlit("f4f4f4");
            assert(strip_hash("f4f4f4"@) == "f4f4f4"@);
        }
        Code {
            content: string_of(content),
            color: None,
            background_color: Some(bg),
            font_size: Some(Px(14)),
            border_radius: Some(Px(3)),
            padding: Some(Spacing::xy(Px(2), Px(4))),
        }
    }

    /// Set the text color.
    pub fn color(self, color: Color) -> (c: Code)
        ensures
            c == (Code { color: Some(color), ..self }),
    {
        Code { color: Some(color), ..self }
    }

    /// Set the background color.
    pub fn background(self, color: Color) -> (c: Code)
        ensures
            c == (Code { background_color: Some(color), ..self }),
    {
        Code { background_color: Some(color), ..self }
    }

    /// Set the font size.
    pub fn font_size(self, size: Px) -> (c: Code)
        ensures
            c == (Code { font_size: Some(size), ..self }),
    {
        Code { font_size: Some(size), ..self }
    }

    /// Convert this component into a Node.
    pub fn into_node(self) -> (n: Node)
        ensures
            n@ == self.spec_render(),
    {
        self.render()
    }
}

impl Component for Code {
    open spec fn obeys_render_spec(&self) -> bool {
        true
    }

    open spec fn spec_render(&self) -> NodeView {
        NodeView::Element(ElementView {
            tag: Tag::Code,
            attrs: seq![],
            style: Style {
                font_family: Some(FontFamily::Monospace),
                color: self.color,
                background_color: self.background_color,
                font_size: self.font_size,
                border_radius: self.border_radius,
                padding: self.padding,
                ..no_style()
            }@,
            children: seq![NodeView::Text(self.content@)],
        })
    }

    fn render(&self) -> (n: Node) {
        let mut style = Style::new();
        style.font_family = Some(FontFamily::Monospace);
        style.color = clone_opt_color(&self.color);
        style.background_color = clone_opt_color(&self.background_color);
        style.font_size = self.font_size;
        style.border_radius = self.border_radius;
        style.padding = self.padding;
        Node::Element(Element::new(Tag::Code).style(style).child(Node::text(self.content.as_str())))
    }
}

/// A multi-line code block: a `<pre>` holding a monospace `<code>`.
pub struct CodeBlock {
    pub content: String,
    pub color: Option<Color>,
    pub background_color: Option<Color>,
    pub font_size: Option<Px>,
    pub line_height: Option<LineHeight>,
    pub padding: Option<Spacing>,
    pub border_radius: Option<Px>,
}

impl CodeBlock {
    /// Create a new code block: `#212121` text on `#f4f4f4`, 13px, line
    /// height 1.5, 16px padding, 4px radius.
    pub fn new(content: &str) -> (c: CodeBlock)
        ensures
            c.content@ == content@,
            is_hex_color(c.color, "212121"@),
            is_hex_color(c.background_color, "f4f4f4"@),
            c.font_size == Some(Px(13)),
            c.line_height == Some(LineHeight::Multiplier(Decimal { units: 15, scale: 1 })),
            c.padding == Some(Spacing { top: Px(16), right: Px(16), bottom: Px(16), left: Px(16) }),
            c.border_radius == Some(Px(4)),
    {
        let fg = Color::hex("212121");
        let bg = Color::hex("f4f4f4");
        proof {
            reveal_strlit("212121");
            reveal_strlit("f4f4f4");
            assert(strip_hash("212121"@) == "212121"@);
            assert(strip_hash("f4f4f4"@) == "f4f4f4"@);
        }
        CodeBlock {
            content: string_of(content),
            color: Some(fg),
            background_color: Some(bg),
            font_size: Some(Px(13)),
            line_height: Some(LineHeight::Multiplier(Decimal::new(15, 1))),
            padding: Some(Spacing::all(Px(16))),
            border_radius: Some(Px(4)),
        }
    }

    /// Set the text color.
    pub fn color(self, color: Color) -> (c: CodeBlock)
        ensures
            c == (CodeBlock { color: Some(color), ..self }),
    {
        CodeBlock { color: Some(color), ..self }
    }

    /// Set the background color.
    pub fn background(self, color: Color) -> (c: CodeBlock)
        ensures
            c == (CodeBlock { background_color: Some(color), ..self }),
    {
        CodeBlock { background_color: Some(color), ..self }
    }

    /// Set the font size.
    pub fn font_size(self, size: Px) -> (c: CodeBlock)
        ensures
            c == (CodeBlock { font_size: Some(size), ..self }),
    {
        CodeBlock { font_size: Some(size), ..self }
    }

    /// Set the line height.
    pub fn line_height(self, height: LineHeight) -> (c: CodeBlock)
        ensures
            c == (CodeBlock { line_height: Some(height), ..self }),
    {
        CodeBlock { line_height: Some(height), ..self }
    }

    /// Set the padding.
    pub fn padding(self, padding: Spacing) -> (c: CodeBlock)
        ensures
            c == (CodeBlock { padding: Some(padding), ..self }),
    {
        CodeBlock { padding: Some(padding), ..self }
    }

    /// Convert this component into a Node.
    pub fn into_node(self) -> (n: Node)
        ensures
            n@ == self.spec_render(),
    {
        self.render()
    }
}

impl Component for CodeBlock {
    open spec fn obeys_render_spec(&self) -> bool {
        true
    }

    open spec fn spec_render(&self) -> NodeView {
        let code = NodeView::Element(ElementView {
            tag: Tag::Code,
            attrs: seq![],
            style: Style {
                font_family: Some(FontFamily::Monospace),
                color: self.color,
                font_size: self.font_size,
                line_height: self.line_height,
                ..no_style()
            }@,
            children: seq![NodeView::Text(self.content@)],
        });
        NodeView::Element(ElementView {
            tag: Tag::Pre,
            attrs: seq![],
            style: Style {
                background_color: self.background_color,
                padding: self.padding,
                border_radius: self.border_radius,
                margin: Some(Spacing { top: Px(16), right: Px(0), bottom: Px(16), left: Px(0) }),
                ..no_style()
            }@,
            children: seq![code],
        })
    }

    fn render(&self) -> (n: Node) {
        let mut pre_style = Style::new();
        pre_style.background_color = clone_opt_color(&self.background_color);
        pre_style.padding = self.padding;
        pre_style.border_radius = self.border_radius;
        pre_style.margin = Some(Spacing::xy(Px(16), Px(0)));

        let mut code_style = Style::new();
        code_style.font_family = Some(FontFamily::Monospace);
        code_style.color = clone_opt_color(&self.color);
        code_style.font_size = self.font_size;
        code_style.line_height = self.line_height;

        let code = Element::new(Tag::Code).style(code_style).child(Node::text(self.content.as_str()));
        Node::Element(Element::new(Tag::Pre).style(pre_style).child(Node::Element(code)))
    }
}

} // verus!
