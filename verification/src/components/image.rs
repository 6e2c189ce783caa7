//! Image component with required alt text and width.

use vstd::prelude::*;
use crate::text::{string_of, nat_text, u64_text};
use crate::email_core::component::Component;
use crate::email_core::node::{Element, ElementView, Node, NodeView, Tag};
use crate::email_core::style::{border_css, lemma_style_views_agree, Border, Style, no_style, clone_opt_border};
use crate::email_core::types::{Display, Px, SizeValue};

verus! {

/// An image (`<img>` element).
///
/// The width is required for email-client compatibility; it is given both
/// as a style and as a `width` attribute, and likewise the height when set.
pub struct Image {
    pub src: String,
    pub alt: String,
    pub width: Px,
    pub height: Option<Px>,
    pub border: Option<Border>,
    pub border_radius: Option<Px>,
    pub display: Option<Display>,
}

impl Image {
    /// Create a new Image, displayed as a block.
    pub fn new(src: &str, alt: &str, width: Px) -> (i: Image)
        ensures
            i.src@ == src@,
            i.alt@ == alt@,
            i.width == width,
            i.height is None,
            i.border is None,
            i.border_radius is None,
            i.display == Some(Display::Block),
    {
        Image {
            src: string_of(src),
            alt: string_of(alt),
            width,
            height: None,
            border: None,
            border_radius: None,
            display: Some(Display::Block),
        }
    }

    /// Set the height.
    pub fn height(self, height: Px) -> (i: Image)
        ensures
            i == (Image { height: Some(height), ..self }),
    {
        Image { height: Some(height), ..self }
    }

    /// Set the border.
    pub fn border(self, border: Border) -> (i: Image)
        ensures
            i == (Image { border: Some(border), ..self }),
    {
        Image { border: Some(border), ..self }
    }

    /// Set the border radius.
    pub fn border_radius(self, radius: Px) -> (i: Image)
        ensures
            i == (Image { border_radius: Some(radius), ..self }),
    {
        Image { border_radius: Some(radius), ..self }
    }

    /// Set the display mode.
    pub fn display(self, display: Display) -> (i: Image)
        ensures
            i == (Image { display: Some(display), ..self }),
    {
        Image { display: Some(display), ..self }
    }

    /// Convert this component into a Node.
    pub fn into_node(self) -> (n: Node)
        ensures
            n@ == self.spec_render(),
    {
        self.render()
    }
}

impl Component for Image {
    open spec fn obeys_render_spec(&self) -> bool {
        true
    }

    open spec fn spec_render(&self) -> NodeView {
        let attrs = seq![]
            .push(("src"@, self.src@))
            .push(("alt"@, self.alt@))
            .push(("width"@, nat_text(self.width.0 as nat)));
        let height = match self.height {
            Some(h) => Some(SizeValue::Px(h)),
            None => None,
        };
        NodeView::Element(ElementView {
            tag: Tag::Img,
            attrs: match self.height {
                Some(h) => attrs.push(("height"@, nat_text(h.0 as nat))),
                None => attrs,
            },
            style: Style {
                width: Some(SizeValue::Px(self.width)),
                height: height,
                border: self.border,
                border_radius: self.border_radius,
                display: self.display,
                ..no_style()
            }@,
            children: seq![],
        })
    }

    fn render(&self) -> (n: Node) {
        let mut style = Style::new();
        style.width = Some(SizeValue::Px(self.width));
        match self.height {
            Some(h) => {
                style.height = Some(SizeValue::Px(h));
            },
            None => {},
        }
        style.border = clone_opt_border(&self.border);
        style.border_radius = self.border_radius;
        style.display = self.display;
        let width_text = u64_text(self.width.0 as u64);
        let mut element = Element::new(Tag::Img)
            .attr("src", self.src.as_str())
            .attr("alt", self.alt.as_str())
            .attr("width", width_text.as_str())
            .style(style);
        match self.height {
            Some(h) => {
                let height_text = u64_text(h.0 as u64);
                element = element.attr("height", height_text.as_str());
            },
            None => {},
        }
        Node::Element(element)
    }
}

/// Two images render alike when their sources and alt texts have the same
/// characters, their borders the same CSS, and their other settings agree.
pub proof fn lemma_image_render_same(a: Image, b: Image)
    requires
        a.src@ == b.src@,
        a.alt@ == b.alt@,
        a.width == b.width,
        a.height == b.height,
        border_css(a.border) == border_css(b.border),
        a.border_radius == b.border_radius,
        a.display == b.display,
    ensures
        a.spec_render() == b.spec_render(),
{
    let height = match a.height {
        Some(h) => Some(SizeValue::Px(h)),
        None => None,
    };
    lemma_style_views_agree(
        Style {
            width: Some(SizeValue::Px(a.width)),
            height: height,
            border: a.border,
            border_radius: a.border_radius,
            display: a.display,
            ..no_style()
        },
        Style {
            width: Some(SizeValue::Px(b.width)),
            height: height,
            border: b.border,
            border_radius: b.border_radius,
            display: b.display,
            ..no_style()
        },
    );
    let attrs_a = seq![].push(("src"@, a.src@)).push(("alt"@, a.alt@)).push(("width"@, nat_text(a.width.0 as nat)));
    let attrs_b = seq![].push(("src"@, b.src@)).push(("alt"@, b.alt@)).push(("width"@, nat_text(b.width.0 as nat)));
    assert(attrs_a =~= attrs_b);
}

} // verus!
