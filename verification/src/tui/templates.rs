//! Built-in email templates for the dashboard.

use vstd::prelude::*;
use crate::text::{string_of, push_chars};
use crate::email_core::color::Color;
use crate::email_core::component::Component;
use crate::email_core::decimal::Decimal;
use crate::email_core::node::{Node, NodeView};
use crate::email_core::spacing::Spacing;
use crate::email_core::types::{FontWeight, LineHeight, Percent, Px, SizeValue, TextAlign, VerticalAlign};
use crate::email_core::node::{nodes_view, lemma_nodes_view_push};
use crate::email_core::types::{Display, FontFamily, HeadingLevel, BorderStyle, TextDecoration};
use crate::components::text::{Text, lemma_text_render_same};
use crate::components::row::Row;
use crate::components::column::Column;
use crate::components::heading::{Heading, lemma_heading_render_same};
use crate::components::image::{Image, lemma_image_render_same};
use crate::components::button::{Button, lemma_button_render_same};
use crate::components::link::{Link, lemma_link_render_same};
use crate::components::hr::{Hr, lemma_hr_render_same};
use crate::components::spacer::Spacer;
use crate::components::section::{Section, section_view, lemma_section_view_same};
use crate::components::container::{Container, container_view};
use crate::components::body::{Body, body_view, lemma_body_view_same};
use crate::components::head::{Head, head_view};
use crate::components::html::{Html, html_view};

verus! {

broadcast use vstd::string::group_string_axioms;

/// A string holding the text `s`.
pub open spec fn string_with(s: Seq<char>) -> String {
    choose|x: String| x@ == s
}

/// The hex color with digits `h`.
pub open spec fn hex(h: Seq<char>) -> Color {
    Color::Hex(string_with(h))
}

/// `string_with` gives a string with the text of any string.
pub proof fn lemma_string_with(s: String)
    ensures
        string_with(s@)@ == s@,
{
    let w = s;
    assert(w@ == s@);
    assert(exists|x: String| #![trigger x.view()] x.view() == s.view()) by {
        assert(w.view() == s.view());
    }
}

/// The digits of a hex color are found again by `string_with`.
pub proof fn lemma_color_string(c: Option<Color>)
    ensures
        c matches Some(Color::Hex(s)) ==> string_with(s@)@ == s@,
{
    if let Some(Color::Hex(s)) = c {
        lemma_string_with(s);
    }
}

fn hex_color(h: &str) -> (c: Color)
    ensures
        c matches Color::Hex(s) && s@ == h@,
{
    Color::Hex(string_of(h))
}

/// Vertical-only spacing.
pub open spec fn spacing_xy(v: u32, h: u32) -> Spacing {
    Spacing { top: Px(v), right: Px(h), bottom: Px(v), left: Px(h) }
}

/// A label/value text cell of an info row.
pub open spec fn info_text(content: Seq<char>, color: Seq<char>, bold: bool) -> Text {
    Text {
        content: string_with(content),
        color: Some(hex(color)),
        font_size: Some(Px(13)),
        font_weight: if bold { Some(FontWeight::SemiBold) } else { None },
        font_family: None,
        line_height: Some(LineHeight::Multiplier(Decimal { units: 15, scale: 1 })),
        text_align: None,
        margin: Some(spacing_xy(2, 0)),
        padding: None,
    }
}

/// A column of an info row holding one cell.
pub open spec fn info_column(pct: u64, cell: NodeView) -> NodeView {
    crate::components::column::column_view(
        Some(SizeValue::Percent(Percent(Decimal { units: pct, scale: 0 }))),
        Some(spacing_xy(4, 0)),
        Some(VerticalAlign::Top),
        None,
        None,
        seq![cell],
    )
}

/// A two-column row: the label (40%) and the value (60%).
pub open spec fn info_row_view(label: Seq<char>, value: Seq<char>) -> NodeView {
    crate::components::row::row_view(
        seq![]
            .push(info_column(40, info_text(label, "8B6F5E"@, true).spec_render()))
            .push(info_column(60, info_text(value, "2D2A26"@, false).spec_render())),
    )
}

/// A two-column label/value row.
pub fn info_row(label: &str, value: &str) -> (n: Node)
    ensures
        n@ == info_row_view(label@, value@),
{
    let l = Text::new(label)
        .font_weight(FontWeight::SemiBold)
        .color(hex_color("8B6F5E"))
        .font_size(Px(13))
        .margin(Spacing::xy(Px(2), Px(0)));
    let v = Text::new(value)
        .color(hex_color("2D2A26"))
        .font_size(Px(13))
        .margin(Spacing::xy(Px(2), Px(0)));
    proof {
        lemma_string_with(l.content);
        lemma_string_with(v.content);
        lemma_color_string(l.color);
        lemma_color_string(v.color);
        crate::components::text::lemma_text_render_same(l, info_text(label@, "8B6F5E"@, true));
        crate::components::text::lemma_text_render_same(v, info_text(value@, "2D2A26"@, false));
    }
    let ln = l.into_node();
    let vn = v.into_node();
    let left = Column::new().width_percent(Decimal::new(40, 0)).padding(Spacing::xy(Px(4), Px(0))).child_node(ln);
    let right = Column::new().width_percent(Decimal::new(60, 0)).padding(Spacing::xy(Px(4), Px(0))).child_node(vn);
    proof {
        crate::email_core::node::lemma_nodes_view_push(Seq::empty(), ln);
        crate::email_core::node::lemma_nodes_view_push(Seq::empty(), vn);
        assert(left.children@ == Seq::<Node>::empty().push(ln));
        assert(left.spec_render() == info_column(40, info_text(label@, "8B6F5E"@, true).spec_render()));
        assert(right.children@ == Seq::<Node>::empty().push(vn));
        assert(right.spec_render() == info_column(60, info_text(value@, "2D2A26"@, false).spec_render()));
    }
    let row = Row::new().child(left).child(right);
    proof {
        assert(row.spec_render() =~~= info_row_view(label@, value@));
    }
    row.into_node()
}

// ---------------------------------------------------------------------------
// Building blocks shared by the templates
// ---------------------------------------------------------------------------

/// Spacing with the four sides given in CSS order.
pub open spec fn spacing_of(top: u32, right: u32, bottom: u32, left: u32) -> Spacing {
    Spacing { top: Px(top), right: Px(right), bottom: Px(bottom), left: Px(left) }
}

/// The Ferrum Email logo URL.
pub open spec fn ferrum_logo() -> Seq<char> {
    "https://raw.githubusercontent.com/AutomataNexus/FerrumEmail/master/assets/FerrumEmail_logo.PNG"@
}

/// The AutomataNexus logo URL.
pub open spec fn nexus_logo() -> Seq<char> {
    "https://raw.githubusercontent.com/AutomataNexus/FerrumEmail/master/assets/AutomataNexus_Logo.PNG"@
}

/// A logo image, displayed as a block.
pub open spec fn logo_image(src: Seq<char>, alt: Seq<char>, width: u32) -> Image {
    Image {
        src: string_with(src),
        alt: string_with(alt),
        width: Px(width),
        height: None,
        border: None,
        border_radius: None,
        display: Some(Display::Block),
    }
}

/// A paragraph: the text's color, size, weight, line height, alignment
/// and margin.
pub open spec fn paragraph(
    content: Seq<char>,
    color: Seq<char>,
    size: u32,
    weight: Option<FontWeight>,
    line_height: Decimal,
    align: Option<TextAlign>,
    margin: Spacing,
) -> Text {
    Text {
        content: string_with(content),
        color: Some(hex(color)),
        font_size: Some(Px(size)),
        font_weight: weight,
        font_family: None,
        line_height: Some(LineHeight::Multiplier(line_height)),
        text_align: align,
        margin: Some(margin),
        padding: None,
    }
}

/// The centered `<h2>` title of a template.
pub open spec fn title_heading(content: Seq<char>) -> Heading {
    Heading {
        level: HeadingLevel::H2,
        content: string_with(content),
        color: Some(hex("2D2A26"@)),
        font_size: None,
        font_weight: Some(FontWeight::Bold),
        font_family: None,
        line_height: Some(LineHeight::Multiplier(Decimal { units: 13, scale: 1 })),
        text_align: Some(TextAlign::Center),
        margin: Some(spacing_of(0, 0, 16, 0)),
    }
}

/// The call-to-action button of a template.
pub open spec fn cta_button(href: Seq<char>, label: Seq<char>, size: u32) -> Button {
    Button {
        href: string_with(href),
        label: string_with(label),
        background_color: hex("C0582B"@),
        text_color: hex("FFFEFA"@),
        border_radius: Px(6),
        padding: spacing_xy(14, 28),
        font_size: Px(size),
        font_weight: FontWeight::SemiBold,
        font_family: Some(FontFamily::SansSerif),
        text_align: None,
    }
}

/// The light divider of the templates.
pub open spec fn divider() -> Hr {
    Hr {
        color: Some(hex("E8DDD4"@)),
        width: Some(SizeValue::Percent(Percent(Decimal { units: 100, scale: 0 }))),
        margin: Some(spacing_xy(16, 0)),
        border_style: BorderStyle::Solid,
    }
}

/// Vertical space.
pub open spec fn gap(height: u32) -> NodeView {
    Spacer { height: Px(height) }.spec_render()
}

fn push_node(v: &mut Vec<Node>, n: Node)
    ensures
        nodes_view(final(v)@) == nodes_view(old(v)@).push(n@),
{
    proof {
        lemma_nodes_view_push(v@, n);
    }
    v.push(n);
}

fn logo_node(src: &str, alt: &str, width: u32) -> (n: Node)
    ensures
        n@ == logo_image(src@, alt@, width).spec_render(),
{
    let i = Image::new(src, alt, Px(width));
    proof {
        lemma_string_with(i.src);
        lemma_string_with(i.alt);
        lemma_image_render_same(i, logo_image(src@, alt@, width));
    }
    i.into_node()
}

fn paragraph_node(
    content: &str,
    color: &str,
    size: u32,
    weight: Option<FontWeight>,
    line_height: Decimal,
    align: Option<TextAlign>,
    margin: Spacing,
) -> (n: Node)
    ensures
        n@ == paragraph(content@, color@, size, weight, line_height, align, margin).spec_render(),
{
    let mut t = Text::new(content).color(hex_color(color)).font_size(Px(size)).line_height(
        LineHeight::Multiplier(line_height),
    ).margin(margin);
    t.font_weight = weight;
    t.text_align = align;
    proof {
        lemma_string_with(t.content);
        lemma_color_string(t.color);
        lemma_text_render_same(t, paragraph(content@, color@, size, weight, line_height, align, margin));
    }
    t.into_node()
}

fn title_node(content: &str) -> (n: Node)
    ensures
        n@ == title_heading(content@).spec_render(),
{
    let h = Heading::h2(content).color(hex_color("2D2A26")).text_align(TextAlign::Center).margin(
        Spacing::new(Px(0), Px(0), Px(16), Px(0)),
    );
    proof {
        lemma_string_with(h.content);
        lemma_color_string(h.color);
        lemma_heading_render_same(h, title_heading(content@));
    }
    h.into_node()
}

fn cta_node(href: &str, label: &str, size: u32) -> (n: Node)
    ensures
        n@ == cta_button(href@, label@, size).spec_render(),
{
    let b = Button::new(href, label)
        .background(hex_color("C0582B"))
        .text_color(hex_color("FFFEFA"))
        .border_radius(Px(6))
        .font_size(Px(size))
        .padding(Spacing::xy(Px(14), Px(28)));
    proof {
        lemma_string_with(b.href);
        lemma_string_with(b.label);
        lemma_color_string(Some(b.background_color));
        lemma_color_string(Some(b.text_color));
        lemma_button_render_same(b, cta_button(href@, label@, size));
    }
    b.into_node()
}

fn divider_node() -> (n: Node)
    ensures
        n@ == divider().spec_render(),
{
    let h = Hr::new().color(hex_color("E8DDD4"));
    proof {
        lemma_color_string(h.color);
        lemma_hr_render_same(h, divider());
    }
    h.into_node()
}

fn gap_node(height: u32) -> (n: Node)
    ensures
        n@ == gap(height),
{
    Spacer::new(Px(height)).into_node()
}

// ---------------------------------------------------------------------------
// The shell and the footer
// ---------------------------------------------------------------------------

/// The branded footer shared by all templates.
pub open spec fn footer_view() -> NodeView {
    section_view(
        Some(hex("FAF8F5"@)),
        Some(spacing_of(28, 40, 32, 40)),
        Some(TextAlign::Center),
        seq![]
            .push(logo_image(nexus_logo(), "AutomataNexus"@, 140).spec_render())
            .push(gap(14))
            .push(paragraph("Secured by NexusVault"@, "8B6F5E"@, 13, Some(FontWeight::SemiBold), Decimal { units: 15, scale: 1 }, Some(TextAlign::Center), spacing_of(0, 0, 4, 0)).spec_render())
            .push(paragraph("AES-256-GCM Encrypted Credential Storage"@, "A8998C"@, 11, None, Decimal { units: 15, scale: 1 }, Some(TextAlign::Center), spacing_of(0, 0, 16, 0)).spec_render())
            .push(divider().spec_render())
            .push(gap(12))
            .push(paragraph("\u{00A9} 2026 AutomataNexus LLC. All rights reserved."@, "A8998C"@, 11, None, Decimal { units: 15, scale: 1 }, Some(TextAlign::Center), spacing_of(0, 0, 4, 0)).spec_render())
            .push(Link {
                href: string_with("https://automatanexus.com"@),
                text: string_with("automatanexus.com"@),
                color: Some(hex("C0582B"@)),
                font_size: Some(Px(11)),
                font_weight: None,
                text_decoration: Some(TextDecoration::Underline),
                target: string_with("_blank"@),
            }.spec_render()),
    )
}

/// The branded footer (reused across all templates).
pub struct BrandedFooter;

impl Component for BrandedFooter {
    open spec fn obeys_render_spec(&self) -> bool {
        true
    }

    open spec fn spec_render(&self) -> NodeView {
        footer_view()
    }

    fn render(&self) -> (n: Node) {
        let mut children: Vec<Node> = Vec::new();
        proof {
            assert(nodes_view(children@) =~= Seq::<NodeView>::empty());
        }
        push_node(&mut children, logo_node("https://raw.githubusercontent.com/AutomataNexus/FerrumEmail/master/assets/AutomataNexus_Logo.PNG", "AutomataNexus", 140));
        push_node(&mut children, gap_node(14));
        push_node(&mut children, paragraph_node("Secured by NexusVault", "8B6F5E", 13, Some(FontWeight::SemiBold), Decimal::new(15, 1), Some(TextAlign::Center), Spacing::new(Px(0), Px(0), Px(4), Px(0))));
        push_node(&mut children, paragraph_node("AES-256-GCM Encrypted Credential Storage", "A8998C", 11, None, Decimal::new(15, 1), Some(TextAlign::Center), Spacing::new(Px(0), Px(0), Px(16), Px(0))));
        push_node(&mut children, divider_node());
        push_node(&mut children, gap_node(12));
        push_node(&mut children, paragraph_node("\u{00A9} 2026 AutomataNexus LLC. All rights reserved.", "A8998C", 11, None, Decimal::new(15, 1), Some(TextAlign::Center), Spacing::new(Px(0), Px(0), Px(4), Px(0))));
        let l = Link::new("https://automatanexus.com", "automatanexus.com").color(hex_color("C0582B")).font_size(Px(11));
        proof {
            lemma_string_with(l.href);
            lemma_string_with(l.text);
            lemma_string_with(l.target);
            lemma_color_string(l.color);
            lemma_link_render_same(l, Link {
                href: string_with("https://automatanexus.com"@),
                text: string_with("automatanexus.com"@),
                color: Some(hex("C0582B"@)),
                font_size: Some(Px(11)),
                font_weight: None,
                text_decoration: Some(TextDecoration::Underline),
                target: string_with("_blank"@),
            });
        }
        push_node(&mut children, l.into_node());
        let c = hex_color("FAF8F5");
        let section = Section::new()
            .padding(Spacing::new(Px(28), Px(40), Px(32), Px(40)))
            .background(c)
            .text_align(TextAlign::Center)
            .children(children);
        proof {
            assert(section.children@ =~= children@);
            lemma_color_string(section.background_color);
            lemma_section_view_same(section.background_color, Some(hex("FAF8F5"@)), section.padding, section.text_align, nodes_view(section.children@));
        }
        section.into_node()
    }
}

/// The layout every template shares: logo header section, body section
/// and footer, in a 600px container on a light background.
pub open spec fn shell_view(header: NodeView, body: Seq<NodeView>, subject: Seq<char>) -> NodeView {
    layout_view(header, body, subject, true)
}

/// The branded layout: logo header section and body section (then the
/// footer, when asked for) in a 600px container on a light background.
pub open spec fn layout_view(header: NodeView, body: Seq<NodeView>, subject: Seq<char>, footer: bool) -> NodeView {
    let sections = seq![]
        .push(section_view(Some(hex("FFFEFA"@)), Some(spacing_of(40, 40, 20, 40)), Some(TextAlign::Center), seq![header]))
        .push(section_view(Some(hex("FFFEFA"@)), Some(spacing_of(0, 40, 32, 40)), None, body));
    html_view(
        "en"@,
        "ltr"@,
        seq![]
            .push(head_view(Some(subject)))
            .push(body_view(
                Some(hex("FAFAF8"@)),
                Some(FontFamily::SansSerif),
                Some(spacing_of(0, 0, 0, 0)),
                Some(spacing_of(0, 0, 0, 0)),
                seq![container_view(
                    Px(600),
                    None,
                    Some(spacing_xy(20, 0)),
                    if footer { sections.push(footer_view()) } else { sections },
                )],
            )),
    )
}

/// Wrap a header and body content in the branded email layout.
pub fn email_shell(header_child: Node, body_children: Vec<Node>, subject: &str) -> (n: Node)
    ensures
        n@ == shell_view(header_child@, nodes_view(body_children@), subject@),
{
    email_layout(header_child, body_children, subject, true)
}

/// Wrap a header and body content in the branded layout, with or without
/// the footer.
fn email_layout(header_child: Node, body_children: Vec<Node>, subject: &str, footer: bool) -> (n: Node)
    ensures
        n@ == layout_view(header_child@, nodes_view(body_children@), subject@, footer),
{
    let ghost hv = header_child@;
    let ghost bv = nodes_view(body_children@);
    let s0 = Section::new()
        .padding(Spacing::new(Px(40), Px(40), Px(20), Px(40)))
        .background(hex_color("FFFEFA"))
        .text_align(TextAlign::Center);
    let head_section = s0.child_node(header_child);
    proof {
        lemma_nodes_view_push(s0.children@, header_child);
        assert(s0.children@ =~= Seq::<Node>::empty());
        assert(nodes_view(s0.children@) =~= Seq::<NodeView>::empty());
        lemma_color_string(head_section.background_color);
        lemma_section_view_same(head_section.background_color, Some(hex("FFFEFA"@)), head_section.padding, head_section.text_align, nodes_view(head_section.children@));
    }
    let body_section = Section::new()
        .padding(Spacing::new(Px(0), Px(40), Px(32), Px(40)))
        .background(hex_color("FFFEFA"))
        .children(body_children);
    proof {
        assert(body_section.children@ =~= body_children@);
        lemma_color_string(body_section.background_color);
        lemma_section_view_same(body_section.background_color, Some(hex("FFFEFA"@)), body_section.padding, body_section.text_align, nodes_view(body_section.children@));
    }
    let hn = head_section.into_node();
    let bn = body_section.into_node();
    let ghost hs = section_view(Some(hex("FFFEFA"@)), Some(spacing_of(40, 40, 20, 40)), Some(TextAlign::Center), seq![hv]);
    let ghost bs = section_view(Some(hex("FFFEFA"@)), Some(spacing_of(0, 40, 32, 40)), None, bv);
    proof {
        assert(nodes_view(head_section.children@) =~= seq![hv]);
        assert(hn@ == hs);
        assert(bn@ == bs);
    }
    let c0 = Container::new().max_width(Px(600)).padding(Spacing::xy(Px(20), Px(0)));
    let c1 = c0.child_node(hn);
    let c2 = c1.child_node(bn);
    proof {
        lemma_nodes_view_push(c0.children@, hn);
        lemma_nodes_view_push(c1.children@, bn);
        assert(nodes_view(c0.children@) =~= Seq::<NodeView>::empty());
        assert(nodes_view(c2.children@) =~= seq![].push(hs).push(bs));
    }
    let ghost sections = seq![].push(hs).push(bs);
    let container = if footer {
        let fnode = BrandedFooter.render();
        proof {
            lemma_nodes_view_push(c2.children@, fnode);
        }
        c2.child_node(fnode)
    } else {
        c2
    };
    let ghost cv = container_view(Px(600), None, Some(spacing_xy(20, 0)), if footer { sections.push(footer_view()) } else { sections });
    proof {
        assert(container.spec_render() == cv);
    }
    let b0 = Body::new().background(hex_color("FAFAF8"));
    let body = b0.child(container);
    proof {
        assert(nodes_view(b0.children@) =~= Seq::<NodeView>::empty());
        assert(nodes_view(body.children@) =~= seq![cv]);
        lemma_color_string(body.background_color);
        lemma_body_view_same(body.background_color, Some(hex("FAFAF8"@)), body.font_family, body.margin, body.padding, nodes_view(body.children@));
    }
    let ghost bodyv = body_view(Some(hex("FAFAF8"@)), Some(FontFamily::SansSerif), Some(spacing_of(0, 0, 0, 0)), Some(spacing_of(0, 0, 0, 0)), seq![cv]);
    proof {
        assert(body.spec_render() == bodyv);
    }
    let head = Head::new().title(subject);
    let h0 = Html::new();
    let h1 = h0.child(head);
    let html = h1.child(body);
    proof {
        assert(nodes_view(h0.children@) =~= Seq::<NodeView>::empty());
        assert(head.spec_render() == head_view(Some(subject@)));
        assert(nodes_view(html.children@) =~= seq![].push(head_view(Some(subject@))).push(bodyv));
        assert(html.spec_render() == layout_view(hv, bv, subject@, footer));
    }
    html.into_node()
}

// ---------------------------------------------------------------------------
// The templates
// ---------------------------------------------------------------------------

/// The Ferrum Email logo header of the templates.
pub open spec fn header_view() -> NodeView {
    logo_image(ferrum_logo(), "Ferrum Email"@, 280).spec_render()
}

fn header_node() -> (n: Node)
    ensures
        n@ == header_view(),
{
    logo_node("https://raw.githubusercontent.com/AutomataNexus/FerrumEmail/master/assets/FerrumEmail_logo.PNG", "Ferrum Email", 280)
}

/// The intro paragraph style of the templates.
pub open spec fn intro(content: Seq<char>) -> NodeView {
    paragraph(content, "4A4540"@, 15, None, Decimal { units: 16, scale: 1 }, None, spacing_of(0, 0, 0, 0)).spec_render()
}

fn intro_node(content: &str) -> (n: Node)
    ensures
        n@ == intro(content@),
{
    paragraph_node(content, "4A4540", 15, None, Decimal::new(16, 1), None, Spacing::zero())
}

/// A closing note.
pub open spec fn note(content: Seq<char>, color: Seq<char>, size: u32, weight: Option<FontWeight>) -> NodeView {
    paragraph(content, color, size, weight, Decimal { units: 15, scale: 1 }, None, spacing_of(0, 0, 0, 0)).spec_render()
}

fn note_node(content: &str, color: &str, size: u32, weight: Option<FontWeight>) -> (n: Node)
    ensures
        n@ == note(content@, color@, size, weight),
{
    paragraph_node(content, color, size, weight, Decimal::new(15, 1), None, Spacing::zero())
}

/// Welcome email with a verify button.
pub struct WelcomeEmail {
    pub name: String,
    pub verify_url: String,
}

/// The body of the welcome email.
pub open spec fn welcome_body(name: Seq<char>, url: Seq<char>) -> Seq<NodeView> {
    seq![]
        .push(title_heading("Welcome, "@ + name + "!"@).spec_render())
        .push(intro("Thanks for joining AutomataNexus. Click below to verify your email address and get started."@))
        .push(gap(24))
        .push(cta_button(url, "Verify Email Address"@, 15).spec_render())
        .push(gap(24))
        .push(note("If you didn't sign up, you can safely ignore this email."@, "A8998C"@, 13, None))
}

impl Component for WelcomeEmail {
    open spec fn obeys_render_spec(&self) -> bool {
        true
    }

    open spec fn spec_render(&self) -> NodeView {
        shell_view(header_view(), welcome_body(self.name@, self.verify_url@), "Welcome to AutomataNexus"@)
    }

    fn render(&self) -> (n: Node) {
        let mut title = String::from_str("Welcome, ");
        title.append(self.name.as_str());
        title.append("!");
        let mut body: Vec<Node> = Vec::new();
        proof {
            assert(nodes_view(body@) =~= Seq::<NodeView>::empty());
        }
        push_node(&mut body, title_node(title.as_str()));
        push_node(&mut body, intro_node("Thanks for joining AutomataNexus. Click below to verify your email address and get started."));
        push_node(&mut body, gap_node(24));
        push_node(&mut body, cta_node(self.verify_url.as_str(), "Verify Email Address", 15));
        push_node(&mut body, gap_node(24));
        push_node(&mut body, note_node("If you didn't sign up, you can safely ignore this email.", "A8998C", 13, None));
        email_shell(header_node(), body, "Welcome to AutomataNexus")
    }

    fn subject(&self) -> (r: Option<&str>)
        ensures
            r matches Some(s) && s@ == "Welcome to AutomataNexus"@,
    {
        Some("Welcome to AutomataNexus")
    }
}

/// Password reset email with a reset button.
pub struct PasswordResetEmail {
    pub name: String,
    pub reset_url: String,
}

/// The body of the password reset email.
pub open spec fn reset_body(name: Seq<char>, url: Seq<char>) -> Seq<NodeView> {
    seq![]
        .push(title_heading("Password Reset"@).spec_render())
        .push(intro("Hi "@ + name + ", we received a request to reset your password. Click below to choose a new one."@))
        .push(gap(24))
        .push(cta_button(url, "Reset Password"@, 15).spec_render())
        .push(gap(24))
        .push(note("This link expires in 30 minutes. If you didn't request this, ignore this email."@, "A8998C"@, 13, None))
}

impl Component for PasswordResetEmail {
    open spec fn obeys_render_spec(&self) -> bool {
        true
    }

    open spec fn spec_render(&self) -> NodeView {
        shell_view(header_view(), reset_body(self.name@, self.reset_url@), "Reset your password"@)
    }

    fn render(&self) -> (n: Node) {
        let mut intro_text = String::from_str("Hi ");
        intro_text.append(self.name.as_str());
        intro_text.append(", we received a request to reset your password. Click below to choose a new one.");
        let mut body: Vec<Node> = Vec::new();
        proof {
            assert(nodes_view(body@) =~= Seq::<NodeView>::empty());
        }
        push_node(&mut body, title_node("Password Reset"));
        push_node(&mut body, intro_node(intro_text.as_str()));
        push_node(&mut body, gap_node(24));
        push_node(&mut body, cta_node(self.reset_url.as_str(), "Reset Password", 15));
        push_node(&mut body, gap_node(24));
        push_node(&mut body, note_node("This link expires in 30 minutes. If you didn't request this, ignore this email.", "A8998C", 13, None));
        email_shell(header_node(), body, "Reset your password")
    }

    fn subject(&self) -> (r: Option<&str>)
        ensures
            r matches Some(s) && s@ == "Reset your password"@,
    {
        Some("Reset your password")
    }
}

/// New sign-in security alert, with the sign-in's location, device and
/// time.
pub struct SecurityAlertEmail {
    pub name: String,
    pub location: String,
    pub device: String,
    /// When the sign-in happened, as shown in the email.
    pub time: String,
}

/// The body of the security alert email.
pub open spec fn alert_body(name: Seq<char>, location: Seq<char>, device: Seq<char>, time: Seq<char>) -> Seq<NodeView> {
    seq![]
        .push(title_heading("New Sign-In Detected"@).spec_render())
        .push(intro("Hi "@ + name + ", a new sign-in to your account was detected."@))
        .push(gap(16))
        .push(divider().spec_render())
        .push(gap(12))
        .push(info_row_view("Location"@, location))
        .push(info_row_view("Device"@, device))
        .push(info_row_view("Time"@, time))
        .push(gap(20))
        .push(note("If this wasn't you, secure your account immediately."@, "B4463C"@, 14, Some(FontWeight::SemiBold)))
}

impl Component for SecurityAlertEmail {
    open spec fn obeys_render_spec(&self) -> bool {
        true
    }

    open spec fn spec_render(&self) -> NodeView {
        shell_view(
            header_view(),
            alert_body(self.name@, self.location@, self.device@, self.time@),
            "New sign-in to your account"@,
        )
    }

    fn render(&self) -> (n: Node) {
        let mut intro_text = String::from_str("Hi ");
        intro_text.append(self.name.as_str());
        intro_text.append(", a new sign-in to your account was detected.");
        let mut body: Vec<Node> = Vec::new();
        proof {
            assert(nodes_view(body@) =~= Seq::<NodeView>::empty());
        }
        push_node(&mut body, title_node("New Sign-In Detected"));
        push_node(&mut body, intro_node(intro_text.as_str()));
        push_node(&mut body, gap_node(16));
        push_node(&mut body, divider_node());
        push_node(&mut body, gap_node(12));
        push_node(&mut body, info_row("Location", self.location.as_str()));
        push_node(&mut body, info_row("Device", self.device.as_str()));
        push_node(&mut body, info_row("Time", self.time.as_str()));
        push_node(&mut body, gap_node(20));
        push_node(&mut body, note_node("If this wasn't you, secure your account immediately.", "B4463C", 14, Some(FontWeight::SemiBold)));
        email_shell(header_node(), body, "New sign-in to your account")
    }

    fn subject(&self) -> (r: Option<&str>)
        ensures
            r matches Some(s) && s@ == "New sign-in to your account"@,
    {
        Some("New sign-in to your account")
    }
}

/// Framework test email with system information.
pub struct TestEmail {
    pub timestamp: String,
}

/// The body of the test email.
pub open spec fn test_body(timestamp: Seq<char>) -> Seq<NodeView> {
    seq![]
        .push(title_heading("Test Email Sent Successfully"@).spec_render())
        .push(intro("Sent via Ferrum Email's native SMTP provider with STARTTLS. Credentials loaded from NexusVault (AES-256-GCM)."@))
        .push(gap(16))
        .push(divider().spec_render())
        .push(gap(12))
        .push(info_row_view("Framework"@, "Ferrum Email v0.1.0"@))
        .push(info_row_view("Provider"@, "Native SMTP + STARTTLS"@))
        .push(info_row_view("Credentials"@, "NexusVault (AES-256-GCM)"@))
        .push(info_row_view("Sent at"@, timestamp))
        .push(gap(24))
        .push(cta_button("https://github.com/AutomataNexus/FerrumEmail"@, "View on GitHub"@, 14).spec_render())
}

impl Component for TestEmail {
    open spec fn obeys_render_spec(&self) -> bool {
        true
    }

    open spec fn spec_render(&self) -> NodeView {
        shell_view(header_view(), test_body(self.timestamp@), "Ferrum Email \u{2014} Test Send"@)
    }

    fn render(&self) -> (n: Node) {
        let mut body: Vec<Node> = Vec::new();
        proof {
            assert(nodes_view(body@) =~= Seq::<NodeView>::empty());
        }
        push_node(&mut body, title_node("Test Email Sent Successfully"));
        push_node(&mut body, intro_node("Sent via Ferrum Email's native SMTP provider with STARTTLS. Credentials loaded from NexusVault (AES-256-GCM)."));
        push_node(&mut body, gap_node(16));
        push_node(&mut body, divider_node());
        push_node(&mut body, gap_node(12));
        push_node(&mut body, info_row("Framework", "Ferrum Email v0.1.0"));
        push_node(&mut body, info_row("Provider", "Native SMTP + STARTTLS"));
        push_node(&mut body, info_row("Credentials", "NexusVault (AES-256-GCM)"));
        push_node(&mut body, info_row("Sent at", self.timestamp.as_str()));
        push_node(&mut body, gap_node(24));
        push_node(&mut body, cta_node("https://github.com/AutomataNexus/FerrumEmail", "View on GitHub", 14));
        email_shell(header_node(), body, "Ferrum Email \u{2014} Test Send")
    }

    fn subject(&self) -> (r: Option<&str>)
        ensures
            r matches Some(s) && s@ == "Ferrum Email \u{2014} Test Send"@,
    {
        Some("Ferrum Email \u{2014} Test Send")
    }
}

// ---------------------------------------------------------------------------
// The catalogue
// ---------------------------------------------------------------------------

/// Template metadata for display in the dashboard.
pub struct TemplateMeta {
    pub name: &'static str,
    pub description: &'static str,
    pub subject: &'static str,
}

/// The number of built-in templates.
pub open spec fn spec_template_count() -> nat {
    4
}

/// The name, description and subject of template `i`.
pub open spec fn meta_text(i: int) -> (Seq<char>, Seq<char>, Seq<char>) {
    if i == 0 {
        ("Welcome Email"@, "Onboarding welcome with verify button"@, "Welcome to AutomataNexus"@)
    } else if i == 1 {
        ("Password Reset"@, "Password reset with security info"@, "Reset your password"@)
    } else if i == 2 {
        ("Security Alert"@, "New sign-in detected notification"@, "New sign-in to your account"@)
    } else {
        ("Test Email"@, "Framework test with system info"@, "Ferrum Email \u{2014} Test Send"@)
    }
}

/// The number of built-in templates.
pub fn template_count() -> (n: usize)
    ensures
        n == spec_template_count(),
{
    4
}

/// The metadata of template `index`.
pub fn template_meta(index: usize) -> (m: TemplateMeta)
    requires
        index < spec_template_count(),
    ensures
        (m.name@, m.description@, m.subject@) == meta_text(index as int),
{
    if index == 0 {
        TemplateMeta { name: "Welcome Email", description: "Onboarding welcome with verify button", subject: "Welcome to AutomataNexus" }
    } else if index == 1 {
        TemplateMeta { name: "Password Reset", description: "Password reset with security info", subject: "Reset your password" }
    } else if index == 2 {
        TemplateMeta { name: "Security Alert", description: "New sign-in detected notification", subject: "New sign-in to your account" }
    } else {
        TemplateMeta { name: "Test Email", description: "Framework test with system info", subject: "Ferrum Email \u{2014} Test Send" }
    }
}

/// The subject line of a template (that of its catalogue entry).
pub open spec fn template_subject(t: Template) -> Seq<char> {
    match t {
        Template::Welcome(_) => meta_text(0).2,
        Template::PasswordReset(_) => meta_text(1).2,
        Template::SecurityAlert(_) => meta_text(2).2,
        Template::Test(_) => meta_text(3).2,
    }
}

/// One of the built-in templates, ready to render.
pub enum Template {
    Welcome(WelcomeEmail),
    PasswordReset(PasswordResetEmail),
    SecurityAlert(SecurityAlertEmail),
    Test(TestEmail),
}

impl Component for Template {
    open spec fn obeys_render_spec(&self) -> bool {
        true
    }

    open spec fn spec_render(&self) -> NodeView {
        match self {
            Template::Welcome(t) => t.spec_render(),
            Template::PasswordReset(t) => t.spec_render(),
            Template::SecurityAlert(t) => t.spec_render(),
            Template::Test(t) => t.spec_render(),
        }
    }

    fn render(&self) -> (n: Node) {
        match self {
            Template::Welcome(t) => t.render(),
            Template::PasswordReset(t) => t.render(),
            Template::SecurityAlert(t) => t.render(),
            Template::Test(t) => t.render(),
        }
    }

    fn subject(&self) -> (r: Option<&str>)
        ensures
            r matches Some(s) && s@ == template_subject(*self),
    {
        match self {
            Template::Welcome(_) => Some("Welcome to AutomataNexus"),
            Template::PasswordReset(_) => Some("Reset your password"),
            Template::SecurityAlert(_) => Some("New sign-in to your account"),
            Template::Test(_) => Some("Ferrum Email \u{2014} Test Send"),
        }
    }
}

/// The text before the first `@` of an address (all of it when it has
/// none).
pub open spec fn local_part(s: Seq<char>) -> Seq<char>
    decreases s.len(),
{
    if s.len() == 0 || s[0] == '@' {
        seq![]
    } else {
        seq![s[0]] + local_part(s.skip(1))
    }
}

fn local_part_of(s: &str) -> (r: String)
    ensures
        r@ == local_part(s@),
{
    let v = crate::text::chars_of(s);
    let mut i: usize = 0;
    while i < v.len() && v[i] != '@'
        invariant
            i <= v@.len(),
            forall|j: int| 0 <= j < i ==> v@[j] != '@',
        decreases v@.len() - i,
    {
        i = i + 1;
    }
    proof {
        lemma_local_part_at(v@, i as int);
    }
    let mut r = String::new();
    crate::text::push_chars(&mut r, &v, 0, i);
    r
}

proof fn lemma_local_part_at(s: Seq<char>, k: int)
    requires
        0 <= k <= s.len(),
        forall|j: int| 0 <= j < k ==> s[j] != '@',
        k == s.len() || s[k] == '@',
    ensures
        local_part(s) == s.subrange(0, k),
    decreases k,
{
    if k > 0 {
        lemma_local_part_at(s.skip(1), k - 1);
        assert(s.subrange(0, k) == seq![s[0]] + s.skip(1).subrange(0, k - 1));
    } else {
        assert(s.subrange(0, 0) =~= Seq::<char>::empty());
    }
}

/// Template `index` addressed to `email` (greeting the part of the address
/// before `@`), with `time` as the current time.
pub open spec fn template_is(t: Template, index: int, email: Seq<char>, time: Seq<char>) -> bool {
    let name = local_part(email);
    if index == 0 {
        t matches Template::Welcome(w) && w.name@ == name && w.verify_url@ == "https://automatanexus.com/verify/demo"@
    } else if index == 1 {
        t matches Template::PasswordReset(w) && w.name@ == name && w.reset_url@ == "https://automatanexus.com/reset/demo"@
    } else if index == 2 {
        t matches Template::SecurityAlert(w) && w.name@ == name && w.location@ == "Warsaw, IN"@
            && w.device@ == "Chrome on Linux"@ && w.time@ == time
    } else {
        t matches Template::Test(w) && w.timestamp@ == time
    }
}

/// Template `index` addressed to `email`, at time `time`.
pub fn template_for(index: usize, to_email: &str, time: &str) -> (t: Template)
    ensures
        template_is(t, index as int, to_email@, time@),
{
    if index == 0 {
        Template::Welcome(WelcomeEmail {
            name: local_part_of(to_email),
            verify_url: string_of("https://automatanexus.com/verify/demo"),
        })
    } else if index == 1 {
        Template::PasswordReset(PasswordResetEmail {
            name: local_part_of(to_email),
            reset_url: string_of("https://automatanexus.com/reset/demo"),
        })
    } else if index == 2 {
        Template::SecurityAlert(SecurityAlertEmail {
            name: local_part_of(to_email),
            location: string_of("Warsaw, IN"),
            device: string_of("Chrome on Linux"),
            time: string_of(time),
        })
    } else {
        Template::Test(TestEmail { timestamp: string_of(time) })
    }
}

/// Render a template by index, at the current time.
pub fn render_template(index: usize, to_email: &str) -> (t: Template)
    ensures
        exists|time: Seq<char>| template_is(t, index as int, to_email@, time),
{
    let now = crate::tui::clock::now_string();
    template_for(index, to_email, now.as_str())
}

// ---------------------------------------------------------------------------
// Composed messages
// ---------------------------------------------------------------------------

/// The finished pieces of `s` split at `\n`, and the piece being read.
pub open spec fn pieces_acc(s: Seq<char>) -> (Seq<Seq<char>>, Seq<char>)
    decreases s.len(),
{
    if s.len() == 0 {
        (seq![], seq![])
    } else {
        let (done, cur) = pieces_acc(s.drop_last());
        if s.last() == '\n' {
            (done.push(cur), seq![])
        } else {
            (done, cur.push(s.last()))
        }
    }
}

/// The nonempty pieces of `s` split at `\n`.
pub open spec fn paragraphs_of(s: Seq<char>) -> Seq<Seq<char>> {
    let (done, cur) = pieces_acc(s);
    done.push(cur).filter(|p: Seq<char>| p.len() > 0)
}

/// The paragraph nodes of a composed body.
pub open spec fn paragraph_views(ps: Seq<Seq<char>>) -> Seq<NodeView>
    decreases ps.len(),
{
    if ps.len() == 0 {
        seq![]
    } else {
        paragraph_views(ps.drop_last()).push(intro(ps.last()))
    }
}

/// The title of a composed message.
pub open spec fn compose_heading(subject: Seq<char>) -> Heading {
    Heading {
        level: HeadingLevel::H2,
        content: string_with(subject),
        color: Some(hex("2D2A26"@)),
        font_size: None,
        font_weight: Some(FontWeight::Bold),
        font_family: None,
        line_height: Some(LineHeight::Multiplier(Decimal { units: 13, scale: 1 })),
        text_align: None,
        margin: Some(spacing_of(0, 0, 16, 0)),
    }
}

/// The branded message composed from a subject and a body: the subject as
/// title, then each nonempty line of the body as a paragraph.
pub open spec fn compose_view(subject: Seq<char>, body: Seq<char>) -> NodeView {
    layout_view(
        header_view(),
        seq![compose_heading(subject).spec_render()] + paragraph_views(paragraphs_of(body)),
        subject,
        false,
    )
}

fn nonempty_lines(v: &Vec<char>) -> (r: Vec<Vec<char>>)
    ensures
        r@.len() == paragraphs_of(v@).len(),
        forall|i: int| 0 <= i < r@.len() ==> #[trigger] r@[i]@ == paragraphs_of(v@)[i],
{
    let mut pieces: Vec<Vec<char>> = Vec::new();
    let mut cur: Vec<char> = Vec::new();
    let mut i: usize = 0;
    while i < v.len()
        invariant
            i <= v@.len(),
            pieces@.len() == pieces_acc(v@.subrange(0, i as int)).0.len(),
            forall|k: int| 0 <= k < pieces@.len() ==> #[trigger] pieces@[k]@ == pieces_acc(v@.subrange(0, i as int)).0[k],
            cur@ == pieces_acc(v@.subrange(0, i as int)).1,
        decreases v@.len() - i,
    {
        proof {
            assert(v@.subrange(0, i + 1).drop_last() == v@.subrange(0, i as int));
        }
        if v[i] == '\n' {
            pieces.push(cur);
            cur = Vec::new();
        } else {
            cur.push(v[i]);
        }
        i = i + 1;
    }
    proof {
        assert(v@.subrange(0, v@.len() as int) == v@);
    }
    pieces.push(cur);
    let ghost all = pieces_acc(v@).0.push(pieces_acc(v@).1);
    proof {
        assert forall|k: int| 0 <= k < pieces@.len() implies #[trigger] pieces@[k]@ == all[k] by {}
    }
    let mut r: Vec<Vec<char>> = Vec::new();
    let mut j: usize = 0;
    while j < pieces.len()
        invariant
            j <= pieces@.len(),
            pieces@.len() == all.len(),
            forall|k: int| 0 <= k < pieces@.len() ==> #[trigger] pieces@[k]@ == all[k],
            r@.len() == all.take(j as int).filter(|p: Seq<char>| p.len() > 0).len(),
            forall|k: int| 0 <= k < r@.len() ==> #[trigger] r@[k]@ == all.take(j as int).filter(|p: Seq<char>| p.len() > 0)[k],
        decreases pieces@.len() - j,
    {
        proof {
            assert(all.take(j + 1) == all.take(j as int).push(all[j as int]));
            reveal(Seq::filter);
            assert(all.take(j + 1).drop_last() == all.take(j as int));
        }
        if pieces[j].len() > 0 {
            r.push(pieces[j].clone());
        }
        j = j + 1;
    }
    proof {
        assert(all.take(all.len() as int) == all);
    }
    r
}

/// Convert composed text to a branded HTML email: the subject as title,
/// each nonempty line of the body as a paragraph, rendered with the
/// default renderer.
pub fn compose_to_html(subject: &str, body: &str) -> (html: String)
    ensures
        html@ == "<!DOCTYPE html>"@ + "\n"@ + crate::render::html::html_of(
            crate::render::css_inliner::inlined_view(compose_view(subject@, body@)),
        ),
{
    let h = Heading::h2(subject).color(hex_color("2D2A26")).margin(Spacing::new(Px(0), Px(0), Px(16), Px(0)));
    proof {
        lemma_string_with(h.content);
        lemma_color_string(h.color);
        lemma_heading_render_same(h, compose_heading(subject@));
    }
    let mut children: Vec<Node> = Vec::new();
    proof {
        assert(nodes_view(children@) =~= Seq::<NodeView>::empty());
    }
    push_node(&mut children, h.into_node());
    let v = crate::text::chars_of(body);
    let lines = nonempty_lines(&v);
    let ghost ps = paragraphs_of(body@);
    let mut i: usize = 0;
    while i < lines.len()
        invariant
            i <= lines@.len(),
            v@ == body@,
            lines@.len() == ps.len(),
            ps == paragraphs_of(v@),
            forall|k: int| 0 <= k < lines@.len() ==> #[trigger] lines@[k]@ == ps[k],
            nodes_view(children@) == seq![compose_heading(subject@).spec_render()] + paragraph_views(ps.take(i as int)),
        decreases lines@.len() - i,
    {
        let mut line = String::new();
        push_chars(&mut line, &lines[i], 0, lines[i].len());
        proof {
            assert(lines@[i as int]@.subrange(0, lines@[i as int]@.len() as int) == lines@[i as int]@);
            assert(ps.take(i + 1).drop_last() == ps.take(i as int));
            assert(ps.take(i + 1).last() == ps[i as int]);
        }
        push_node(&mut children, intro_node(line.as_str()));
        i = i + 1;
    }
    proof {
        assert(ps.take(ps.len() as int) == ps);
    }
    let email = email_layout(header_node(), children, subject, false);
    let renderer = crate::render::renderer::Renderer::default();
    let out = renderer.render_html_node(&email);
    proof {
        reveal_strlit("  ");
    }
    out
}

} // verus!
