use ferrum_email::components::button::Button;
use ferrum_email::email_core::color::Color;
use ferrum_email::email_core::component::Component;
use ferrum_email::email_core::node::{Element, Node, Tag};
use ferrum_email::email_core::style::Style;
use ferrum_email::email_core::types::Px;
use ferrum_email::render::css_inliner::inline_styles;
use ferrum_email::render::html_emitter::{doctype, escape_attr, escape_text};
use ferrum_email::render::renderer::{RenderConfig, Renderer};
use ferrum_email::render::text_extractor::{clean_text, extract_text};

struct SimpleEmail;

impl Component for SimpleEmail {
    fn render(&self) -> Node {
        Node::Element(Element::new(Tag::P).child(Node::text("Hello, World!")))
    }
}

#[test]
fn test_escape_text() {
    assert_eq!(escape_text("Hello & World"), "Hello &amp; World");
    assert_eq!(escape_text("<script>"), "&lt;script&gt;");
    assert_eq!(escape_text("plain text"), "plain text");
}

#[test]
fn test_escape_attr() {
    assert_eq!(escape_attr("say \"hello\""), "say &quot;hello&quot;");
    assert_eq!(escape_attr("it's"), "it&#x27;s");
    assert_eq!(escape_attr("a&b"), "a&amp;b");
}

#[test]
fn test_render_simple_html() {
    let renderer = Renderer::new();
    let html = renderer.render_html(&SimpleEmail).unwrap();
    assert!(html.contains("<!DOCTYPE html>"));
    assert!(html.contains("<p>Hello, World!</p>"));
}

#[test]
fn test_render_simple_text() {
    let renderer = Renderer::new();
    let text = renderer.render_text(&SimpleEmail).unwrap();
    assert!(text.contains("Hello, World!"));
    assert!(!text.contains('<'));
}

#[test]
fn test_html_escaping() {
    struct EscapeEmail;
    impl Component for EscapeEmail {
        fn render(&self) -> Node {
            Node::Element(Element::new(Tag::P).child(Node::text("1 < 2 & 3 > 2")))
        }
    }
    let renderer = Renderer::new();
    let html = renderer.render_html(&EscapeEmail).unwrap();
    assert!(html.contains("1 &lt; 2 &amp; 3 &gt; 2"));
}

#[test]
fn test_void_elements() {
    struct VoidEmail;
    impl Component for VoidEmail {
        fn render(&self) -> Node {
            Node::Element(Element::new(Tag::Img).attr("src", "test.png").attr("alt", "test"))
        }
    }
    let renderer = Renderer::new();
    let html = renderer.render_html(&VoidEmail).unwrap();
    assert!(html.contains("<img src=\"test.png\" alt=\"test\" />"));
    assert!(!html.contains("</img>"));
}

#[test]
fn test_style_inlining() {
    struct StyledEmail;
    impl Component for StyledEmail {
        fn render(&self) -> Node {
            let mut style = Style::new();
            style.color = Some(Color::hex("ff0000"));
            style.font_size = Some(Px(16));
            Node::Element(Element::new(Tag::P).style(style).child(Node::text("Red text")))
        }
    }
    let renderer = Renderer::new();
    let html = renderer.render_html(&StyledEmail).unwrap();
    assert!(html.contains("style=\""));
    assert!(html.contains("color:#ff0000"));
    assert!(html.contains("font-size:16px"));
}

#[test]
fn test_extract_text_from_text_node() {
    let node = Node::text("Hello, World!");
    assert_eq!(extract_text(&node), "Hello, World!");
}

#[test]
fn test_extract_text_from_link() {
    let node = Node::Element(
        Element::new(Tag::A).attr("href", "https://example.com").child(Node::text("Click here")),
    );
    assert_eq!(extract_text(&node), "Click here (https://example.com)");
}

#[test]
fn test_extract_text_from_hr() {
    let node = Node::Element(Element::new(Tag::Hr));
    assert_eq!(extract_text(&node), "---");
}

#[test]
fn test_extract_text_from_image() {
    let node = Node::Element(Element::new(Tag::Img).attr("alt", "Logo").attr("src", "logo.png"));
    assert_eq!(extract_text(&node), "[Logo]");
}

#[test]
fn doctype_line() {
    assert_eq!(doctype(), "<!DOCTYPE html>");
}

#[test]
fn escaping_every_special_character() {
    assert_eq!(escape_text("a<b>c&d\"e'f"), "a&lt;b&gt;c&amp;d\"e'f");
    assert_eq!(escape_attr("<>&\"'"), "&lt;&gt;&amp;&quot;&#x27;");
}

#[test]
fn renderer_without_doctype_is_compact_html() {
    let config = RenderConfig { include_doctype: false, pretty_print: false, indent: "  ".to_string() };
    let renderer = Renderer::with_config(config);
    assert_eq!(renderer.render_html(&SimpleEmail).unwrap(), "<p>Hello, World!</p>");
}

#[test]
fn pretty_printed_paragraph() {
    let config = RenderConfig { include_doctype: false, pretty_print: true, indent: "  ".to_string() };
    let renderer = Renderer::with_config(config);
    assert_eq!(renderer.render_html(&SimpleEmail).unwrap(), "<p>\n  Hello, World!\n</p>\n");
}

#[test]
fn render_node_inlines_and_escapes() {
    let renderer = Renderer::default();
    let node = Node::Element(
        Element::new(Tag::A).attr("href", "x?a=1&b=2").child(Node::text("<go>")),
    );
    assert_eq!(renderer.render_node(&node), "<a href=\"x?a=1&amp;b=2\">&lt;go&gt;</a>");
}

#[test]
fn existing_style_attribute_wins_over_typed_style() {
    let mut style = Style::new();
    style.color = Some(Color::hex("ff0000"));
    let node = Node::Element(Element::new(Tag::Div).attr("style", "color:blue").style(style));
    let renderer = Renderer::default();
    assert_eq!(renderer.render_node(&node), "<div style=\"color:blue\"></div>");
}

#[test]
fn hidden_elements_are_left_out_of_text() {
    let node = Node::Fragment(vec![
        Node::Element(Element::new(Tag::Div).attr("style", "display:none").child(Node::text("secret"))),
        Node::Element(Element::new(Tag::P).child(Node::text("shown"))),
    ]);
    assert_eq!(extract_text(&node), "shown");
}

#[test]
fn clean_text_keeps_at_most_two_blank_lines() {
    assert_eq!(clean_text("  a  \n\n\n\n\n  b  \n"), "a\n\n\nb");
    assert_eq!(clean_text("\n\n x \n"), "x");
}

#[test]
fn button_text_includes_link() {
    let b = Button::new("https://example.com", "Go");
    assert_eq!(extract_text(&b.render()), "Go (https://example.com)");
}

#[test]
fn inlining_twice_renders_the_same() {
    let mut style = Style::new();
    style.color = Some(Color::hex("ff0000"));
    style.font_size = Some(Px(16));
    let node = Node::Element(
        Element::new(Tag::Div)
            .style(style)
            .child(Node::Element(Element::new(Tag::P).attr("style", "margin:0").child(Node::text("a<b")))),
    );
    let once = inline_styles(&node);
    let twice = inline_styles(&once);
    let renderer = Renderer::new();
    assert_eq!(renderer.render_node(&twice), renderer.render_node(&node));
    assert!(renderer.render_node(&node).contains("color:#ff0000"));
}

fn decode_entities(s: &str) -> String {
    s.replace("&lt;", "<")
        .replace("&gt;", ">")
        .replace("&quot;", "\"")
        .replace("&#x27;", "'")
        .replace("&amp;", "&")
}

#[test]
fn escaped_values_decode_back() {
    for v in ["a<b>c&d\"e'f", "&amp; literal", "plain", "", "&#x27;&lt;"] {
        assert_eq!(decode_entities(&escape_attr(v)), v);
        assert_eq!(decode_entities(&escape_text(v)), v);
    }
}
