//! The root `<html>` component for email templates.

use vstd::prelude::*;
use crate::text::{string_of, nat_text, u64_text};
use crate::email_core::color::Color;
use crate::email_core::component::Component;
use crate::email_core::decimal::Decimal;
use crate::email_core::node::{
    Element, ElementView, Node, NodeView, Tag, nodes_view, clone_nodes, lemma_nodes_view_push,
};
use crate::email_core::spacing::Spacing;
use crate::email_core::style::{Style, no_style, empty_style, clone_opt_color};
use crate::email_core::types::{Px, Percent, SizeValue, TextAlign, VerticalAlign};

verus! {

broadcast use vstd::string::group_string_axioms;

/// The root HTML element for an email.
///
/// Wraps the entire email content in `<html>` with `lang`, `dir` and
/// `xmlns` attributes. The DOCTYPE is handled by the renderer.
pub struct Html {
    pub lang: String,
    pub dir: String,
    pub children: Vec<Node>,
}

/// The `<html>` element with the given language, direction and content.
pub open spec fn html_view(lang: Seq<char>, dir: Seq<char>, children: Seq<NodeView>) -> NodeView {
    NodeView::Element(ElementView {
        tag: Tag::Html,
        attrs: seq![]
            .push(("lang"@, lang))
            .push(("dir"@, dir))
            .push(("xmlns"@, "http://www.w3.org/1999/xhtml"@)),
        style: empty_style(),
        children: children,
    })
}

impl Html {
    /// Create a new Html component with lang="en" and dir="ltr".
    pub fn new() -> (h: Html)
        ensures
            h.lang@ == "en"@,
            h.dir@ == "ltr"@,
            h.children@.len() == 0,
    {
        Html { lang: string_of("en"), dir: string_of("ltr"), children: Vec::new() }
    }

    /// Set the language attribute.
    pub fn lang(self, lang: &str) -> (r: Html)
        ensures
            r == (Html { lang: r.lang, ..self }),
            r.lang@ == lang@,
    {
        Html { lang: string_of(lang), ..self }
    }

    /// Set the text direction attribute.
    pub fn dir(self, dir: &str) -> (r: Html)
        ensures
            r == (Html { dir: r.dir, ..self }),
            r.dir@ == dir@,
    {
        Html { dir: string_of(dir), ..self }
    }

    /// Add a child component.
    pub fn child<C: Component>(self, child: C) -> (r: Html)
        ensures
            r == (Html { children: r.children, ..self }),
            r.children@.len() == self.children@.len() + 1,
            r.children@.drop_last() == self.children@,
            child.obeys_render_spec() ==> nodes_view(r.children@) == nodes_view(self.children@).push(child.spec_render()),
    {
        let ghost before = self.children@;
        let mut r = self;
        let n = child.render();
        proof {
            lemma_nodes_view_push(r.children@, n);
        }
        r.children.push(n);
        assert(r.children@.drop_last() =~= before);
        r
    }

    /// Add a raw Node as a child.
    pub fn child_node(self, node: Node) -> (r: Html)
        ensures
            r == (Html { children: r.children, ..self }),
            r.children@ == self.children@.push(node),
    {
        let mut r = self;
        r.children.push(node);
        r
    }

    /// Convert this component into a Node.
    pub fn into_node(self) -> (n: Node)
        ensures
            n@ == self.spec_render(),
    {
        self.render()
    }
}

impl Default for Html {
    fn default() -> (h: Html)
        ensures
            h.lang@ == "en"@,
            h.dir@ == "ltr"@,
            h.children@.len() == 0,
    {
        Html::new()
    }
}

impl Component for Html {
    open spec fn obeys_render_spec(&self) -> bool {
        true
    }

    open spec fn spec_render(&self) -> NodeView {
        html_view(self.lang@, self.dir@, nodes_view(self.children@))
    }

    fn render(&self) -> (n: Node) {
        let element = Element::new(Tag::Html)
            .attr("lang", self.lang.as_str())
            .attr("dir", self.dir.as_str())
            .attr("xmlns", "http://www.w3.org/1999/xhtml")
            .children(clone_nodes(&self.children));
        Node::Element(element)
    }
}

} // verus!
