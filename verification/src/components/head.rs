//! The `<head>` component: meta charset, viewport, and an optional title.

use vstd::prelude::*;
use crate::text::string_of;
use crate::email_core::component::Component;
use crate::email_core::node::{Element, ElementView, Node, NodeView, Tag, nodes_view};
use crate::email_core::style::empty_style;

verus! {

/// The `<head>` element of an email: content type, viewport and
/// compatibility metadata, plus an optional `<title>`.
pub struct Head {
    pub title: Option<String>,
}

/// A `<meta>` element with the two given attributes.
pub open spec fn meta_view(k1: Seq<char>, v1: Seq<char>, k2: Seq<char>, v2: Seq<char>) -> NodeView {
    NodeView::Element(ElementView {
        tag: Tag::Meta,
        attrs: seq![].push((k1, v1)).push((k2, v2)),
        style: empty_style(),
        children: seq![],
    })
}

/// The three `<meta>` elements every email head carries.
pub open spec fn head_metas() -> Seq<NodeView> {
    seq![]
        .push(meta_view("http-equiv"@, "Content-Type"@, "content"@, "text/html; charset=UTF-8"@))
        .push(meta_view("name"@, "viewport"@, "content"@, "width=device-width, initial-scale=1.0"@))
        .push(meta_view("http-equiv"@, "X-UA-Compatible"@, "content"@, "IE=edge"@))
}

/// The `<head>` element: the metadata, then a `<title>` when there is one.
pub open spec fn head_view(title: Option<Seq<char>>) -> NodeView {
    let children = match title {
        Some(t) => head_metas().push(NodeView::Element(ElementView {
            tag: Tag::Title,
            attrs: seq![],
            style: empty_style(),
            children: seq![NodeView::Text(t)],
        })),
        None => head_metas(),
    };
    NodeView::Element(ElementView { tag: Tag::Head, attrs: seq![], style: empty_style(), children })
}

impl Head {
    /// Create a new Head without a title.
    pub fn new() -> (h: Head)
        ensures
            h.title is None,
    {
        Head { title: None }
    }

    /// Set the document title.
    pub fn title(self, title: &str) -> (h: Head)
        ensures
            h.title matches Some(t) && t@ == title@,
    {
        Head { title: Some(string_of(title)) }
    }

    /// Convert this component into a Node.
    pub fn into_node(self) -> (n: Node)
        ensures
            n@ == self.spec_render(),
    {
        self.render()
    }
}

impl Default for Head {
    fn default() -> (h: Head)
        ensures
            h.title is None,
    {
        Head::new()
    }
}

impl Component for Head {
    open spec fn obeys_render_spec(&self) -> bool {
        true
    }

    open spec fn spec_render(&self) -> NodeView {
        head_view(
            match self.title {
                Some(t) => Some(t@),
                None => None,
            },
        )
    }

    fn render(&self) -> (n: Node) {
        let mut children: Vec<Node> = Vec::new();
        children.push(Node::Element(
            Element::new(Tag::Meta).attr("http-equiv", "Content-Type").attr("content", "text/html; charset=UTF-8"),
        ));
        children.push(Node::Element(
            Element::new(Tag::Meta).attr("name", "viewport").attr("content", "width=device-width, initial-scale=1.0"),
        ));
        children.push(Node::Element(
            Element::new(Tag::Meta).attr("http-equiv", "X-UA-Compatible").attr("content", "IE=edge"),
        ));
        proof {
            assert(nodes_view(children@) =~= head_metas()) by {
                reveal_with_fuel(nodes_view, 4);
            }
        }
        match &self.title {
            Some(title) => {
                let t = Node::Element(Element::new(Tag::Title).child(Node::text(title.as_str())));
                proof {
                    crate::email_core::node::lemma_nodes_view_push(children@, t);
                }
                children.push(t);
            },
            None => {},
        }
        Node::Element(Element::new(Tag::Head).children(children))
    }
}

} // verus!
