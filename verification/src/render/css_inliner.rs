//! CSS inlining for email-safe rendering.
//!
//! Gmail and many other clients strip `<style>` blocks, so every element
//! carries its CSS in a `style=""` attribute. Elements that already hold a
//! hand-written `style` attribute keep it and lose their typed style;
//! the others get the typed style's CSS as a `style` attribute.

use vstd::prelude::*;
use crate::text::str_eq;
use crate::email_core::node::{
    Node, NodeView, Element, ElementView, nodes_view, node_view, element_view, attrs_view,
    lemma_nodes_view_push, clone_node,
};
use crate::email_core::style::{Style, style_css, empty_style, opt_text};
use crate::render::html::{html_of, html_of_all, pretty_of, pretty_of_all, next_depth};

verus! {

broadcast use {vstd::string::group_string_axioms, vstd::std_specs::vec::group_vec_axioms};

/// Whether some attribute is named `style`.
pub open spec fn has_style_attr(attrs: Seq<(Seq<char>, Seq<char>)>) -> bool {
    exists|i: int| 0 <= i < attrs.len() && attrs[i].0 == "style"@
}

/// The element after inlining, its children already inlined.
pub open spec fn inline_element(e: ElementView, children: Seq<NodeView>) -> ElementView {
    if has_style_attr(e.attrs) {
        ElementView { tag: e.tag, attrs: e.attrs, style: empty_style(), children }
    } else {
        match style_css(e.style) {
            Some(css) => ElementView {
                tag: e.tag,
                attrs: e.attrs.push(("style"@, css)),
                style: e.style,
                children,
            },
            None => ElementView { tag: e.tag, attrs: e.attrs, style: e.style, children },
        }
    }
}

/// A node tree with every element's typed style inlined as a `style`
/// attribute.
pub open spec fn inlined_view(n: NodeView) -> NodeView
    decreases n,
{
    match n {
        NodeView::Element(e) => NodeView::Element(inline_element(e, inlined_all(e.children))),
        NodeView::Fragment(ns) => NodeView::Fragment(inlined_all(ns)),
        other => other,
    }
}

/// `inline` applied to each node.
pub open spec fn inlined_all(s: Seq<NodeView>) -> Seq<NodeView>
    decreases s,
{
    if s.len() == 0 {
        seq![]
    } else {
        inlined_all(s.drop_last()).push(inlined_view(s.last()))
    }
}

/// Walk a Node tree and ensure all styles are inlined.
pub fn inline_styles(node: &Node) -> (r: Node)
    ensures
        r@ == inlined_view(node@),
{
    inline_node(node)
}

fn has_manual_style(e: &Element) -> (b: bool)
    ensures
        b == has_style_attr(attrs_view(e.attrs@)),
{
    let mut i: usize = 0;
    while i < e.attrs.len()
        invariant
            i <= e.attrs@.len(),
            forall|j: int| 0 <= j < i ==> attrs_view(e.attrs@)[j].0 != "style"@,
        decreases e.attrs@.len() - i,
    {
        if str_eq(e.attrs[i].name.as_str(), "style") {
            assert(attrs_view(e.attrs@)[i as int].0 == "style"@);
            return true;
        }
        i = i + 1;
    }
    false
}

fn inline_children(v: &Vec<Node>) -> (r: Vec<Node>)
    ensures
        nodes_view(r@) == inlined_all(nodes_view(v@)),
    decreases v,
{
    let mut r: Vec<Node> = Vec::new();
    let mut i: usize = 0;
    while i < v.len()
        invariant
            i <= v@.len(),
            nodes_view(r@) == inlined_all(nodes_view(v@.subrange(0, i as int))),
        decreases v@.len() - i,
    {
        assert(decreases_to!(v => v[i as int]));
        let c = inline_node(&v[i]);
        proof {
            lemma_nodes_view_push(r@, c);
            lemma_nodes_view_push(v@.subrange(0, i as int), v@[i as int]);
            assert(v@.subrange(0, i + 1) == v@.subrange(0, i as int).push(v@[i as int]));
            let pre = nodes_view(v@.subrange(0, i as int));
            assert(pre.push(node_view(v@[i as int])).drop_last() == pre);
        }
        r.push(c);
        i = i + 1;
    }
    proof {
        assert(v@.subrange(0, v@.len() as int) == v@);
    }
    r
}

fn inline_node(node: &Node) -> (r: Node)
    ensures
        r@ == inlined_view(node@),
    decreases node,
{
    match node {
        Node::Element(element) => {
            let manual = has_manual_style(element);
            let mut new_element = Element::new(element.tag.clone());
            let mut i: usize = 0;
            assert(attrs_view(element.attrs@).subrange(0, 0) == Seq::<(Seq<char>, Seq<char>)>::empty());
            while i < element.attrs.len()
                invariant
                    i <= element.attrs@.len(),
                    new_element@ == (ElementView {
                        tag: element.tag,
                        attrs: attrs_view(element.attrs@).subrange(0, i as int),
                        style: empty_style(),
                        children: seq![],
                    }),
                decreases element.attrs@.len() - i,
            {
                new_element = new_element.attr(
                    element.attrs[i].name.as_str(),
                    element.attrs[i].value.as_str(),
                );
                proof {
                    assert(attrs_view(element.attrs@).subrange(0, i + 1) == attrs_view(
                        element.attrs@,
                    ).subrange(0, i as int).push(attrs_view(element.attrs@)[i as int]));
                }
                i = i + 1;
            }
            proof {
                assert(attrs_view(element.attrs@).subrange(0, element.attrs@.len() as int)
                    == attrs_view(element.attrs@));
            }
            if !manual {
                new_element.style = element.style.clone();
                match element.style.to_css() {
                    Some(css) => {
                        new_element = new_element.attr("style", css.as_str());
                    },
                    None => {},
                }
            }
            let children = inline_children(&element.children);
            new_element = new_element.children(children);
            Node::Element(new_element)
        },
        Node::Fragment(nodes) => Node::Fragment(inline_children(nodes)),
        Node::Text(t) => Node::Text(t.clone()),
        Node::Empty => Node::Empty,
    }
}

/// Inlining an element that is already inlined keeps its tag and its
/// attributes.
proof fn lemma_inline_element_again(e: ElementView, children: Seq<NodeView>, again: Seq<NodeView>)
    ensures
        inline_element(e, children).tag == e.tag,
        inline_element(e, children).children == children,
        inline_element(inline_element(e, children), again).tag == e.tag,
        inline_element(inline_element(e, children), again).attrs == inline_element(e, children).attrs,
        inline_element(inline_element(e, children), again).children == again,
{
    let e1 = inline_element(e, children);
    if !has_style_attr(e.attrs) {
        if let Some(css) = style_css(e.style) {
            assert(e1.attrs[e.attrs.len() as int].0 == "style"@);
            assert(has_style_attr(e1.attrs));
        }
    }
}

/// Inlining an inlined tree again changes nothing in its compact HTML.
pub proof fn lemma_inline_twice_same_html(n: NodeView)
    ensures
        html_of(inlined_view(inlined_view(n))) == html_of(inlined_view(n)),
    decreases n,
{
    match n {
        NodeView::Element(e) => {
            let c1 = inlined_all(e.children);
            lemma_inline_all_twice_same_html(e.children);
            lemma_inline_element_again(e, c1, inlined_all(c1));
            let e1 = inline_element(e, c1);
            let e2 = inline_element(e1, inlined_all(c1));
            assert(inlined_view(n) == NodeView::Element(e1));
            assert(inlined_view(NodeView::Element(e1)) == NodeView::Element(e2));
            assert(html_of_all(e2.children) == html_of_all(e1.children));
            assert(e2.tag == e1.tag);
            assert(e2.attrs == e1.attrs);
            assert(html_of(NodeView::Element(e2)) == html_of(NodeView::Element(e1)));
        },
        NodeView::Fragment(ns) => {
            lemma_inline_all_twice_same_html(ns);
            assert(html_of(inlined_view(inlined_view(n))) == html_of(inlined_view(n)));
        },
        _ => {},
    }
}

/// Inlining inlined nodes again changes nothing in their compact HTML.
pub proof fn lemma_inline_all_twice_same_html(s: Seq<NodeView>)
    ensures
        html_of_all(inlined_all(inlined_all(s))) == html_of_all(inlined_all(s)),
    decreases s,
{
    if s.len() > 0 {
        let t = inlined_all(s);
        lemma_inline_all_twice_same_html(s.drop_last());
        lemma_inline_twice_same_html(s.last());
        assert(t.drop_last() == inlined_all(s.drop_last()));
        assert(t.last() == inlined_view(s.last()));
        let u = inlined_all(t);
        assert(u.drop_last() == inlined_all(t.drop_last()));
        assert(u.last() == inlined_view(t.last()));
        assert(html_of_all(u) == html_of_all(u.drop_last()) + html_of(u.last()));
        assert(html_of_all(t) == html_of_all(t.drop_last()) + html_of(t.last()));
    }
}

/// Inlining an inlined tree again changes nothing in its pretty-printed
/// HTML.
pub proof fn lemma_inline_twice_same_pretty(n: NodeView, depth: nat, indent: Seq<char>)
    ensures
        pretty_of(inlined_view(inlined_view(n)), depth, indent) == pretty_of(inlined_view(n), depth, indent),
    decreases n,
{
    match n {
        NodeView::Element(e) => {
            let c1 = inlined_all(e.children);
            lemma_inline_all_twice_same_pretty(e.children, next_depth(depth), indent);
            lemma_inline_element_again(e, c1, inlined_all(c1));
            let e1 = inline_element(e, c1);
            let e2 = inline_element(e1, inlined_all(c1));
            assert(inlined_view(n) == NodeView::Element(e1));
            assert(inlined_view(NodeView::Element(e1)) == NodeView::Element(e2));
            assert(pretty_of_all(e2.children, next_depth(depth), indent) == pretty_of_all(e1.children, next_depth(depth), indent));
        },
        NodeView::Fragment(ns) => {
            lemma_inline_all_twice_same_pretty(ns, depth, indent);
        },
        _ => {},
    }
}

/// Inlining inlined nodes again changes nothing in their pretty-printed
/// HTML.
pub proof fn lemma_inline_all_twice_same_pretty(s: Seq<NodeView>, depth: nat, indent: Seq<char>)
    ensures
        pretty_of_all(inlined_all(inlined_all(s)), depth, indent) == pretty_of_all(inlined_all(s), depth, indent),
    decreases s,
{
    if s.len() > 0 {
        let t = inlined_all(s);
        lemma_inline_all_twice_same_pretty(s.drop_last(), depth, indent);
        lemma_inline_twice_same_pretty(s.last(), depth, indent);
        assert(t.drop_last() == inlined_all(s.drop_last()));
        assert(t.last() == inlined_view(s.last()));
        let u = inlined_all(t);
        assert(u.drop_last() == inlined_all(t.drop_last()));
        assert(u.last() == inlined_view(t.last()));
        assert(pretty_of_all(u, depth, indent) == pretty_of_all(u.drop_last(), depth, indent) + pretty_of(u.last(), depth, indent));
        assert(pretty_of_all(t, depth, indent) == pretty_of_all(t.drop_last(), depth, indent) + pretty_of(t.last(), depth, indent));
    }
}

} // verus!
