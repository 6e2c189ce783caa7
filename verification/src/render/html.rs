//! HTML emission from a node tree, compact and pretty-printed.

use vstd::prelude::*;
use crate::text::{trim, trim_str};
use crate::email_core::node::{
    Node, NodeView, Element, nodes_view, node_view, attrs_view, lemma_nodes_view_push,
};
use crate::render::html_emitter::{escape_text, escape_attr, escape_text_spec, escape_attr_spec};

verus! {

broadcast use {vstd::string::group_string_axioms, vstd::std_specs::vec::group_vec_axioms};

/// One attribute: ` name="escaped value"`.
pub open spec fn attr_html(a: (Seq<char>, Seq<char>)) -> Seq<char> {
    " "@ + a.0 + "=\""@ + escape_attr_spec(a.1) + "\""@
}

/// The attributes of an element, in order.
pub open spec fn attrs_html(s: Seq<(Seq<char>, Seq<char>)>) -> Seq<char>
    decreases s.len(),
{
    if s.len() == 0 {
        seq![]
    } else {
        attrs_html(s.drop_last()) + attr_html(s.last())
    }
}

/// The compact HTML of a node: escaped text, elements with their attributes
/// and children (void elements closed with ` />`), fragments as their
/// children, nothing for an empty node.
pub open spec fn html_of(n: NodeView) -> Seq<char>
    decreases n,
{
    match n {
        NodeView::Text(t) => escape_text_spec(t),
        NodeView::Element(e) => {
            let open = "<"@ + e.tag.name() + attrs_html(e.attrs);
            if e.tag.spec_is_void() {
                open + " />"@
            } else {
                open + ">"@ + html_of_all(e.children) + "</"@ + e.tag.name() + ">"@
            }
        },
        NodeView::Fragment(ns) => html_of_all(ns),
        NodeView::Empty => seq![],
    }
}

/// The compact HTML of a sequence of nodes.
pub open spec fn html_of_all(s: Seq<NodeView>) -> Seq<char>
    decreases s,
{
    if s.len() == 0 {
        seq![]
    } else {
        html_of_all(s.drop_last()) + html_of(s.last())
    }
}

/// `s` repeated `k` times.
pub open spec fn repeat(s: Seq<char>, k: nat) -> Seq<char>
    decreases k,
{
    if k == 0 {
        seq![]
    } else {
        repeat(s, (k - 1) as nat) + s
    }
}

/// The depth of the children of a node at depth `d`.
pub open spec fn next_depth(d: nat) -> nat {
    if d < usize::MAX {
        d + 1
    } else {
        d
    }
}

/// The pretty-printed HTML of a node at nesting depth `depth`: every tag
/// and every text that is not blank on its own line, indented by `depth`
/// copies of `indent`.
pub open spec fn pretty_of(n: NodeView, depth: nat, indent: Seq<char>) -> Seq<char>
    decreases n,
{
    let ind = repeat(indent, depth);
    match n {
        NodeView::Text(t) => {
            let escaped = escape_text_spec(t);
            if trim(escaped).len() == 0 {
                seq![]
            } else {
                ind + escaped + "\n"@
            }
        },
        NodeView::Element(e) => {
            let open = ind + "<"@ + e.tag.name() + attrs_html(e.attrs);
            if e.tag.spec_is_void() {
                open + " />\n"@
            } else {
                open + ">\n"@ + pretty_of_all(e.children, next_depth(depth), indent) + ind + "</"@
                    + e.tag.name() + ">\n"@
            }
        },
        NodeView::Fragment(ns) => pretty_of_all(ns, depth, indent),
        NodeView::Empty => seq![],
    }
}

/// The pretty-printed HTML of a sequence of nodes at the same depth.
pub open spec fn pretty_of_all(s: Seq<NodeView>, depth: nat, indent: Seq<char>) -> Seq<char>
    decreases s,
{
    if s.len() == 0 {
        seq![]
    } else {
        pretty_of_all(s.drop_last(), depth, indent) + pretty_of(s.last(), depth, indent)
    }
}

proof fn lemma_prefix_push<T>(s: Seq<T>, i: int)
    requires
        0 <= i < s.len(),
    ensures
        s.subrange(0, i + 1) == s.subrange(0, i).push(s[i]),
{
    assert(s.subrange(0, i + 1) == s.subrange(0, i).push(s[i]));
}

fn emit_attrs(e: &Element, output: &mut String)
    ensures
        final(output)@ == old(output)@ + attrs_html(attrs_view(e.attrs@)),
{
    let mut i: usize = 0;
    let ghost start = output@;
    let ghost a = attrs_view(e.attrs@);
    assert(a.subrange(0, 0).len() == 0);
    while i < e.attrs.len()
        invariant
            i <= e.attrs@.len(),
            a == attrs_view(e.attrs@),
            output@ == start + attrs_html(a.subrange(0, i as int)),
        decreases e.attrs@.len() - i,
    {
        output.append(" ");
        output.append(e.attrs[i].name.as_str());
        output.append("=\"");
        output.append(escape_attr(e.attrs[i].value.as_str()).as_str());
        output.append("\"");
        proof {
            lemma_prefix_push(a, i as int);
            assert(a.subrange(0, i + 1).drop_last() == a.subrange(0, i as int));
        }
        i = i + 1;
    }
    proof {
        assert(a.subrange(0, a.len() as int) == a);
    }
}

/// Appends the compact HTML of `node` to `output`.
pub fn emit_node(node: &Node, output: &mut String)
    ensures
        final(output)@ == old(output)@ + html_of(node@),
    decreases node,
{
    match node {
        Node::Text(text) => {
            output.append(escape_text(text.as_str()).as_str());
        },
        Node::Element(element) => {
            let tag_name = element.tag.as_str();
            output.append("<");
            output.append(tag_name);
            emit_attrs(element, output);
            if element.tag.is_void() {
                output.append(" />");
                return;
            }
            output.append(">");
            emit_children(&element.children, output);
            output.append("</");
            output.append(tag_name);
            output.append(">");
        },
        Node::Fragment(nodes) => {
            emit_children(nodes, output);
        },
        Node::Empty => {},
    }
}

/// Appends the compact HTML of each node.
pub fn emit_children(v: &Vec<Node>, output: &mut String)
    ensures
        final(output)@ == old(output)@ + html_of_all(nodes_view(v@)),
    decreases v,
{
    let ghost start = output@;
    let mut i: usize = 0;
    while i < v.len()
        invariant
            i <= v@.len(),
            output@ == start + html_of_all(nodes_view(v@.subrange(0, i as int))),
        decreases v@.len() - i,
    {
        assert(decreases_to!(v => v[i as int]));
        emit_node(&v[i], output);
        proof {
            lemma_prefix_push(v@, i as int);
            lemma_nodes_view_push(v@.subrange(0, i as int), v@[i as int]);
            let pre = nodes_view(v@.subrange(0, i as int));
            assert(pre.push(node_view(v@[i as int])).drop_last() == pre);
        }
        i = i + 1;
    }
    proof {
        assert(v@.subrange(0, v@.len() as int) == v@);
    }
}

/// `indent` repeated `depth` times.
pub fn repeat_str(indent: &str, depth: usize) -> (r: String)
    ensures
        r@ == repeat(indent@, depth as nat),
{
    let mut r = String::new();
    let mut k: usize = 0;
    while k < depth
        invariant
            k <= depth,
            r@ == repeat(indent@, k as nat),
        decreases depth - k,
    {
        r.append(indent);
        k = k + 1;
    }
    r
}

/// Appends the pretty-printed HTML of `node` at `depth` to `output`.
pub fn emit_node_pretty(node: &Node, indent: &str, output: &mut String, depth: usize)
    ensures
        final(output)@ == old(output)@ + pretty_of(node@, depth as nat, indent@),
    decreases node,
{
    let ind = repeat_str(indent, depth);
    match node {
        Node::Text(text) => {
            let escaped = escape_text(text.as_str());
            let trimmed = trim_str(escaped.as_str());
            if !trimmed.as_str().is_empty() {
                output.append(ind.as_str());
                output.append(escaped.as_str());
                output.append("\n");
            }
        },
        Node::Element(element) => {
            let tag_name = element.tag.as_str();
            output.append(ind.as_str());
            output.append("<");
            output.append(tag_name);
            emit_attrs(element, output);
            if element.tag.is_void() {
                output.append(" />\n");
                return;
            }
            output.append(">\n");
            let child_depth = depth.saturating_add(1);
            emit_children_pretty(&element.children, indent, output, child_depth);
            output.append(ind.as_str());
            output.append("</");
            output.append(tag_name);
            output.append(">\n");
        },
        Node::Fragment(nodes) => {
            emit_children_pretty(nodes, indent, output, depth);
        },
        Node::Empty => {},
    }
}

/// Appends the pretty-printed HTML of each node at `depth`.
pub fn emit_children_pretty(v: &Vec<Node>, indent: &str, output: &mut String, depth: usize)
    ensures
        final(output)@ == old(output)@ + pretty_of_all(nodes_view(v@), depth as nat, indent@),
    decreases v,
{
    let ghost start = output@;
    let mut i: usize = 0;
    while i < v.len()
        invariant
            i <= v@.len(),
            output@ == start + pretty_of_all(
                nodes_view(v@.subrange(0, i as int)),
                depth as nat,
                indent@,
            ),
        decreases v@.len() - i,
    {
        assert(decreases_to!(v => v[i as int]));
        emit_node_pretty(&v[i], indent, output, depth);
        proof {
            lemma_prefix_push(v@, i as int);
            lemma_nodes_view_push(v@.subrange(0, i as int), v@[i as int]);
            let pre = nodes_view(v@.subrange(0, i as int));
            assert(pre.push(node_view(v@[i as int])).drop_last() == pre);
        }
        i = i + 1;
    }
    proof {
        assert(v@.subrange(0, v@.len() as int) == v@);
    }
}

} // verus!
