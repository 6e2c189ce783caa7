//! Plain text extraction from a node tree.
//!
//! Text nodes are kept as they are; block elements (p, h1–h6, div, tr,
//! table, pre) get newlines around them; links become `text (url)`;
//! horizontal rules become `---`; images become `[alt text]`; head
//! content and hidden elements are skipped. The result is then cleaned:
//! lines trimmed, runs of blank lines cut to two, and the whole trimmed.

use vstd::prelude::*;
use crate::text::{
    trim, trim_bounds, chars_of, push_chars, str_eq, str_contains, contains_seq,
    string_from_chars,
};
use crate::email_core::node::{
    Node, NodeView, Element, ElementView, Tag, nodes_view, node_view, attrs_view,
    lemma_nodes_view_push,
};
use crate::email_core::types::Display;

verus! {

broadcast use {vstd::string::group_string_axioms, vstd::std_specs::vec::group_vec_axioms};

/// The value of the first attribute named `name`, or the empty text.
pub open spec fn first_attr_value(attrs: Seq<(Seq<char>, Seq<char>)>, name: Seq<char>) -> Seq<
    char,
>
    decreases attrs.len(),
{
    if attrs.len() == 0 {
        seq![]
    } else if attrs[0].0 == name {
        attrs[0].1
    } else {
        first_attr_value(attrs.skip(1), name)
    }
}

/// Block-level tags, which get newlines around their text.
pub open spec fn is_block_tag(t: Tag) -> bool {
    t is P || t is Div || t is H1 || t is H2 || t is H3 || t is H4 || t is H5 || t is H6 || t is Tr
        || t is Table || t is Pre
}

/// An element hidden by `display:none`, in its typed style or in a
/// hand-written `style` attribute.
pub open spec fn is_hidden(e: ElementView) -> bool {
    e.style[15] == Some("none"@) || exists|i: int|
        0 <= i < e.attrs.len() && e.attrs[i].0 == "style"@ && contains_seq(
            e.attrs[i].1,
            "display:none"@,
        )
}

/// The text of a link: `text (url)` when both are present and differ,
/// otherwise whichever is present.
pub open spec fn link_text(text: Seq<char>, href: Seq<char>) -> Seq<char> {
    if text.len() > 0 && href.len() > 0 && text != href {
        text + " ("@ + href + ")"@
    } else if text.len() > 0 {
        text
    } else {
        href
    }
}

/// The raw (uncleaned) plain text of a node.
pub open spec fn extract(n: NodeView) -> Seq<char>
    decreases n,
{
    match n {
        NodeView::Text(t) => t,
        NodeView::Element(e) => {
            if e.tag is A {
                link_text(trim(extract_all(e.children)), first_attr_value(e.attrs, "href"@))
            } else if e.tag is Img {
                let alt = first_attr_value(e.attrs, "alt"@);
                if alt.len() > 0 {
                    "["@ + alt + "]"@
                } else {
                    seq![]
                }
            } else if e.tag is Hr {
                "\n---\n"@
            } else if e.tag is Br {
                "\n"@
            } else if e.tag is Head || e.tag is Meta || e.tag is Title {
                seq![]
            } else if is_hidden(e) {
                seq![]
            } else if is_block_tag(e.tag) {
                "\n"@ + extract_all(e.children) + "\n"@
            } else {
                extract_all(e.children)
            }
        },
        NodeView::Fragment(ns) => extract_all(ns),
        NodeView::Empty => seq![],
    }
}

/// Block elements stand on lines of their own: a visible paragraph,
/// division, heading, table row, table or preformatted block gives its
/// children's text with a newline before and after it; a visible inline
/// element (a span, a table cell, a strong or em) gives its children's
/// text as it is.
pub proof fn lemma_block_elements_on_own_lines(e: ElementView)
    requires
        !is_hidden(e),
    ensures
        (e.tag is P || e.tag is Div || e.tag is H1 || e.tag is H2 || e.tag is H3 || e.tag is H4
            || e.tag is H5 || e.tag is H6 || e.tag is Tr || e.tag is Table || e.tag is Pre)
            ==> extract(NodeView::Element(e)) == "\n"@ + extract_all(e.children) + "\n"@,
        (e.tag is Span || e.tag is Td || e.tag is Strong || e.tag is Em)
            ==> extract(NodeView::Element(e)) == extract_all(e.children),
{
}

/// What the special elements give: a rule gives `---` on a line of its
/// own, a line break a newline, an image its alt text in brackets (nothing
/// without one), head content nothing, a hidden paragraph or division
/// nothing, and a link with text and a different address `text (address)`.
pub proof fn lemma_special_elements_text(e: ElementView)
    ensures
        e.tag is Hr ==> extract(NodeView::Element(e)) == "\n---\n"@,
        e.tag is Br ==> extract(NodeView::Element(e)) == "\n"@,
        e.tag is Img && first_attr_value(e.attrs, "alt"@).len() > 0
            ==> extract(NodeView::Element(e)) == "["@ + first_attr_value(e.attrs, "alt"@) + "]"@,
        e.tag is Img && first_attr_value(e.attrs, "alt"@).len() == 0 ==> extract(NodeView::Element(e)).len() == 0,
        (e.tag is Head || e.tag is Meta || e.tag is Title) ==> extract(NodeView::Element(e)).len() == 0,
        (e.tag is P || e.tag is Div || e.tag is Span || e.tag is Td) && is_hidden(e)
            ==> extract(NodeView::Element(e)).len() == 0,
        ({
            let text = trim(extract_all(e.children));
            let href = first_attr_value(e.attrs, "href"@);
            e.tag is A && text.len() > 0 && href.len() > 0 && text != href
                ==> extract(NodeView::Element(e)) == text + " ("@ + href + ")"@
        }),
{
}

/// The raw plain text of a sequence of nodes.
pub open spec fn extract_all(s: Seq<NodeView>) -> Seq<char>
    decreases s,
{
    if s.len() == 0 {
        seq![]
    } else {
        extract_all(s.drop_last()) + extract(s.last())
    }
}

/// A line without one trailing carriage return.
pub open spec fn strip_cr(l: Seq<char>) -> Seq<char> {
    if l.len() > 0 && l.last() == '\r' {
        l.drop_last()
    } else {
        l
    }
}

/// The finished lines of `s` and the unfinished last line.
pub open spec fn lines_acc(s: Seq<char>) -> (Seq<Seq<char>>, Seq<char>)
    decreases s.len(),
{
    if s.len() == 0 {
        (seq![], seq![])
    } else {
        let (done, cur) = lines_acc(s.drop_last());
        if s.last() == '\n' {
            (done.push(strip_cr(cur)), seq![])
        } else {
            (done, cur.push(s.last()))
        }
    }
}

/// The lines of `s` as `str::lines` gives them: split at `\n`, a `\r`
/// before the `\n` dropped, no empty line after a final `\n`.
pub open spec fn split_lines(s: Seq<char>) -> Seq<Seq<char>> {
    let (done, cur) = lines_acc(s);
    if cur.len() > 0 {
        done.push(cur)
    } else {
        done
    }
}

/// The cleaned text of the given lines and the number of blank lines at
/// its end.
pub open spec fn clean_acc(lines: Seq<Seq<char>>) -> (Seq<char>, nat)
    decreases lines.len(),
{
    if lines.len() == 0 {
        (seq![], 0)
    } else {
        let (r, blank) = clean_acc(lines.drop_last());
        let line = trim(lines.last());
        if line.len() == 0 {
            let b = blank + 1;
            if b <= 2 {
                (r.push('\n'), b)
            } else {
                (r, b)
            }
        } else {
            let r1 = if r.len() > 0 && r.last() != '\n' {
                r.push('\n')
            } else {
                r
            };
            (r1 + line + seq!['\n'], 0)
        }
    }
}

/// Each line trimmed, at most two blank lines in a row, the whole trimmed.
pub open spec fn clean_text_spec(s: Seq<char>) -> Seq<char> {
    trim(clean_acc(split_lines(s)).0)
}

/// The plain text of a node tree.
pub open spec fn plain_text_of(n: NodeView) -> Seq<char> {
    clean_text_spec(extract(n))
}

/// Extract plain text from a node tree.
pub fn extract_text(node: &Node) -> (r: String)
    ensures
        r@ == plain_text_of(node@),
{
    let mut output = String::new();
    extract_node(node, &mut output);
    clean_text(output.as_str())
}

fn first_attr<'a>(e: &'a Element, name: &str) -> (r: &'a str)
    ensures
        r@ == first_attr_value(attrs_view(e.attrs@), name@),
{
    let ghost a = attrs_view(e.attrs@);
    let mut i: usize = 0;
    assert(a.skip(0) == a);
    while i < e.attrs.len()
        invariant
            i <= e.attrs@.len(),
            a == attrs_view(e.attrs@),
            first_attr_value(a, name@) == first_attr_value(a.skip(i as int), name@),
        decreases e.attrs@.len() - i,
    {
        proof {
            assert(a.skip(i as int).skip(1) == a.skip(i + 1));
            assert(a.skip(i as int)[0] == a[i as int]);
        }
        if str_eq(e.attrs[i].name.as_str(), name) {
            return e.attrs[i].value.as_str();
        }
        i = i + 1;
    }
    proof {
        reveal_strlit("");
        assert(a.skip(i as int).len() == 0);
    }
    ""
}

/// Whether an element is hidden: `display: none` in its typed style, or
/// `display:none` in its `style` attribute.
pub fn is_hidden_element(e: &Element) -> (b: bool)
    ensures
        b == is_hidden(e@),
{
    let ghost ev = e@;
    proof {
        reveal_strlit("none");
        reveal_strlit("block");
        reveal_strlit("inline");
        reveal_strlit("inline-block");
        assert(ev.style[15] == e.style.prop(15));
    }
    match e.style.display {
        Some(Display::NoDisplay) => {
            return true;
        },
        _ => {
            proof {
                let d = e.style.display;
                if d is Some {
                    let v = d->0;
                    assert(v.css() != "none"@) by {
                        if v is Block {
                            assert(v.css().len() == 5);
                        } else if v is Inline {
                            assert(v.css().len() == 6);
                        } else {
                            assert(v.css().len() == 12);
                        }
                    }
                }
                assert(e.style.prop(15) != Some("none"@));
            }
        },
    }
    let mut i: usize = 0;
    while i < e.attrs.len()
        invariant
            i <= e.attrs@.len(),
            ev == e@,
            forall|j: int|
                0 <= j < i ==> !(ev.attrs[j].0 == "style"@ && contains_seq(
                    ev.attrs[j].1,
                    "display:none"@,
                )),
        decreases e.attrs@.len() - i,
    {
        if str_eq(e.attrs[i].name.as_str(), "style") && str_contains(
            e.attrs[i].value.as_str(),
            "display:none",
        ) {
            assert(ev.attrs[i as int].0 == "style"@);
            return true;
        }
        i = i + 1;
    }
    false
}

/// Whether an element of this tag ends a line in the plain text.
pub fn is_block_element(tag: &Tag) -> (b: bool)
    ensures
        b == is_block_tag(*tag),
{
    match tag {
        Tag::P | Tag::Div | Tag::H1 | Tag::H2 | Tag::H3 | Tag::H4 | Tag::H5 | Tag::H6 | Tag::Tr
        | Tag::Table | Tag::Pre => true,
        _ => false,
    }
}

fn trim_string(s: &String) -> (r: String)
    ensures
        r@ == trim(s@),
{
    let v = chars_of(s.as_str());
    let (lo, hi) = trim_bounds(&v);
    let mut r = String::new();
    push_chars(&mut r, &v, lo, hi);
    r
}

fn extract_node(node: &Node, output: &mut String)
    ensures
        final(output)@ == old(output)@ + extract(node@),
    decreases node,
{
    match node {
        Node::Text(text) => {
            output.append(text.as_str());
        },
        Node::Element(element) => {
            match &element.tag {
                Tag::A => {
                    let mut inner = String::new();
                    extract_children(&element.children, &mut inner);
                    let link = trim_string(&inner);
                    let href = first_attr(element, "href");
                    let link_nonempty = !link.as_str().is_empty();
                    let href_nonempty = !href.is_empty();
                    if link_nonempty && href_nonempty && !str_eq(link.as_str(), href) {
                        output.append(link.as_str());
                        output.append(" (");
                        output.append(href);
                        output.append(")");
                    } else if link_nonempty {
                        output.append(link.as_str());
                    } else if href_nonempty {
                        output.append(href);
                    }
                    return;
                },
                Tag::Img => {
                    let alt = first_attr(element, "alt");
                    if !alt.is_empty() {
                        output.append("[");
                        output.append(alt);
                        output.append("]");
                    }
                    return;
                },
                Tag::Hr => {
                    output.append("\n---\n");
                    return;
                },
                Tag::Br => {
                    output.append("\n");
                    return;
                },
                Tag::Head | Tag::Meta | Tag::Title => {
                    return;
                },
                _ => {},
            }
            if is_hidden_element(element) {
                return;
            }
            let is_block = is_block_element(&element.tag);
            if is_block {
                output.append("\n");
            }
            extract_children(&element.children, output);
            if is_block {
                output.append("\n");
            }
        },
        Node::Fragment(nodes) => {
            extract_children(nodes, output);
        },
        Node::Empty => {},
    }
}

fn extract_children(v: &Vec<Node>, output: &mut String)
    ensures
        final(output)@ == old(output)@ + extract_all(nodes_view(v@)),
    decreases v,
{
    let ghost start = output@;
    let mut i: usize = 0;
    while i < v.len()
        invariant
            i <= v@.len(),
            output@ == start + extract_all(nodes_view(v@.subrange(0, i as int))),
        decreases v@.len() - i,
    {
        assert(decreases_to!(v => v[i as int]));
        extract_node(&v[i], output);
        proof {
            assert(v@.subrange(0, i + 1) == v@.subrange(0, i as int).push(v@[i as int]));
            lemma_nodes_view_push(v@.subrange(0, i as int), v@[i as int]);
            let pre = nodes_view(v@.subrange(0, i as int));
            assert(pre.push(node_view(v@[i as int])).drop_last() == pre);
        }
        i = i + 1;
    }
    proof {
        assert(v@.subrange(0, v@.len() as int) == v@);
    }
}

/// The lines of `v`, split as `str::lines` splits.
pub fn split_into_lines(v: &Vec<char>) -> (lines: Vec<Vec<char>>)
    ensures
        lines@.len() == split_lines(v@).len(),
        forall|i: int| 0 <= i < lines@.len() ==> #[trigger] lines@[i]@ == split_lines(v@)[i],
{
    let mut done: Vec<Vec<char>> = Vec::new();
    let mut cur: Vec<char> = Vec::new();
    let mut i: usize = 0;
    while i < v.len()
        invariant
            i <= v@.len(),
            done@.len() == lines_acc(v@.subrange(0, i as int)).0.len(),
            forall|k: int|
                0 <= k < done@.len() ==> #[trigger] done@[k]@ == lines_acc(
                    v@.subrange(0, i as int),
                ).0[k],
            cur@ == lines_acc(v@.subrange(0, i as int)).1,
        decreases v@.len() - i,
    {
        proof {
            assert(v@.subrange(0, i + 1).drop_last() == v@.subrange(0, i as int));
        }
        let c = v[i];
        if c == '\n' {
            if cur.len() > 0 && cur[cur.len() - 1] == '\r' {
                cur.pop();
            }
            done.push(cur);
            cur = Vec::new();
        } else {
            cur.push(c);
        }
        i = i + 1;
    }
    proof {
        assert(v@.subrange(0, v@.len() as int) == v@);
    }
    if cur.len() > 0 {
        done.push(cur);
    }
    done
}

/// Clean up excessive whitespace in extracted text.
pub fn clean_text(input: &str) -> (r: String)
    ensures
        r@ == clean_text_spec(input@),
{
    let v = chars_of(input);
    let lines = split_into_lines(&v);
    let ghost ls = split_lines(v@);
    let mut result: Vec<char> = Vec::new();
    let mut blank_count: usize = 0;
    let mut i: usize = 0;
    while i < lines.len()
        invariant
            i <= lines@.len(),
            lines@.len() == ls.len(),
            forall|k: int| 0 <= k < lines@.len() ==> #[trigger] lines@[k]@ == ls[k],
            blank_count <= i,
            (result@, blank_count as nat) == clean_acc(ls.subrange(0, i as int)),
        decreases lines@.len() - i,
    {
        proof {
            assert(ls.subrange(0, i + 1).drop_last() == ls.subrange(0, i as int));
            assert(ls.subrange(0, i + 1).last() == ls[i as int]);
        }
        let line = &lines[i];
        let (lo, hi) = trim_bounds(line);
        if lo == hi {
            blank_count = blank_count + 1;
            if blank_count <= 2 {
                result.push('\n');
            }
        } else {
            blank_count = 0;
            if result.len() > 0 && result[result.len() - 1] != '\n' {
                result.push('\n');
            }
            let mut k = lo;
            let ghost before = result@;
            while k < hi
                invariant
                    lo <= k <= hi <= line@.len(),
                    result@ == before + line@.subrange(lo as int, k as int),
                decreases hi - k,
            {
                result.push(line[k]);
                proof {
                    assert(line@.subrange(lo as int, k + 1) == line@.subrange(lo as int, k as int).push(
                        line@[k as int],
                    ));
                }
                k = k + 1;
            }
            result.push('\n');
        }
        i = i + 1;
    }
    proof {
        assert(ls.subrange(0, ls.len() as int) == ls);
    }
    let (lo, hi) = trim_bounds(&result);
    let mut r = String::new();
    push_chars(&mut r, &result, lo, hi);
    r
}

} // verus!
