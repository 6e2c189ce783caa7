//! The `Node` tree: the intermediate representation between components and
//! rendered HTML.
//!
//! Each node has a view (`NodeView`), a tree of mathematical values that the
//! renderer's contracts speak of: tags, attribute name/value pairs, the
//! element's style view and the children's views.

use vstd::prelude::*;
use crate::text::string_of;
use crate::email_core::style::{Style, StyleView, empty_style};

verus! {

broadcast use {vstd::string::group_string_axioms, vstd::std_specs::vec::group_vec_axioms};

/// An HTML tag used in email rendering.
#[derive(Debug)]
pub enum Tag {
    Html,
    Head,
    Meta,
    Title,
    Body,
    Div,
    Span,
    Table,
    Tbody,
    Tr,
    Td,
    Th,
    P,
    H1,
    H2,
    H3,
    H4,
    H5,
    H6,
    A,
    Img,
    Hr,
    Br,
    Pre,
    Code,
    Strong,
    Em,
    /// A custom/raw tag name.
    Custom(String),
}

impl Clone for Tag {
    fn clone(&self) -> (r: Self)
        ensures
            r == *self,
    {
        match self {
            Tag::Html => Tag::Html,
            Tag::Head => Tag::Head,
            Tag::Meta => Tag::Meta,
            Tag::Title => Tag::Title,
            Tag::Body => Tag::Body,
            Tag::Div => Tag::Div,
            Tag::Span => Tag::Span,
            Tag::Table => Tag::Table,
            Tag::Tbody => Tag::Tbody,
            Tag::Tr => Tag::Tr,
            Tag::Td => Tag::Td,
            Tag::Th => Tag::Th,
            Tag::P => Tag::P,
            Tag::H1 => Tag::H1,
            Tag::H2 => Tag::H2,
            Tag::H3 => Tag::H3,
            Tag::H4 => Tag::H4,
            Tag::H5 => Tag::H5,
            Tag::H6 => Tag::H6,
            Tag::A => Tag::A,
            Tag::Img => Tag::Img,
            Tag::Hr => Tag::Hr,
            Tag::Br => Tag::Br,
            Tag::Pre => Tag::Pre,
            Tag::Code => Tag::Code,
            Tag::Strong => Tag::Strong,
            Tag::Em => Tag::Em,
            Tag::Custom(n) => Tag::Custom(n.clone()),
        }
    }
}

impl Tag {
    /// The HTML tag name.
    pub open spec fn name(self) -> Seq<char> {
        match self {
            Tag::Html => "html"@,
            Tag::Head => "head"@,
            Tag::Meta => "meta"@,
            Tag::Title => "title"@,
            Tag::Body => "body"@,
            Tag::Div => "div"@,
            Tag::Span => "span"@,
            Tag::Table => "table"@,
            Tag::Tbody => "tbody"@,
            Tag::Tr => "tr"@,
            Tag::Td => "td"@,
            Tag::Th => "th"@,
            Tag::P => "p"@,
            Tag::H1 => "h1"@,
            Tag::H2 => "h2"@,
            Tag::H3 => "h3"@,
            Tag::H4 => "h4"@,
            Tag::H5 => "h5"@,
            Tag::H6 => "h6"@,
            Tag::A => "a"@,
            Tag::Img => "img"@,
            Tag::Hr => "hr"@,
            Tag::Br => "br"@,
            Tag::Pre => "pre"@,
            Tag::Code => "code"@,
            Tag::Strong => "strong"@,
            Tag::Em => "em"@,
            Tag::Custom(n) => n@,
        }
    }

    /// Void (self-closing) elements: `meta`, `img`, `hr`, `br`.
    pub open spec fn spec_is_void(self) -> bool {
        self is Meta || self is Img || self is Hr || self is Br
    }

    /// Returns the HTML tag name string.
    pub fn as_str(&self) -> (s: &str)
        ensures
            s@ == self.name(),
    {
        match self {
            Tag::Html => "html",
            Tag::Head => "head",
            Tag::Meta => "meta",
            Tag::Title => "title",
            Tag::Body => "body",
            Tag::Div => "div",
            Tag::Span => "span",
            Tag::Table => "table",
            Tag::Tbody => "tbody",
            Tag::Tr => "tr",
            Tag::Td => "td",
            Tag::Th => "th",
            Tag::P => "p",
            Tag::H1 => "h1",
            Tag::H2 => "h2",
            Tag::H3 => "h3",
            Tag::H4 => "h4",
            Tag::H5 => "h5",
            Tag::H6 => "h6",
            Tag::A => "a",
            Tag::Img => "img",
            Tag::Hr => "hr",
            Tag::Br => "br",
            Tag::Pre => "pre",
            Tag::Code => "code",
            Tag::Strong => "strong",
            Tag::Em => "em",
            Tag::Custom(name) => name.as_str(),
        }
    }

    /// Returns true if this is a void/self-closing element.
    pub fn is_void(&self) -> (b: bool)
        ensures
            b == self.spec_is_void(),
    {
        match self {
            Tag::Meta | Tag::Img | Tag::Hr | Tag::Br => true,
            _ => false,
        }
    }
}

/// An attribute on an HTML element.
#[derive(Debug)]
pub struct Attr {
    pub name: String,
    pub value: String,
}

impl Clone for Attr {
    fn clone(&self) -> (r: Self)
        ensures
            r == *self,
    {
        Attr { name: self.name.clone(), value: self.value.clone() }
    }
}

impl Attr {
    pub fn new(name: &str, value: &str) -> (a: Attr)
        ensures
            a.name@ == name@,
            a.value@ == value@,
    {
        Attr { name: string_of(name), value: string_of(value) }
    }
}

/// The view of an element.
pub struct ElementView {
    pub tag: Tag,
    pub attrs: Seq<(Seq<char>, Seq<char>)>,
    pub style: StyleView,
    pub children: Seq<NodeView>,
}

/// The view of a node.
pub enum NodeView {
    Element(ElementView),
    Text(Seq<char>),
    Fragment(Seq<NodeView>),
    Empty,
}

/// An HTML element in the node tree.
#[derive(Debug)]
pub struct Element {
    pub tag: Tag,
    pub attrs: Vec<Attr>,
    pub style: Style,
    pub children: Vec<Node>,
}

/// A node in the email component tree.
#[derive(Debug)]
pub enum Node {
    /// An HTML element with tag, attributes, style, and children.
    Element(Element),
    /// A text node.
    Text(String),
    /// A fragment containing multiple nodes (no wrapper element).
    Fragment(Vec<Node>),
    /// An empty node (renders nothing).
    Empty,
}

/// The attributes as name/value pairs.
pub open spec fn attrs_view(a: Seq<Attr>) -> Seq<(Seq<char>, Seq<char>)> {
    a.map_values(|x: Attr| (x.name@, x.value@))
}

pub open spec fn element_view(e: Element) -> ElementView
    decreases e,
{
    ElementView {
        tag: e.tag,
        attrs: attrs_view(e.attrs@),
        style: e.style@,
        children: nodes_view(e.children@),
    }
}

pub open spec fn node_view(n: Node) -> NodeView
    decreases n,
{
    match n {
        Node::Element(e) => NodeView::Element(element_view(e)),
        Node::Text(t) => NodeView::Text(t@),
        Node::Fragment(ns) => NodeView::Fragment(nodes_view(ns@)),
        Node::Empty => NodeView::Empty,
    }
}

pub open spec fn nodes_view(s: Seq<Node>) -> Seq<NodeView>
    decreases s,
{
    if s.len() == 0 {
        seq![]
    } else {
        nodes_view(s.drop_last()).push(node_view(s.last()))
    }
}

impl View for Node {
    type V = NodeView;

    open spec fn view(&self) -> NodeView {
        node_view(*self)
    }
}

impl View for Element {
    type V = ElementView;

    open spec fn view(&self) -> ElementView {
        element_view(*self)
    }
}

pub proof fn lemma_nodes_view_push(s: Seq<Node>, x: Node)
    ensures
        nodes_view(s.push(x)) == nodes_view(s).push(node_view(x)),
{
    assert(s.push(x).drop_last() == s);
}

pub proof fn lemma_nodes_view_concat(a: Seq<Node>, b: Seq<Node>)
    ensures
        nodes_view(a + b) == nodes_view(a) + nodes_view(b),
    decreases b.len(),
{
    if b.len() == 0 {
        assert(a + b == a);
    } else {
        lemma_nodes_view_concat(a, b.drop_last());
        assert((a + b).drop_last() == a + b.drop_last());
        assert(nodes_view(a) + nodes_view(b) == nodes_view(a) + nodes_view(b.drop_last()).push(
            node_view(b.last()),
        ));
    }
}

impl Element {
    /// Create a new element with the given tag.
    pub fn new(tag: Tag) -> (e: Element)
        ensures
            e@ == (ElementView { tag, attrs: seq![], style: empty_style(), children: seq![] }),
    {
        let e = Element { tag, attrs: Vec::new(), style: Style::new(), children: Vec::new() };
        assert(attrs_view(e.attrs@) == Seq::<(Seq<char>, Seq<char>)>::empty());
        e
    }

    /// Add an attribute.
    pub fn attr(self, name: &str, value: &str) -> (e: Element)
        ensures
            e@ == (ElementView { attrs: self@.attrs.push((name@, value@)), ..self@ }),
    {
        let mut e = self;
        e.attrs.push(Attr::new(name, value));
        assert(attrs_view(e.attrs@) == attrs_view(self.attrs@).push((name@, value@)));
        e
    }

    /// Set the inline style.
    pub fn style(self, style: Style) -> (e: Element)
        ensures
            e@ == (ElementView { style: style@, ..self@ }),
    {
        let mut e = self;
        e.style = style;
        e
    }

    /// Add a child node.
    pub fn child(self, child: Node) -> (e: Element)
        ensures
            e@ == (ElementView { children: self@.children.push(child@), ..self@ }),
    {
        let mut e = self;
        proof {
            lemma_nodes_view_push(e.children@, child);
        }
        e.children.push(child);
        e
    }

    /// Add multiple children.
    pub fn children(self, children: Vec<Node>) -> (e: Element)
        ensures
            e@ == (ElementView { children: self@.children + nodes_view(children@), ..self@ }),
    {
        let mut e = self;
        let mut more = children;
        proof {
            lemma_nodes_view_concat(e.children@, more@);
        }
        e.children.append(&mut more);
        e
    }
}

impl Node {
    /// Create a text node.
    pub fn text(content: &str) -> (n: Node)
        ensures
            n@ == NodeView::Text(content@),
    {
        Node::Text(string_of(content))
    }

    /// Create an element node.
    pub fn element(tag: Tag) -> (e: Element)
        ensures
            e@ == (ElementView { tag, attrs: seq![], style: empty_style(), children: seq![] }),
    {
        Element::new(tag)
    }

    /// Create a fragment from multiple nodes.
    pub fn fragment(nodes: Vec<Node>) -> (n: Node)
        ensures
            n@ == NodeView::Fragment(nodes_view(nodes@)),
    {
        Node::Fragment(nodes)
    }
}

fn clone_attrs(a: &Vec<Attr>) -> (r: Vec<Attr>)
    ensures
        r@ == a@,
{
    let mut r: Vec<Attr> = Vec::new();
    let mut i: usize = 0;
    while i < a.len()
        invariant
            i <= a@.len(),
            r@ == a@.subrange(0, i as int),
        decreases a@.len() - i,
    {
        r.push(a[i].clone());
        proof {
            assert(a@.subrange(0, i + 1) == a@.subrange(0, i as int).push(a@[i as int]));
        }
        i = i + 1;
    }
    proof {
        assert(a@.subrange(0, a@.len() as int) == a@);
    }
    r
}

/// A copy of a node tree.
pub fn clone_node(n: &Node) -> (r: Node)
    ensures
        r@ == n@,
    decreases n,
{
    match n {
        Node::Element(e) => Node::Element(clone_element(e)),
        Node::Text(t) => Node::Text(t.clone()),
        Node::Fragment(ns) => Node::Fragment(clone_nodes(ns)),
        Node::Empty => Node::Empty,
    }
}

/// A copy of an element.
pub fn clone_element(e: &Element) -> (r: Element)
    ensures
        r@ == e@,
    decreases e,
{
    let attrs = clone_attrs(&e.attrs);
    let children = clone_nodes(&e.children);
    Element { tag: e.tag.clone(), attrs, style: e.style.clone(), children }
}

/// A copy of a sequence of nodes.
pub fn clone_nodes(v: &Vec<Node>) -> (r: Vec<Node>)
    ensures
        nodes_view(r@) == nodes_view(v@),
    decreases v,
{
    let mut r: Vec<Node> = Vec::new();
    let mut i: usize = 0;
    while i < v.len()
        invariant
            i <= v@.len(),
            nodes_view(r@) == nodes_view(v@.subrange(0, i as int)),
        decreases v@.len() - i,
    {
        assert(decreases_to!(v => v[i as int]));
        let c = clone_node(&v[i]);
        proof {
            lemma_nodes_view_push(r@, c);
            lemma_nodes_view_push(v@.subrange(0, i as int), v@[i as int]);
            assert(v@.subrange(0, i + 1) == v@.subrange(0, i as int).push(v@[i as int]));
        }
        r.push(c);
        i = i + 1;
    }
    proof {
        assert(v@.subrange(0, v@.len() as int) == v@);
    }
    r
}

impl Clone for Node {
    fn clone(&self) -> (r: Self)
        ensures
            r@ == self@,
    {
        clone_node(self)
    }
}

impl Clone for Element {
    fn clone(&self) -> (r: Self)
        ensures
            r@ == self@,
    {
        clone_element(self)
    }
}

} // verus!
