//! The typed inline style of an element and its CSS text.
//!
//! A style is modelled by its view: for each of the 22 properties, in the
//! fixed order below, the CSS text of its value if it is set.

use vstd::prelude::*;
use crate::text::{join, push_char};
use crate::email_core::color::Color;
use crate::email_core::spacing::Spacing;
use crate::email_core::types::{Px, FontFamily, FontWeight, SizeValue, TextAlign, VerticalAlign, LineHeight, Display, BorderStyle, TextDecoration};

verus! {

broadcast use vstd::string::group_string_axioms;

/// The view of a style: one optional CSS value per property.
pub type StyleView = Seq<Option<Seq<char>>>;

/// The number of style properties.
pub const PROPERTY_COUNT: usize = 22;

/// The CSS name of property `i`, in emission order.
pub open spec fn prop_name(i: int) -> Seq<char> {
    if i == 0 { "font-family"@ }
    else if i == 1 { "font-size"@ }
    else if i == 2 { "font-weight"@ }
    else if i == 3 { "color"@ }
    else if i == 4 { "background-color"@ }
    else if i == 5 { "padding"@ }
    else if i == 6 { "margin"@ }
    else if i == 7 { "border-radius"@ }
    else if i == 8 { "width"@ }
    else if i == 9 { "max-width"@ }
    else if i == 10 { "min-width"@ }
    else if i == 11 { "height"@ }
    else if i == 12 { "text-align"@ }
    else if i == 13 { "vertical-align"@ }
    else if i == 14 { "line-height"@ }
    else if i == 15 { "display"@ }
    else if i == 16 { "border"@ }
    else if i == 17 { "border-bottom"@ }
    else if i == 18 { "border-top"@ }
    else if i == 19 { "text-decoration"@ }
    else if i == 20 { "letter-spacing"@ }
    else { "word-spacing"@ }
}

fn property_name(i: usize) -> (s: &'static str)
    requires
        i < 22,
    ensures
        s@ == prop_name(i as int),
{
    if i == 0 { "font-family" }
    else if i == 1 { "font-size" }
    else if i == 2 { "font-weight" }
    else if i == 3 { "color" }
    else if i == 4 { "background-color" }
    else if i == 5 { "padding" }
    else if i == 6 { "margin" }
    else if i == 7 { "border-radius" }
    else if i == 8 { "width" }
    else if i == 9 { "max-width" }
    else if i == 10 { "min-width" }
    else if i == 11 { "height" }
    else if i == 12 { "text-align" }
    else if i == 13 { "vertical-align" }
    else if i == 14 { "line-height" }
    else if i == 15 { "display" }
    else if i == 16 { "border" }
    else if i == 17 { "border-bottom" }
    else if i == 18 { "border-top" }
    else if i == 19 { "text-decoration" }
    else if i == 20 { "letter-spacing" }
    else { "word-spacing" }
}

/// The style with no property set.
pub open spec fn no_style() -> Style {
    Style {
        font_family: None,
        font_size: None,
        font_weight: None,
        color: None,
        background_color: None,
        padding: None,
        margin: None,
        border_radius: None,
        width: None,
        max_width: None,
        min_width: None,
        height: None,
        text_align: None,
        vertical_align: None,
        line_height: None,
        display: None,
        border: None,
        border_bottom: None,
        border_top: None,
        text_decoration: None,
        letter_spacing: None,
        word_spacing: None,
    }
}

/// The view of a style with no property set.
pub open spec fn empty_style() -> StyleView {
    Seq::new(22, |i: int| None::<Seq<char>>)
}

/// The `name:value` entries of the set properties among the first `n`.
pub open spec fn css_entries(props: StyleView, n: int) -> Seq<Seq<char>>
    decreases n,
{
    if n <= 0 {
        seq![]
    } else {
        let prev = css_entries(props, n - 1);
        match props[n - 1] {
            Some(v) => prev.push(prop_name(n - 1) + ":"@ + v),
            None => prev,
        }
    }
}

/// The inline CSS of a style: the set properties joined with `;`, or
/// nothing when no property is set.
pub open spec fn style_css(props: StyleView) -> Option<Seq<char>> {
    let e = css_entries(props, props.len() as int);
    if e.len() == 0 {
        None
    } else {
        Some(join(e, ";"@))
    }
}

/// `base` with every property that `over` sets taken from `over`.
pub open spec fn merge_view(base: StyleView, over: StyleView) -> StyleView {
    Seq::new(
        base.len(),
        |i: int|
            if over[i] is Some {
                over[i]
            } else {
                base[i]
            },
    )
}

/// A border specification.
#[derive(Debug)]
pub struct Border {
    pub width: Px,
    pub style: BorderStyle,
    pub color: Color,
}

impl Clone for Border {
    fn clone(&self) -> (r: Self)
        ensures
            r == *self,
    {
        Border { width: self.width, style: self.style, color: self.color.clone() }
    }
}

impl Border {
    /// The CSS text: width, style and color separated by spaces.
    pub open spec fn css(self) -> Seq<char> {
        self.width.css() + " "@ + self.style.css() + " "@ + self.color.css()
    }

    pub fn new(width: Px, style: BorderStyle, color: Color) -> (b: Border)
        ensures
            b == (Border { width, style, color }),
    {
        Border { width, style, color }
    }

    pub fn solid(width: Px, color: Color) -> (b: Border)
        ensures
            b == (Border { width, style: BorderStyle::Solid, color }),
    {
        Border::new(width, BorderStyle::Solid, color)
    }

    /// Render as CSS text (`1px solid #eaeaea`).
    pub fn to_string(&self) -> (s: String)
        ensures
            s@ == self.css(),
    {
        let mut s = self.width.to_string();
        s.append(" ");
        s.append(self.style.to_string().as_str());
        s.append(" ");
        s.append(self.color.to_string().as_str());
        s
    }
}

/// A typed inline style map for email elements.
///
/// All properties are optional. Only set properties are emitted as CSS.
#[derive(Debug)]
pub struct Style {
    pub font_family: Option<FontFamily>,
    pub font_size: Option<Px>,
    pub font_weight: Option<FontWeight>,
    pub color: Option<Color>,
    pub background_color: Option<Color>,
    pub padding: Option<Spacing>,
    pub margin: Option<Spacing>,
    pub border_radius: Option<Px>,
    pub width: Option<SizeValue>,
    pub max_width: Option<SizeValue>,
    pub min_width: Option<SizeValue>,
    pub height: Option<SizeValue>,
    pub text_align: Option<TextAlign>,
    pub vertical_align: Option<VerticalAlign>,
    pub line_height: Option<LineHeight>,
    pub display: Option<Display>,
    pub border: Option<Border>,
    pub border_bottom: Option<Border>,
    pub border_top: Option<Border>,
    pub text_decoration: Option<TextDecoration>,
    pub letter_spacing: Option<Px>,
    pub word_spacing: Option<Px>,
}

pub open spec fn px_css(o: Option<Px>) -> Option<Seq<char>> {
    match o { Some(v) => Some(v.css()), None => None }
}

pub open spec fn font_family_css(o: Option<FontFamily>) -> Option<Seq<char>> {
    match o { Some(v) => Some(v.css()), None => None }
}

pub open spec fn color_css(o: Option<Color>) -> Option<Seq<char>> {
    match o { Some(v) => Some(v.css()), None => None }
}

pub open spec fn spacing_css(o: Option<Spacing>) -> Option<Seq<char>> {
    match o { Some(v) => Some(v.css()), None => None }
}

pub open spec fn size_css(o: Option<SizeValue>) -> Option<Seq<char>> {
    match o { Some(v) => Some(v.css()), None => None }
}

pub open spec fn border_css(o: Option<Border>) -> Option<Seq<char>> {
    match o { Some(v) => Some(v.css()), None => None }
}

impl Style {
    /// The CSS value of property `i`, if it is set.
    pub open spec fn prop(self, i: int) -> Option<Seq<char>> {
        if i == 0 { font_family_css(self.font_family) }
        else if i == 1 { px_css(self.font_size) }
        else if i == 2 { match self.font_weight { Some(v) => Some(v.css()), None => None } }
        else if i == 3 { color_css(self.color) }
        else if i == 4 { color_css(self.background_color) }
        else if i == 5 { spacing_css(self.padding) }
        else if i == 6 { spacing_css(self.margin) }
        else if i == 7 { px_css(self.border_radius) }
        else if i == 8 { size_css(self.width) }
        else if i == 9 { size_css(self.max_width) }
        else if i == 10 { size_css(self.min_width) }
        else if i == 11 { size_css(self.height) }
        else if i == 12 { match self.text_align { Some(v) => Some(v.css()), None => None } }
        else if i == 13 { match self.vertical_align { Some(v) => Some(v.css()), None => None } }
        else if i == 14 { match self.line_height { Some(v) => Some(v.css()), None => None } }
        else if i == 15 { match self.display { Some(v) => Some(v.css()), None => None } }
        else if i == 16 { border_css(self.border) }
        else if i == 17 { border_css(self.border_bottom) }
        else if i == 18 { border_css(self.border_top) }
        else if i == 19 { match self.text_decoration { Some(v) => Some(v.css()), None => None } }
        else if i == 20 { px_css(self.letter_spacing) }
        else { px_css(self.word_spacing) }
    }
}

impl View for Style {
    type V = StyleView;

    open spec fn view(&self) -> StyleView {
        Seq::new(22, |i: int| self.prop(i))
    }
}

/// The style whose properties are those set in `over`, and otherwise those
/// of `base`.
pub open spec fn merged(base: Style, over: Style) -> Style {
    Style {
        font_family: if over.font_family is Some { over.font_family } else { base.font_family },
        font_size: if over.font_size is Some { over.font_size } else { base.font_size },
        font_weight: if over.font_weight is Some { over.font_weight } else { base.font_weight },
        color: if over.color is Some { over.color } else { base.color },
        background_color: if over.background_color is Some { over.background_color } else { base.background_color },
        padding: if over.padding is Some { over.padding } else { base.padding },
        margin: if over.margin is Some { over.margin } else { base.margin },
        border_radius: if over.border_radius is Some { over.border_radius } else { base.border_radius },
        width: if over.width is Some { over.width } else { base.width },
        max_width: if over.max_width is Some { over.max_width } else { base.max_width },
        min_width: if over.min_width is Some { over.min_width } else { base.min_width },
        height: if over.height is Some { over.height } else { base.height },
        text_align: if over.text_align is Some { over.text_align } else { base.text_align },
        vertical_align: if over.vertical_align is Some { over.vertical_align } else { base.vertical_align },
        line_height: if over.line_height is Some { over.line_height } else { base.line_height },
        display: if over.display is Some { over.display } else { base.display },
        border: if over.border is Some { over.border } else { base.border },
        border_bottom: if over.border_bottom is Some { over.border_bottom } else { base.border_bottom },
        border_top: if over.border_top is Some { over.border_top } else { base.border_top },
        text_decoration: if over.text_decoration is Some { over.text_decoration } else { base.text_decoration },
        letter_spacing: if over.letter_spacing is Some { over.letter_spacing } else { base.letter_spacing },
        word_spacing: if over.word_spacing is Some { over.word_spacing } else { base.word_spacing },
    }
}

/// Merging on styles is merging on their views.
pub proof fn lemma_merged_view(base: Style, over: Style)
    ensures
        merged(base, over)@ == merge_view(base@, over@),
{
    assert(merged(base, over)@ =~= merge_view(base@, over@));
}

fn opt_px(o: &Option<Px>) -> (r: Option<String>)
    ensures
        opt_text(r) == px_css(*o),
{
    match o { Some(v) => Some(v.to_string()), None => None }
}

fn opt_color(o: &Option<Color>) -> (r: Option<String>)
    ensures
        opt_text(r) == color_css(*o),
{
    match o { Some(v) => Some(v.to_string()), None => None }
}

fn opt_spacing(o: &Option<Spacing>) -> (r: Option<String>)
    ensures
        opt_text(r) == spacing_css(*o),
{
    match o { Some(v) => Some(v.to_string()), None => None }
}

fn opt_size(o: &Option<SizeValue>) -> (r: Option<String>)
    ensures
        opt_text(r) == size_css(*o),
{
    match o { Some(v) => Some(v.to_string()), None => None }
}

fn opt_border(o: &Option<Border>) -> (r: Option<String>)
    ensures
        opt_text(r) == border_css(*o),
{
    match o { Some(v) => Some(v.to_string()), None => None }
}

fn pick<T: Copy>(a: Option<T>, b: Option<T>) -> (r: Option<T>)
    ensures
        r == if b is Some { b } else { a },
{
    if b.is_some() { b } else { a }
}

fn pick_ff(a: &Option<FontFamily>, b: &Option<FontFamily>) -> (r: Option<FontFamily>)
    ensures
        r == if b is Some { *b } else { *a },
{
    if b.is_some() { clone_opt_ff(b) } else { clone_opt_ff(a) }
}

fn pick_color(a: &Option<Color>, b: &Option<Color>) -> (r: Option<Color>)
    ensures
        r == if b is Some { *b } else { *a },
{
    if b.is_some() { clone_opt_color(b) } else { clone_opt_color(a) }
}

fn pick_border(a: &Option<Border>, b: &Option<Border>) -> (r: Option<Border>)
    ensures
        r == if b is Some { *b } else { *a },
{
    if b.is_some() { clone_opt_border(b) } else { clone_opt_border(a) }
}

pub fn clone_opt_ff(o: &Option<FontFamily>) -> (r: Option<FontFamily>)
    ensures
        r == *o,
{
    match o { Some(v) => Some(v.clone()), None => None }
}

pub fn clone_opt_color(o: &Option<Color>) -> (r: Option<Color>)
    ensures
        r == *o,
{
    match o { Some(v) => Some(v.clone()), None => None }
}

pub fn clone_opt_border(o: &Option<Border>) -> (r: Option<Border>)
    ensures
        r == *o,
{
    match o { Some(v) => Some(v.clone()), None => None }
}

/// The view of an optional string.
pub open spec fn opt_text(o: Option<String>) -> Option<Seq<char>> {
    match o { Some(s) => Some(s@), None => None }
}

/// The CSS of a view in which only property `k` is set: that property's
/// name, a colon and its value.
proof fn lemma_css_entries_single(props: StyleView, k: int, n: int)
    requires
        0 <= k < props.len(),
        props[k] is Some,
        forall|i: int| 0 <= i < props.len() && i != k ==> #[trigger] props[i] is None,
        n <= props.len(),
    ensures
        css_entries(props, n) == if n <= k { seq![] } else { seq![prop_name(k) + ":"@ + props[k]->0] },
    decreases n,
{
    if n > 0 {
        lemma_css_entries_single(props, k, n - 1);
        if n - 1 != k {
            assert(props[n - 1] is None);
        } else {
            assert(seq![].push(prop_name(k) + ":"@ + props[k]->0) =~= seq![prop_name(k) + ":"@ + props[k]->0]);
        }
    }
}

/// A style with only property `k` set has the CSS `name:value` of that
/// property.
proof fn lemma_only_property(x: Style, k: int)
    requires
        0 <= k < 22,
        x.prop(k) is Some,
        forall|i: int| 0 <= i < 22 && i != k ==> #[trigger] x.prop(i) is None,
    ensures
        style_css(x@) == Some(prop_name(k) + ":"@ + x.prop(k)->0),
{
    let v = x@;
    assert forall|i: int| 0 <= i < v.len() && i != k implies #[trigger] v[i] is None by {
        assert(v[i] == x.prop(i));
    }
    assert(v[k] == x.prop(k));
    lemma_css_entries_single(v, k, 22);
}

/// Each property of a style is written under its own CSS name: a style
/// that sets a single property gives exactly `name:value`, with the name
/// of that property (padding as `padding`, margin as `margin`, and so on).
pub proof fn lemma_each_property_named(s: Style)
    ensures
        s.font_family is Some ==> style_css((Style { font_family: s.font_family, ..no_style() })@) == Some("font-family"@ + ":"@ + s.font_family->0.css()),
        s.font_size is Some ==> style_css((Style { font_size: s.font_size, ..no_style() })@) == Some("font-size"@ + ":"@ + s.font_size->0.css()),
        s.font_weight is Some ==> style_css((Style { font_weight: s.font_weight, ..no_style() })@) == Some("font-weight"@ + ":"@ + s.font_weight->0.css()),
        s.color is Some ==> style_css((Style { color: s.color, ..no_style() })@) == Some("color"@ + ":"@ + s.color->0.css()),
        s.background_color is Some ==> style_css((Style { background_color: s.background_color, ..no_style() })@) == Some("background-color"@ + ":"@ + s.background_color->0.css()),
        s.padding is Some ==> style_css((Style { padding: s.padding, ..no_style() })@) == Some("padding"@ + ":"@ + s.padding->0.css()),
        s.margin is Some ==> style_css((Style { margin: s.margin, ..no_style() })@) == Some("margin"@ + ":"@ + s.margin->0.css()),
        s.border_radius is Some ==> style_css((Style { border_radius: s.border_radius, ..no_style() })@) == Some("border-radius"@ + ":"@ + s.border_radius->0.css()),
        s.width is Some ==> style_css((Style { width: s.width, ..no_style() })@) == Some("width"@ + ":"@ + s.width->0.css()),
        s.max_width is Some ==> style_css((Style { max_width: s.max_width, ..no_style() })@) == Some("max-width"@ + ":"@ + s.max_width->0.css()),
        s.min_width is Some ==> style_css((Style { min_width: s.min_width, ..no_style() })@) == Some("min-width"@ + ":"@ + s.min_width->0.css()),
        s.height is Some ==> style_css((Style { height: s.height, ..no_style() })@) == Some("height"@ + ":"@ + s.height->0.css()),
        s.text_align is Some ==> style_css((Style { text_align: s.text_align, ..no_style() })@) == Some("text-align"@ + ":"@ + s.text_align->0.css()),
        s.vertical_align is Some ==> style_css((Style { vertical_align: s.vertical_align, ..no_style() })@) == Some("vertical-align"@ + ":"@ + s.vertical_align->0.css()),
        s.line_height is Some ==> style_css((Style { line_height: s.line_height, ..no_style() })@) == Some("line-height"@ + ":"@ + s.line_height->0.css()),
        s.display is Some ==> style_css((Style { display: s.display, ..no_style() })@) == Some("display"@ + ":"@ + s.display->0.css()),
        s.border is Some ==> style_css((Style { border: s.border, ..no_style() })@) == Some("border"@ + ":"@ + s.border->0.css()),
        s.border_bottom is Some ==> style_css((Style { border_bottom: s.border_bottom, ..no_style() })@) == Some("border-bottom"@ + ":"@ + s.border_bottom->0.css()),
        s.border_top is Some ==> style_css((Style { border_top: s.border_top, ..no_style() })@) == Some("border-top"@ + ":"@ + s.border_top->0.css()),
        s.text_decoration is Some ==> style_css((Style { text_decoration: s.text_decoration, ..no_style() })@) == Some("text-decoration"@ + ":"@ + s.text_decoration->0.css()),
        s.letter_spacing is Some ==> style_css((Style { letter_spacing: s.letter_spacing, ..no_style() })@) == Some("letter-spacing"@ + ":"@ + s.letter_spacing->0.css()),
        s.word_spacing is Some ==> style_css((Style { word_spacing: s.word_spacing, ..no_style() })@) == Some("word-spacing"@ + ":"@ + s.word_spacing->0.css()),
{
    if s.font_family is Some {
        let x = Style { font_family: s.font_family, ..no_style() };
        lemma_only_property(x, 0);
    }
    if s.font_size is Some {
        let x = Style { font_size: s.font_size, ..no_style() };
        lemma_only_property(x, 1);
    }
    if s.font_weight is Some {
        let x = Style { font_weight: s.font_weight, ..no_style() };
        lemma_only_property(x, 2);
    }
    if s.color is Some {
        let x = Style { color: s.color, ..no_style() };
        lemma_only_property(x, 3);
    }
    if s.background_color is Some {
        let x = Style { background_color: s.background_color, ..no_style() };
        lemma_only_property(x, 4);
    }
    if s.padding is Some {
        let x = Style { padding: s.padding, ..no_style() };
        lemma_only_property(x, 5);
    }
    if s.margin is Some {
        let x = Style { margin: s.margin, ..no_style() };
        lemma_only_property(x, 6);
    }
    if s.border_radius is Some {
        let x = Style { border_radius: s.border_radius, ..no_style() };
        lemma_only_property(x, 7);
    }
    if s.width is Some {
        let x = Style { width: s.width, ..no_style() };
        lemma_only_property(x, 8);
    }
    if s.max_width is Some {
        let x = Style { max_width: s.max_width, ..no_style() };
        lemma_only_property(x, 9);
    }
    if s.min_width is Some {
        let x = Style { min_width: s.min_width, ..no_style() };
        lemma_only_property(x, 10);
    }
    if s.height is Some {
        let x = Style { height: s.height, ..no_style() };
        lemma_only_property(x, 11);
    }
    if s.text_align is Some {
        let x = Style { text_align: s.text_align, ..no_style() };
        lemma_only_property(x, 12);
    }
    if s.vertical_align is Some {
        let x = Style { vertical_align: s.vertical_align, ..no_style() };
        lemma_only_property(x, 13);
    }
    if s.line_height is Some {
        let x = Style { line_height: s.line_height, ..no_style() };
        lemma_only_property(x, 14);
    }
    if s.display is Some {
        let x = Style { display: s.display, ..no_style() };
        lemma_only_property(x, 15);
    }
    if s.border is Some {
        let x = Style { border: s.border, ..no_style() };
        lemma_only_property(x, 16);
    }
    if s.border_bottom is Some {
        let x = Style { border_bottom: s.border_bottom, ..no_style() };
        lemma_only_property(x, 17);
    }
    if s.border_top is Some {
        let x = Style { border_top: s.border_top, ..no_style() };
        lemma_only_property(x, 18);
    }
    if s.text_decoration is Some {
        let x = Style { text_decoration: s.text_decoration, ..no_style() };
        lemma_only_property(x, 19);
    }
    if s.letter_spacing is Some {
        let x = Style { letter_spacing: s.letter_spacing, ..no_style() };
        lemma_only_property(x, 20);
    }
    if s.word_spacing is Some {
        let x = Style { word_spacing: s.word_spacing, ..no_style() };
        lemma_only_property(x, 21);
    }
}

proof fn lemma_css_entries_len(props: StyleView, n: int)
    ensures
        css_entries(props, n).len() <= if n < 0 { 0 } else { n },
    decreases n,
{
    if n > 0 {
        lemma_css_entries_len(props, n - 1);
    }
}

impl Style {
    /// Create a new empty style.
    pub fn new() -> (s: Style)
        ensures
            s == no_style(),
            s@ == empty_style(),
    {
        let s = Style {
            font_family: None,
            font_size: None,
            font_weight: None,
            color: None,
            background_color: None,
            padding: None,
            margin: None,
            border_radius: None,
            width: None,
            max_width: None,
            min_width: None,
            height: None,
            text_align: None,
            vertical_align: None,
            line_height: None,
            display: None,
            border: None,
            border_bottom: None,
            border_top: None,
            text_decoration: None,
            letter_spacing: None,
            word_spacing: None,
        };
        assert(s@ == empty_style());
        s
    }

    /// The CSS value of property `i`.
    fn css_value(&self, i: usize) -> (v: Option<String>)
        requires
            i < 22,
        ensures
            opt_text(v) == self.prop(i as int),
    {
        if i == 0 { match &self.font_family { Some(f) => Some(f.to_string()), None => None } }
        else if i == 1 { opt_px(&self.font_size) }
        else if i == 2 { match &self.font_weight { Some(f) => Some(f.to_string()), None => None } }
        else if i == 3 { opt_color(&self.color) }
        else if i == 4 { opt_color(&self.background_color) }
        else if i == 5 { opt_spacing(&self.padding) }
        else if i == 6 { opt_spacing(&self.margin) }
        else if i == 7 { opt_px(&self.border_radius) }
        else if i == 8 { opt_size(&self.width) }
        else if i == 9 { opt_size(&self.max_width) }
        else if i == 10 { opt_size(&self.min_width) }
        else if i == 11 { opt_size(&self.height) }
        else if i == 12 { match &self.text_align { Some(f) => Some(f.to_string()), None => None } }
        else if i == 13 { match &self.vertical_align { Some(f) => Some(f.to_string()), None => None } }
        else if i == 14 { match &self.line_height { Some(f) => Some(f.to_string()), None => None } }
        else if i == 15 { match &self.display { Some(f) => Some(f.to_string()), None => None } }
        else if i == 16 { opt_border(&self.border) }
        else if i == 17 { opt_border(&self.border_bottom) }
        else if i == 18 { opt_border(&self.border_top) }
        else if i == 19 { match &self.text_decoration { Some(f) => Some(f.to_string()), None => None } }
        else if i == 20 { opt_px(&self.letter_spacing) }
        else { opt_px(&self.word_spacing) }
    }

    /// Render this style to a CSS inline style string.
    ///
    /// Returns `None` if no properties are set.
    pub fn to_css(&self) -> (r: Option<String>)
        ensures
            opt_text(r) == style_css(self@),
    {
        let mut out = String::new();
        let mut count: usize = 0;
        let mut i: usize = 0;
        while i < 22
            invariant
                i <= 22,
                count == css_entries(self@, i as int).len(),
                count <= i,
                out@ == join(css_entries(self@, i as int), ";"@),
            decreases 22 - i,
        {
            proof {
                lemma_css_entries_len(self@, i as int);
            }
            let value_opt = self.css_value(i);
            assert(self@[i as int] == self.prop(i as int));
            match &value_opt {
                Some(value) => {
                    if count > 0 {
                        push_char(&mut out, ';');
                        proof {
                            reveal_strlit(";");
                        }
                    }
                    out.append(property_name(i));
                    push_char(&mut out, ':');
                    out.append(value.as_str());
                    proof {
                        reveal_strlit(":");
                        let e = css_entries(self@, i + 1);
                        assert(e.drop_last() == css_entries(self@, i as int));
                    }
                    count = count + 1;
                },
                None => {},
            }
            i = i + 1;
        }
        proof {
            assert(self@.len() == 22);
        }
        if count == 0 {
            None
        } else {
            Some(out)
        }
    }

    /// Merge another style into this one. Properties set in `other` override.
    pub fn merge(&mut self, other: &Style)
        ensures
            *final(self) == merged(*old(self), *other),
    {
        let m = Style {
            font_family: pick_ff(&self.font_family, &other.font_family),
            font_size: pick(self.font_size, other.font_size),
            font_weight: pick(self.font_weight, other.font_weight),
            color: pick_color(&self.color, &other.color),
            background_color: pick_color(&self.background_color, &other.background_color),
            padding: pick(self.padding, other.padding),
            margin: pick(self.margin, other.margin),
            border_radius: pick(self.border_radius, other.border_radius),
            width: pick(self.width, other.width),
            max_width: pick(self.max_width, other.max_width),
            min_width: pick(self.min_width, other.min_width),
            height: pick(self.height, other.height),
            text_align: pick(self.text_align, other.text_align),
            vertical_align: pick(self.vertical_align, other.vertical_align),
            line_height: pick(self.line_height, other.line_height),
            display: pick(self.display, other.display),
            border: pick_border(&self.border, &other.border),
            border_bottom: pick_border(&self.border_bottom, &other.border_bottom),
            border_top: pick_border(&self.border_top, &other.border_top),
            text_decoration: pick(self.text_decoration, other.text_decoration),
            letter_spacing: pick(self.letter_spacing, other.letter_spacing),
            word_spacing: pick(self.word_spacing, other.word_spacing),
        };
        *self = m;
    }
}

impl Clone for Style {
    fn clone(&self) -> (r: Self)
        ensures
            r@ == self@,
    {
        Style {
            font_family: self.font_family.clone(),
            font_size: self.font_size,
            font_weight: self.font_weight,
            color: self.color.clone(),
            background_color: self.background_color.clone(),
            padding: self.padding,
            margin: self.margin,
            border_radius: self.border_radius,
            width: self.width,
            max_width: self.max_width,
            min_width: self.min_width,
            height: self.height,
            text_align: self.text_align,
            vertical_align: self.vertical_align,
            line_height: self.line_height,
            display: self.display,
            border: self.border.clone(),
            border_bottom: self.border_bottom.clone(),
            border_top: self.border_top.clone(),
            text_decoration: self.text_decoration,
            letter_spacing: self.letter_spacing,
            word_spacing: self.word_spacing,
        }
    }
}

impl Default for Style {
    fn default() -> (s: Style)
        ensures
            s@ == empty_style(),
    {
        Style::new()
    }
}

/// Two styles have the same view when every property has the same CSS.
pub proof fn lemma_style_views_agree(a: Style, b: Style)
    requires
        forall|i: int| 0 <= i < 22 ==> a.prop(i) == b.prop(i),
    ensures
        a@ == b@,
{
    assert(a@ =~= b@);
}

} // verus!
