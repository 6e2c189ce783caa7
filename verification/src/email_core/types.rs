//! Primitive CSS values used throughout the framework: pixel and percentage
//! sizes, font weights, alignments, font families, line heights, display,
//! border styles, text decorations and heading levels.
//!
//! Each value has a `css()` spec function, the exact text it renders as, and
//! a `to_string()` method that produces that text.

use vstd::prelude::*;
use crate::text::{nat_text, u64_text};
use crate::email_core::decimal::Decimal;

verus! {

broadcast use vstd::string::group_string_axioms;

/// A pixel value for sizing and spacing.
#[derive(Debug, Clone, Copy, PartialEq, Eq, Structural)]
pub struct Px(pub u32);

impl Px {
    /// The CSS text: the number followed by `px`.
    pub open spec fn css(self) -> Seq<char> {
        nat_text(self.0 as nat) + "px"@
    }

    /// Render as CSS text (`16px`).
    pub fn to_string(&self) -> (s: String)
        ensures
            s@ == self.css(),
    {
        let mut s = u64_text(self.0 as u64);
        s.append("px");
        s
    }
}

/// A percentage value.
#[derive(Debug, Clone, Copy, PartialEq, Eq, Structural)]
pub struct Percent(pub Decimal);

impl Percent {
    /// The CSS text: the number followed by `%`.
    pub open spec fn css(self) -> Seq<char> {
        self.0.css() + "%"@
    }

    /// Render as CSS text (`50%`).
    pub fn to_string(&self) -> (s: String)
        ensures
            s@ == self.css(),
    {
        let mut s = self.0.to_string();
        s.append("%");
        s
    }
}

/// A size value that can be either pixels or a percentage.
#[derive(Debug, Clone, Copy, PartialEq, Eq, Structural)]
pub enum SizeValue {
    Px(Px),
    Percent(Percent),
    Auto,
}

impl SizeValue {
    pub open spec fn css(self) -> Seq<char> {
        match self {
            SizeValue::Px(px) => px.css(),
            SizeValue::Percent(p) => p.css(),
            SizeValue::Auto => "auto"@,
        }
    }

    /// Render as CSS text.
    pub fn to_string(&self) -> (s: String)
        ensures
            s@ == self.css(),
    {
        match self {
            SizeValue::Px(px) => px.to_string(),
            SizeValue::Percent(p) => p.to_string(),
            SizeValue::Auto => String::from_str("auto"),
        }
    }
}

/// Font weight values.
#[derive(Debug, Clone, Copy, PartialEq, Eq, Structural)]
pub enum FontWeight {
    Thin,
    Light,
    Normal,
    Medium,
    SemiBold,
    Bold,
    ExtraBold,
    Black,
    Numeric(u16),
}

impl FontWeight {
    pub open spec fn css(self) -> Seq<char> {
        match self {
            FontWeight::Thin => "100"@,
            FontWeight::Light => "300"@,
            FontWeight::Normal => "400"@,
            FontWeight::Medium => "500"@,
            FontWeight::SemiBold => "600"@,
            FontWeight::Bold => "700"@,
            FontWeight::ExtraBold => "800"@,
            FontWeight::Black => "900"@,
            FontWeight::Numeric(n) => nat_text(n as nat),
        }
    }

    /// Render as CSS text (`700`).
    pub fn to_string(&self) -> (s: String)
        ensures
            s@ == self.css(),
    {
        match self {
            FontWeight::Thin => String::from_str("100"),
            FontWeight::Light => String::from_str("300"),
            FontWeight::Normal => String::from_str("400"),
            FontWeight::Medium => String::from_str("500"),
            FontWeight::SemiBold => String::from_str("600"),
            FontWeight::Bold => String::from_str("700"),
            FontWeight::ExtraBold => String::from_str("800"),
            FontWeight::Black => String::from_str("900"),
            FontWeight::Numeric(n) => u64_text(*n as u64),
        }
    }
}

/// Text alignment.
#[derive(Debug, Clone, Copy, PartialEq, Eq, Structural)]
pub enum TextAlign {
    Left,
    Center,
    Right,
}

impl TextAlign {
    pub open spec fn css(self) -> Seq<char> {
        match self {
            TextAlign::Left => "left"@,
            TextAlign::Center => "center"@,
            TextAlign::Right => "right"@,
        }
    }

    /// Render as CSS text.
    pub fn to_string(&self) -> (s: String)
        ensures
            s@ == self.css(),
    {
        match self {
            TextAlign::Left => String::from_str("left"),
            TextAlign::Center => String::from_str("center"),
            TextAlign::Right => String::from_str("right"),
        }
    }
}

/// Vertical alignment.
#[derive(Debug, Clone, Copy, PartialEq, Eq, Structural)]
pub enum VerticalAlign {
    Top,
    Middle,
    Bottom,
}

impl VerticalAlign {
    pub open spec fn css(self) -> Seq<char> {
        match self {
            VerticalAlign::Top => "top"@,
            VerticalAlign::Middle => "middle"@,
            VerticalAlign::Bottom => "bottom"@,
        }
    }

    /// Render as CSS text.
    pub fn to_string(&self) -> (s: String)
        ensures
            s@ == self.css(),
    {
        match self {
            VerticalAlign::Top => String::from_str("top"),
            VerticalAlign::Middle => String::from_str("middle"),
            VerticalAlign::Bottom => String::from_str("bottom"),
        }
    }
}

/// Font family specification.
#[derive(Debug)]
pub enum FontFamily {
    /// A named font stack (e.g., "Arial, Helvetica, sans-serif").
    Named(String),
    /// Common email-safe font stacks.
    SansSerif,
    Serif,
    Monospace,
}

impl Clone for FontFamily {
    fn clone(&self) -> (r: Self)
        ensures
            r == *self,
    {
        match self {
            FontFamily::Named(n) => FontFamily::Named(n.clone()),
            FontFamily::SansSerif => FontFamily::SansSerif,
            FontFamily::Serif => FontFamily::Serif,
            FontFamily::Monospace => FontFamily::Monospace,
        }
    }
}

impl FontFamily {
    pub open spec fn css(self) -> Seq<char> {
        match self {
            FontFamily::Named(n) => n@,
            FontFamily::SansSerif =>
                "-apple-system, BlinkMacSystemFont, 'Segoe UI', Roboto, Helvetica, Arial, sans-serif"@,
            FontFamily::Serif => "Georgia, 'Times New Roman', Times, serif"@,
            FontFamily::Monospace => "'SFMono-Regular', Menlo, Consolas, 'Courier New', monospace"@,
        }
    }

    /// Render as CSS text.
    pub fn to_string(&self) -> (s: String)
        ensures
            s@ == self.css(),
    {
        match self {
            FontFamily::Named(n) => n.clone(),
            FontFamily::SansSerif => String::from_str(
                "-apple-system, BlinkMacSystemFont, 'Segoe UI', Roboto, Helvetica, Arial, sans-serif",
            ),
            FontFamily::Serif => String::from_str("Georgia, 'Times New Roman', Times, serif"),
            FontFamily::Monospace => String::from_str(
                "'SFMono-Regular', Menlo, Consolas, 'Courier New', monospace",
            ),
        }
    }
}

/// Line height value.
#[derive(Debug, Clone, Copy, PartialEq, Eq, Structural)]
pub enum LineHeight {
    /// Unitless multiplier (e.g., 1.5).
    Multiplier(Decimal),
    /// Fixed pixel value.
    Px(Px),
}

impl LineHeight {
    pub open spec fn css(self) -> Seq<char> {
        match self {
            LineHeight::Multiplier(m) => m.css(),
            LineHeight::Px(px) => px.css(),
        }
    }

    /// Render as CSS text.
    pub fn to_string(&self) -> (s: String)
        ensures
            s@ == self.css(),
    {
        match self {
            LineHeight::Multiplier(m) => m.to_string(),
            LineHeight::Px(px) => px.to_string(),
        }
    }
}

/// Display property values.
#[derive(Debug, Clone, Copy, PartialEq, Eq, Structural)]
pub enum Display {
    Block,
    InlineBlock,
    Inline,
    /// `display:none` (named so because `None` is taken by `Option`).
    NoDisplay,
}

impl Display {
    pub open spec fn css(self) -> Seq<char> {
        match self {
            Display::Block => "block"@,
            Display::InlineBlock => "inline-block"@,
            Display::Inline => "inline"@,
            Display::NoDisplay => "none"@,
        }
    }

    /// Render as CSS text.
    pub fn to_string(&self) -> (s: String)
        ensures
            s@ == self.css(),
    {
        match self {
            Display::Block => String::from_str("block"),
            Display::InlineBlock => String::from_str("inline-block"),
            Display::Inline => String::from_str("inline"),
            Display::NoDisplay => String::from_str("none"),
        }
    }
}

/// Border style values.
#[derive(Debug, Clone, Copy, PartialEq, Eq, Structural)]
pub enum BorderStyle {
    /// `none`.
    NoBorder,
    Solid,
    Dashed,
    Dotted,
}

impl BorderStyle {
    pub open spec fn css(self) -> Seq<char> {
        match self {
            BorderStyle::NoBorder => "none"@,
            BorderStyle::Solid => "solid"@,
            BorderStyle::Dashed => "dashed"@,
            BorderStyle::Dotted => "dotted"@,
        }
    }

    /// Render as CSS text.
    pub fn to_string(&self) -> (s: String)
        ensures
            s@ == self.css(),
    {
        match self {
            BorderStyle::NoBorder => String::from_str("none"),
            BorderStyle::Solid => String::from_str("solid"),
            BorderStyle::Dashed => String::from_str("dashed"),
            BorderStyle::Dotted => String::from_str("dotted"),
        }
    }
}

/// Text decoration values.
#[derive(Debug, Clone, Copy, PartialEq, Eq, Structural)]
pub enum TextDecoration {
    /// `none`.
    NoDecoration,
    Underline,
    LineThrough,
}

impl TextDecoration {
    pub open spec fn css(self) -> Seq<char> {
        match self {
            TextDecoration::NoDecoration => "none"@,
            TextDecoration::Underline => "underline"@,
            TextDecoration::LineThrough => "line-through"@,
        }
    }

    /// Render as CSS text.
    pub fn to_string(&self) -> (s: String)
        ensures
            s@ == self.css(),
    {
        match self {
            TextDecoration::NoDecoration => String::from_str("none"),
            TextDecoration::Underline => String::from_str("underline"),
            TextDecoration::LineThrough => String::from_str("line-through"),
        }
    }
}

/// Heading level (H1-H6).
#[derive(Debug, Clone, Copy, PartialEq, Eq, Structural)]
pub enum HeadingLevel {
    H1,
    H2,
    H3,
    H4,
    H5,
    H6,
}

impl HeadingLevel {
    pub open spec fn spec_tag_name(self) -> Seq<char> {
        match self {
            HeadingLevel::H1 => "h1"@,
            HeadingLevel::H2 => "h2"@,
            HeadingLevel::H3 => "h3"@,
            HeadingLevel::H4 => "h4"@,
            HeadingLevel::H5 => "h5"@,
            HeadingLevel::H6 => "h6"@,
        }
    }

    pub open spec fn spec_default_font_size(self) -> u32 {
        match self {
            HeadingLevel::H1 => 32,
            HeadingLevel::H2 => 28,
            HeadingLevel::H3 => 24,
            HeadingLevel::H4 => 20,
            HeadingLevel::H5 => 16,
            HeadingLevel::H6 => 14,
        }
    }

    /// Returns the HTML tag name for this heading level.
    pub fn tag_name(&self) -> (s: &'static str)
        ensures
            s@ == self.spec_tag_name(),
    {
        match self {
            HeadingLevel::H1 => "h1",
            HeadingLevel::H2 => "h2",
            HeadingLevel::H3 => "h3",
            HeadingLevel::H4 => "h4",
            HeadingLevel::H5 => "h5",
            HeadingLevel::H6 => "h6",
        }
    }

    /// Returns the default font size for this heading level.
    pub fn default_font_size(&self) -> (p: Px)
        ensures
            p.0 == self.spec_default_font_size(),
    {
        match self {
            HeadingLevel::H1 => Px(32),
            HeadingLevel::H2 => Px(28),
            HeadingLevel::H3 => Px(24),
            HeadingLevel::H4 => Px(20),
            HeadingLevel::H5 => Px(16),
            HeadingLevel::H6 => Px(14),
        }
    }
}

} // verus!
