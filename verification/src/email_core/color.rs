//! Color values: hex, RGB, RGBA, named colors and `transparent`.

use vstd::prelude::*;
use crate::text::{nat_text, u64_text, chars_of, push_chars};
use crate::email_core::decimal::Decimal;

verus! {

broadcast use vstd::string::group_string_axioms;

/// A color value for use in email styles.
#[derive(Debug)]
pub enum Color {
    /// Hex color (stored without the `#` prefix).
    Hex(String),
    /// RGB color.
    Rgb(u8, u8, u8),
    /// RGBA color with alpha (0–1).
    Rgba(u8, u8, u8, Decimal),
    /// A named CSS color.
    Named(String),
    /// Transparent.
    Transparent,
}

impl Clone for Color {
    fn clone(&self) -> (r: Self)
        ensures
            r == *self,
    {
        match self {
            Color::Hex(h) => Color::Hex(h.clone()),
            Color::Rgb(r, g, b) => Color::Rgb(*r, *g, *b),
            Color::Rgba(r, g, b, a) => Color::Rgba(*r, *g, *b, *a),
            Color::Named(n) => Color::Named(n.clone()),
            Color::Transparent => Color::Transparent,
        }
    }
}

/// `s` without one leading `#`, if it has one.
pub open spec fn strip_hash(s: Seq<char>) -> Seq<char> {
    if s.len() > 0 && s[0] == '#' {
        s.skip(1)
    } else {
        s
    }
}

/// A color whose CSS text is `css`.
pub open spec fn color_with_css(css: Seq<char>) -> Color {
    choose|c: Color| c.css() == css
}

impl Color {
    /// The CSS text of this color.
    pub open spec fn css(self) -> Seq<char> {
        match self {
            Color::Hex(h) => seq!['#'] + h@,
            Color::Rgb(r, g, b) => "rgb("@ + nat_text(r as nat) + ","@ + nat_text(g as nat) + ","@
                + nat_text(b as nat) + ")"@,
            Color::Rgba(r, g, b, a) => "rgba("@ + nat_text(r as nat) + ","@ + nat_text(g as nat)
                + ","@ + nat_text(b as nat) + ","@ + a.css() + ")"@,
            Color::Named(n) => n@,
            Color::Transparent => "transparent"@,
        }
    }

    /// Create a color from a hex string (with or without `#`).
    pub fn hex(hex: &str) -> (c: Color)
        ensures
            c matches Color::Hex(h) && h@ == strip_hash(hex@),
    {
        let v = chars_of(hex);
        let mut s = String::new();
        if v.len() > 0 && v[0] == '#' {
            push_chars(&mut s, &v, 1, v.len());
        } else {
            push_chars(&mut s, &v, 0, v.len());
            proof {
                assert(v@.subrange(0, v@.len() as int) == v@);
            }
        }
        Color::Hex(s)
    }

    /// Create a color from RGB values.
    pub fn rgb(r: u8, g: u8, b: u8) -> (c: Color)
        ensures
            c == Color::Rgb(r, g, b),
    {
        Color::Rgb(r, g, b)
    }

    /// Create a color from RGBA values.
    pub fn rgba(r: u8, g: u8, b: u8, a: Decimal) -> (c: Color)
        ensures
            c == Color::Rgba(r, g, b, a),
    {
        Color::Rgba(r, g, b, a)
    }

    /// White (#ffffff).
    pub fn white() -> (c: Color)
        ensures
            c matches Color::Hex(h) && h@ == "ffffff"@,
    {
        Color::Hex(String::from_str("ffffff"))
    }

    /// Black (#000000).
    pub fn black() -> (c: Color)
        ensures
            c matches Color::Hex(h) && h@ == "000000"@,
    {
        Color::Hex(String::from_str("000000"))
    }

    /// Transparent.
    pub fn transparent() -> (c: Color)
        ensures
            c == Color::Transparent,
    {
        Color::Transparent
    }

    /// Render as CSS text (`#ff0000`, `rgb(255,0,0)`, `transparent`).
    pub fn to_string(&self) -> (s: String)
        ensures
            s@ == self.css(),
    {
        match self {
            Color::Hex(h) => {
                let mut s = String::from_str("#");
                s.append(h.as_str());
                proof {
                    reveal_strlit("#");
                }
                s
            },
            Color::Rgb(r, g, b) => {
                let mut s = String::from_str("rgb(");
                s.append(u64_text(*r as u64).as_str());
                s.append(",");
                s.append(u64_text(*g as u64).as_str());
                s.append(",");
                s.append(u64_text(*b as u64).as_str());
                s.append(")");
                s
            },
            Color::Rgba(r, g, b, a) => {
                let mut s = String::from_str("rgba(");
                s.append(u64_text(*r as u64).as_str());
                s.append(",");
                s.append(u64_text(*g as u64).as_str());
                s.append(",");
                s.append(u64_text(*b as u64).as_str());
                s.append(",");
                s.append(a.to_string().as_str());
                s.append(")");
                s
            },
            Color::Named(n) => n.clone(),
            Color::Transparent => String::from_str("transparent"),
        }
    }
}

} // verus!
