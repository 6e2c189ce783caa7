//! Exact decimal numbers for the fractional CSS values (percentages, line
//! height multipliers, alpha channels).

use vstd::prelude::*;
use crate::text::{nat_text, nat_digits, zeros, push_char, push_chars};

verus! {

/// A non-negative decimal number: `units / 10^scale`.
///
/// Rendered in its shortest form: `Decimal::new(16, 1)` is `1.6`,
/// `Decimal::new(1000, 1)` is `100`.
#[derive(Debug, Clone, Copy, PartialEq, Eq, Structural)]
pub struct Decimal {
    pub units: u64,
    pub scale: u8,
}

/// The digits of `units`, padded with leading zeros so that at least one
/// digit stands before the decimal point.
pub open spec fn decimal_digits(units: nat, scale: nat) -> Seq<char> {
    let d = nat_text(units);
    if d.len() <= scale {
        zeros((scale + 1 - d.len()) as nat) + d
    } else {
        d
    }
}

/// `s` without its trailing `'0'` characters.
pub open spec fn strip_trailing_zeros(s: Seq<char>) -> Seq<char>
    decreases s.len(),
{
    if s.len() > 0 && s.last() == '0' {
        strip_trailing_zeros(s.drop_last())
    } else {
        s
    }
}

/// The shortest decimal text of `units / 10^scale`.
pub open spec fn decimal_text(units: nat, scale: nat) -> Seq<char> {
    let d = decimal_digits(units, scale);
    let int_part = d.subrange(0, d.len() - scale);
    let frac = strip_trailing_zeros(d.subrange(d.len() - scale, d.len() as int));
    if frac.len() == 0 {
        int_part
    } else {
        int_part + seq!['.'] + frac
    }
}

proof fn lemma_strip_prefix(d: Seq<char>, lo: int, end: int)
    requires
        0 <= lo <= end <= d.len(),
        forall|j: int| end <= j < d.len() ==> d[j] == '0',
    ensures
        strip_trailing_zeros(d.subrange(lo, d.len() as int)) == strip_trailing_zeros(
            d.subrange(lo, end),
        ),
    decreases d.len() - end,
{
    if end < d.len() {
        let s = d.subrange(lo, d.len() as int);
        assert(s.last() == '0');
        assert(s.drop_last() == d.drop_last().subrange(lo, d.len() - 1));
        lemma_strip_prefix(d.drop_last(), lo, end);
        assert(d.drop_last().subrange(lo, end) == d.subrange(lo, end));
    }
}

impl Decimal {
    /// The number `units / 10^scale`.
    pub fn new(units: u64, scale: u8) -> (d: Decimal)
        ensures
            d.units == units,
            d.scale == scale,
    {
        Decimal { units, scale }
    }

    /// The CSS text of this number.
    pub open spec fn css(self) -> Seq<char> {
        decimal_text(self.units as nat, self.scale as nat)
    }

    /// Render this number in its shortest decimal form.
    pub fn to_string(&self) -> (s: String)
        ensures
            s@ == self.css(),
    {
        let d = padded_decimal_digits(self.units, self.scale);
        let scale = self.scale as usize;
        let int_len = d.len() - scale;
        let mut end = d.len();
        while end > int_len && d[end - 1] == '0'
            invariant
                int_len <= end <= d@.len(),
                forall|i: int| end <= i < d@.len() ==> d@[i] == '0',
            decreases end,
        {
            end = end - 1;
        }
        proof {
            lemma_strip_prefix(d@, int_len as int, end as int);
            let f = d@.subrange(int_len as int, end as int);
            if f.len() > 0 {
                assert(f.last() != '0');
            }
            assert(strip_trailing_zeros(f) == f);
        }
        let mut s = String::new();
        push_chars(&mut s, &d, 0, int_len);
        if end > int_len {
            push_char(&mut s, '.');
            push_chars(&mut s, &d, int_len, end);
        }
        s
    }
}

fn padded_decimal_digits(units: u64, scale8: u8) -> (d: Vec<char>)
    ensures
        d@ == decimal_digits(units as nat, scale8 as nat),
        d@.len() > scale8,
{
    let raw = nat_digits(units);
    proof {
        crate::text::lemma_nat_text_len(units as nat);
    }
    let scale = scale8 as usize;
    let mut d: Vec<char> = Vec::new();
    if raw.len() <= scale {
        let count = scale + 1 - raw.len();
        let mut k: usize = 0;
        while k < count
            invariant
                k <= count,
                d@ == zeros(k as nat),
            decreases count - k,
        {
            d.push('0');
            proof {
                assert(zeros((k + 1) as nat) == zeros(k as nat).push('0'));
            }
            k = k + 1;
        }
    }
    let ghost prefix = d@;
    let mut j: usize = 0;
    while j < raw.len()
        invariant
            j <= raw@.len(),
            d@ == prefix + raw@.subrange(0, j as int),
        decreases raw@.len() - j,
    {
        d.push(raw[j]);
        proof {
            assert(raw@.subrange(0, j + 1) == raw@.subrange(0, j as int).push(raw@[j as int]));
        }
        j = j + 1;
    }
    proof {
        assert(raw@.subrange(0, raw@.len() as int) == raw@);
    }
    d
}

} // verus!
