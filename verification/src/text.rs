//! Character-sequence helpers shared by the renderer and the message code:
//! decimal and hexadecimal numerals, joining, and a few predicates on text.

use vstd::prelude::*;

verus! {

broadcast use vstd::string::group_string_axioms;

/// Appends one character to a string.
///
/// Trusted: calls `String::push`, which std documents as appending the
/// character to the end of the string.
#[verifier::external_body]
pub(crate) fn push_char(s: &mut String, c: char)
    ensures
        final(s)@ == old(s)@.push(c),
{
    s.push(c);
}

/// A copy of the characters of `s` as a string.
pub fn string_of(s: &str) -> (r: String)
    ensures
        r@ == s@,
{
    String::from_str(s)
}

/// Appends the characters `v[from..to]` to `out`.
pub fn push_chars(out: &mut String, v: &Vec<char>, from: usize, to: usize)
    requires
        from <= to <= v@.len(),
    ensures
        final(out)@ == old(out)@ + v@.subrange(from as int, to as int),
{
    let mut i = from;
    while i < to
        invariant
            from <= i <= to <= v@.len(),
            out@ == old(out)@ + v@.subrange(from as int, i as int),
        decreases to - i,
    {
        push_char(out, v[i]);
        proof {
            assert(v@.subrange(from as int, i + 1) == v@.subrange(from as int, i as int).push(v@[i as int]));
        }
        i = i + 1;
    }
}

/// The characters of a string as a vector.
pub fn chars_of(s: &str) -> (v: Vec<char>)
    ensures
        v@ == s@,
{
    let mut v: Vec<char> = Vec::new();
    for c in it: s.chars()
        invariant
            it.seq() == s@,
            v@ == s@.take(it.index()),
    {
        proof {
            assert(s@.take(it.index() + 1) == s@.take(it.index()).push(c));
        }
        v.push(c);
    }
    proof {
        assert(s@.take(s@.len() as int) == s@);
    }
    v
}

/// A string made of the given characters.
pub fn string_from_chars(v: &Vec<char>) -> (s: String)
    ensures
        s@ == v@,
{
    let mut s = String::new();
    push_chars(&mut s, v, 0, v.len());
    proof {
        assert(v@.subrange(0, v@.len() as int) == v@);
    }
    s
}

// ---------------------------------------------------------------------------
// Numerals
// ---------------------------------------------------------------------------

/// The decimal digit character for `d` (`0 <= d < 10`).
pub open spec fn digit_char(d: nat) -> char {
    if d == 0 { '0' }
    else if d == 1 { '1' }
    else if d == 2 { '2' }
    else if d == 3 { '3' }
    else if d == 4 { '4' }
    else if d == 5 { '5' }
    else if d == 6 { '6' }
    else if d == 7 { '7' }
    else if d == 8 { '8' }
    else { '9' }
}

/// The lower-case hexadecimal digit character for `d` (`0 <= d < 16`).
pub open spec fn hex_char(d: nat) -> char {
    if d < 10 { digit_char(d) }
    else if d == 10 { 'a' }
    else if d == 11 { 'b' }
    else if d == 12 { 'c' }
    else if d == 13 { 'd' }
    else if d == 14 { 'e' }
    else { 'f' }
}

/// The shortest decimal numeral of `n` (`"0"` for zero).
pub open spec fn nat_text(n: nat) -> Seq<char>
    decreases n,
{
    if n < 10 {
        seq![digit_char(n)]
    } else {
        nat_text(n / 10).push(digit_char(n % 10))
    }
}

/// The last `width` decimal digits of `n`, with leading zeros.
pub open spec fn fixed_digits(n: nat, width: nat) -> Seq<char>
    decreases width,
{
    if width == 0 {
        seq![]
    } else {
        fixed_digits(n / 10, (width - 1) as nat).push(digit_char(n % 10))
    }
}

/// The last `width` hexadecimal digits of `n`, with leading zeros.
pub open spec fn fixed_hex(n: nat, width: nat) -> Seq<char>
    decreases width,
{
    if width == 0 {
        seq![]
    } else {
        fixed_hex(n / 16, (width - 1) as nat).push(hex_char(n % 16))
    }
}

/// `k` zero characters.
pub open spec fn zeros(k: nat) -> Seq<char> {
    Seq::new(k, |i: int| '0')
}

/// The decimal numeral of `n` padded with leading zeros to at least `width`
/// characters (the `{:0width}` format).
pub open spec fn padded_text(n: nat, width: nat) -> Seq<char> {
    let t = nat_text(n);
    if t.len() < width {
        zeros((width - t.len()) as nat) + t
    } else {
        t
    }
}

fn digit_of(d: u64) -> (c: char)
    requires
        d < 10,
    ensures
        c == digit_char(d as nat),
{
    if d == 0 { '0' }
    else if d == 1 { '1' }
    else if d == 2 { '2' }
    else if d == 3 { '3' }
    else if d == 4 { '4' }
    else if d == 5 { '5' }
    else if d == 6 { '6' }
    else if d == 7 { '7' }
    else if d == 8 { '8' }
    else { '9' }
}

fn hex_digit_of(d: u64) -> (c: char)
    requires
        d < 16,
    ensures
        c == hex_char(d as nat),
{
    if d < 10 { digit_of(d) }
    else if d == 10 { 'a' }
    else if d == 11 { 'b' }
    else if d == 12 { 'c' }
    else if d == 13 { 'd' }
    else if d == 14 { 'e' }
    else { 'f' }
}

/// The decimal digits of `n`.
pub fn nat_digits(n: u64) -> (v: Vec<char>)
    ensures
        v@ == nat_text(n as nat),
    decreases n,
{
    if n < 10 {
        let mut v = Vec::new();
        v.push(digit_of(n));
        v
    } else {
        let mut v = nat_digits(n / 10);
        v.push(digit_of(n % 10));
        v
    }
}

/// The decimal numeral of `n`.
pub fn u64_text(n: u64) -> (s: String)
    ensures
        s@ == nat_text(n as nat),
{
    let v = nat_digits(n);
    string_from_chars(&v)
}

/// The number a string of decimal digits stands for.
pub open spec fn digits_value(s: Seq<char>) -> nat
    decreases s.len(),
{
    if s.len() == 0 {
        0
    } else {
        digits_value(s.drop_last()) * 10 + digit_value(s.last())
    }
}

/// The value of a decimal digit character (zero for any other).
pub open spec fn digit_value(c: char) -> nat {
    if '0' <= c <= '9' { (c as int - '0' as int) as nat } else { 0 }
}

/// A decimal numeral stands for its number.
pub proof fn lemma_nat_text_value(n: nat)
    ensures
        digits_value(nat_text(n)) == n,
    decreases n,
{
    if n >= 10 {
        lemma_nat_text_value(n / 10);
        let t = nat_text(n);
        assert(t.drop_last() == nat_text(n / 10));
        assert(digit_value(digit_char(n % 10)) == n % 10);
        assert(n / 10 * 10 + n % 10 == n);
        assert(digits_value(t) == digits_value(t.drop_last()) * 10 + digit_value(t.last()));
    } else {
        let t = nat_text(n);
        assert(t.drop_last() =~= Seq::<char>::empty());
        assert(digit_value(digit_char(n)) == n);
        assert(digits_value(t) == digits_value(t.drop_last()) * 10 + digit_value(t.last()));
    }
}

/// Leading zeros do not change the number a numeral stands for.
pub proof fn lemma_leading_zeros_value(k: nat, t: Seq<char>)
    ensures
        digits_value(zeros(k) + t) == digits_value(t),
    decreases t.len(), k,
{
    if t.len() == 0 {
        assert(zeros(k) + t =~= zeros(k));
        if k > 0 {
            assert(zeros(k).drop_last() =~= zeros((k - 1) as nat));
            lemma_leading_zeros_value((k - 1) as nat, t);
            assert(zeros((k - 1) as nat) + t =~= zeros((k - 1) as nat));
        }
    } else {
        assert((zeros(k) + t).drop_last() =~= zeros(k) + t.drop_last());
        lemma_leading_zeros_value(k, t.drop_last());
    }
}

/// A zero-padded numeral stands for its number.
pub proof fn lemma_padded_text_value(n: nat, width: nat)
    ensures
        digits_value(padded_text(n, width)) == n,
{
    lemma_nat_text_value(n);
    let t = nat_text(n);
    if t.len() < width {
        lemma_leading_zeros_value((width - t.len()) as nat, t);
    }
}

pub proof fn lemma_nat_text_len(n: nat)
    ensures
        nat_text(n).len() >= 1,
    decreases n,
{
    if n >= 10 {
        lemma_nat_text_len(n / 10);
    }
}

/// Appends the decimal numeral of `n`, padded with zeros to `width`.
pub fn push_padded(out: &mut String, n: u64, width: usize)
    ensures
        final(out)@ == old(out)@ + padded_text(n as nat, width as nat),
{
    let v = nat_digits(n);
    if v.len() < width {
        let mut k: usize = 0;
        while k < width - v.len()
            invariant
                v@.len() < width,
                k <= width - v@.len(),
                out@ == old(out)@ + zeros(k as nat),
            decreases width - v@.len() - k,
        {
            push_char(out, '0');
            proof {
                assert(zeros((k + 1) as nat) == zeros(k as nat).push('0'));
            }
            k = k + 1;
        }
    }
    push_chars(out, &v, 0, v.len());
    proof {
        assert(v@.subrange(0, v@.len() as int) == v@);
        if v@.len() < width {
            assert(old(out)@ + zeros((width - v@.len()) as nat) + v@ == old(out)@ + (zeros(
                (width - v@.len()) as nat,
            ) + v@));
        }
    }
}

/// Appends the last `width` hexadecimal digits of `n`.
pub fn push_fixed_hex(out: &mut String, n: u64, width: usize)
    ensures
        final(out)@ == old(out)@ + fixed_hex(n as nat, width as nat),
    decreases width,
{
    if width > 0 {
        push_fixed_hex(out, n / 16, width - 1);
        push_char(out, hex_digit_of(n % 16));
    }
}

/// Appends the last `width` decimal digits of `n`.
pub fn push_fixed_digits(out: &mut String, n: u64, width: usize)
    ensures
        final(out)@ == old(out)@ + fixed_digits(n as nat, width as nat),
    decreases width,
{
    if width > 0 {
        push_fixed_digits(out, n / 10, width - 1);
        push_char(out, digit_of(n % 10));
    }
}

// ---------------------------------------------------------------------------
// Joining and predicates
// ---------------------------------------------------------------------------

/// The pieces joined with `sep` between consecutive pieces.
pub open spec fn join(pieces: Seq<Seq<char>>, sep: Seq<char>) -> Seq<char>
    decreases pieces.len(),
{
    if pieces.len() == 0 {
        seq![]
    } else if pieces.len() == 1 {
        pieces[0]
    } else {
        join(pieces.drop_last(), sep) + sep + pieces.last()
    }
}

/// `needle` occurs in `hay` starting at position `i`.
pub open spec fn occurs_at(hay: Seq<char>, needle: Seq<char>, i: int) -> bool {
    0 <= i && i + needle.len() <= hay.len() && hay.subrange(i, i + needle.len()) == needle
}

/// `needle` occurs somewhere in `hay`.
pub open spec fn contains_seq(hay: Seq<char>, needle: Seq<char>) -> bool {
    exists|i: int| occurs_at(hay, needle, i)
}

/// Whether `needle` occurs at position `i` of `hay`.
pub fn matches_at(hay: &Vec<char>, needle: &Vec<char>, i: usize) -> (b: bool)
    ensures
        b == occurs_at(hay@, needle@, i as int),
{
    if i > hay.len() || needle.len() > hay.len() - i {
        return false;
    }
    let mut k: usize = 0;
    while k < needle.len()
        invariant
            i + needle@.len() <= hay@.len(),
            hay@.len() <= usize::MAX,
            k <= needle@.len(),
            forall|j: int| 0 <= j < k ==> hay@[i + j] == needle@[j],
        decreases needle@.len() - k,
    {
        if hay[i + k] != needle[k] {
            proof {
                assert(hay@.subrange(i as int, i + needle@.len())[k as int] != needle@[k as int]);
            }
            return false;
        }
        k = k + 1;
    }
    proof {
        assert(hay@.subrange(i as int, i + needle@.len()) == needle@);
    }
    true
}

/// Whether `needle` occurs in `hay`.
pub fn contains_chars(hay: &Vec<char>, needle: &Vec<char>) -> (b: bool)
    ensures
        b == contains_seq(hay@, needle@),
{
    let mut i: usize = 0;
    while i < hay.len()
        invariant
            i <= hay@.len(),
            forall|j: int| 0 <= j < i ==> !occurs_at(hay@, needle@, j),
        decreases hay@.len() - i,
    {
        if matches_at(hay, needle, i) {
            return true;
        }
        i = i + 1;
    }
    if matches_at(hay, needle, hay.len()) {
        return true;
    }
    proof {
        assert forall|j: int| !occurs_at(hay@, needle@, j) by {
            if 0 <= j < i {
            } else if j >= i {
            }
        }
    }
    false
}

/// Whether the text of `hay` contains the text of `needle`.
pub fn str_contains(hay: &str, needle: &str) -> (b: bool)
    ensures
        b == contains_seq(hay@, needle@),
{
    let h = chars_of(hay);
    let n = chars_of(needle);
    contains_chars(&h, &n)
}

/// Whether two strings hold the same characters.
pub fn str_eq(a: &str, b: &str) -> (r: bool)
    ensures
        r == (a@ == b@),
{
    let x = chars_of(a);
    let y = chars_of(b);
    assert(x@ == a@ && y@ == b@);
    if x.len() != y.len() {
        return false;
    }
    let mut i: usize = 0;
    while i < x.len()
        invariant
            x@ == a@,
            y@ == b@,
            x@.len() == y@.len(),
            i <= x@.len(),
            forall|j: int| 0 <= j < i ==> x@[j] == y@[j],
        decreases x@.len() - i,
    {
        if x[i] != y[i] {
            proof {
                assert(x@[i as int] != y@[i as int]);
                assert(x@ != y@);
                assert(a@ != b@);
            }
            return false;
        }
        i = i + 1;
    }
    proof {
        assert(x@ == y@);
    }
    true
}

// ---------------------------------------------------------------------------
// Whitespace and trimming
// ---------------------------------------------------------------------------

/// Unicode `White_Space`, the set that `char::is_whitespace` tests.
pub open spec fn is_ws(c: char) -> bool {
    let u = c as u32;
    (0x09 <= u && u <= 0x0D) || u == 0x20 || u == 0x85 || u == 0xA0 || u == 0x1680 || (0x2000
        <= u && u <= 0x200A) || u == 0x2028 || u == 0x2029 || u == 0x202F || u == 0x205F || u
        == 0x3000
}

/// Whether `c` is whitespace.
pub fn char_is_ws(c: char) -> (b: bool)
    ensures
        b == is_ws(c),
{
    let u = c as u32;
    (0x09 <= u && u <= 0x0D) || u == 0x20 || u == 0x85 || u == 0xA0 || u == 0x1680 || (0x2000
        <= u && u <= 0x200A) || u == 0x2028 || u == 0x2029 || u == 0x202F || u == 0x205F || u
        == 0x3000
}

/// `s` without its leading whitespace.
pub open spec fn trim_start(s: Seq<char>) -> Seq<char>
    decreases s.len(),
{
    if s.len() > 0 && is_ws(s[0]) {
        trim_start(s.skip(1))
    } else {
        s
    }
}

/// `s` without its trailing whitespace.
pub open spec fn trim_end(s: Seq<char>) -> Seq<char>
    decreases s.len(),
{
    if s.len() > 0 && is_ws(s.last()) {
        trim_end(s.drop_last())
    } else {
        s
    }
}

/// `s` without leading and trailing whitespace (`str::trim`).
pub open spec fn trim(s: Seq<char>) -> Seq<char> {
    trim_end(trim_start(s))
}

pub proof fn lemma_trim_start_at(s: Seq<char>, lo: int)
    requires
        0 <= lo <= s.len(),
        forall|j: int| 0 <= j < lo ==> is_ws(s[j]),
        lo == s.len() || !is_ws(s[lo]),
    ensures
        trim_start(s) == s.subrange(lo, s.len() as int),
    decreases lo,
{
    if lo == 0 {
        assert(s.subrange(0, s.len() as int) == s);
    } else {
        lemma_trim_start_at(s.skip(1), lo - 1);
        assert(s.skip(1).subrange(lo - 1, s.len() - 1) == s.subrange(lo, s.len() as int));
    }
}

pub proof fn lemma_trim_end_at(t: Seq<char>, hi: int)
    requires
        0 <= hi <= t.len(),
        forall|j: int| hi <= j < t.len() ==> is_ws(t[j]),
        hi == 0 || !is_ws(t[hi - 1]),
    ensures
        trim_end(t) == t.subrange(0, hi),
    decreases t.len() - hi,
{
    if hi == t.len() {
        assert(t.subrange(0, hi) == t);
    } else {
        lemma_trim_end_at(t.drop_last(), hi);
        assert(t.drop_last().subrange(0, hi) == t.subrange(0, hi));
    }
}

/// The bounds, within `v[from..to]`, of that range without leading and
/// trailing whitespace.
pub fn trim_range(v: &Vec<char>, from: usize, to: usize) -> (r: (usize, usize))
    requires
        from <= to <= v@.len(),
    ensures
        from <= r.0 <= r.1 <= to,
        v@.subrange(r.0 as int, r.1 as int) == trim(v@.subrange(from as int, to as int)),
{
    let ghost s = v@.subrange(from as int, to as int);
    let mut lo: usize = from;
    while lo < to && char_is_ws(v[lo])
        invariant
            from <= lo <= to <= v@.len(),
            forall|j: int| from <= j < lo ==> is_ws(v@[j]),
        decreases to - lo,
    {
        lo = lo + 1;
    }
    let mut hi: usize = to;
    while hi > lo && char_is_ws(v[hi - 1])
        invariant
            from <= lo <= hi <= to <= v@.len(),
            forall|j: int| hi <= j < to ==> is_ws(v@[j]),
        decreases hi,
    {
        hi = hi - 1;
    }
    proof {
        lemma_trim_start_at(s, lo - from);
        let t = s.subrange(lo - from, s.len() as int);
        assert(t == v@.subrange(lo as int, to as int));
        lemma_trim_end_at(t, (hi - lo) as int);
        assert(t.subrange(0, (hi - lo) as int) == v@.subrange(lo as int, hi as int));
    }
    (lo, hi)
}

/// The bounds of `v` without leading and trailing whitespace.
pub fn trim_bounds(v: &Vec<char>) -> (r: (usize, usize))
    ensures
        r.0 <= r.1 <= v@.len(),
        v@.subrange(r.0 as int, r.1 as int) == trim(v@),
{
    let r = trim_range(v, 0, v.len());
    proof {
        assert(v@.subrange(0, v@.len() as int) == v@);
    }
    r
}

/// The text of `s` without leading and trailing whitespace.
pub fn trim_str(s: &str) -> (r: String)
    ensures
        r@ == trim(s@),
{
    let v = chars_of(s);
    let (lo, hi) = trim_bounds(&v);
    let mut r = String::new();
    push_chars(&mut r, &v, lo, hi);
    r
}

// ---------------------------------------------------------------------------
// Searching for one character, and stripping one character
// ---------------------------------------------------------------------------

/// The position of the last `c` in `s`, or -1 when `s` has none.
pub open spec fn last_index_of(s: Seq<char>, c: char) -> int
    decreases s.len(),
{
    if s.len() == 0 {
        -1
    } else if s.last() == c {
        s.len() - 1
    } else {
        last_index_of(s.drop_last(), c)
    }
}

/// `last_index_of` is the last position holding `c`.
pub proof fn lemma_last_index_of(s: Seq<char>, c: char)
    ensures
        -1 <= last_index_of(s, c) < s.len(),
        last_index_of(s, c) >= 0 ==> s[last_index_of(s, c)] == c,
        forall|j: int| last_index_of(s, c) < j < s.len() ==> s[j] != c,
        last_index_of(s, c) == -1 <==> !s.contains(c),
    decreases s.len(),
{
    if s.len() > 0 {
        lemma_last_index_of(s.drop_last(), c);
        if s.last() != c {
            assert forall|j: int| last_index_of(s, c) < j < s.len() implies s[j] != c by {
                if j < s.len() - 1 {
                    assert(s[j] == s.drop_last()[j]);
                }
            }
            if s.contains(c) {
                let k = choose|k: int| 0 <= k < s.len() && s[k] == c;
                assert(s.drop_last()[k] == c);
            }
            if s.drop_last().contains(c) {
                let k = choose|k: int| 0 <= k < s.drop_last().len() && s.drop_last()[k] == c;
                assert(s[k] == c);
            }
        } else {
            assert(s[s.len() - 1] == c);
        }
    }
}

/// Appending text without `c` leaves the last `c` where it was.
pub proof fn lemma_last_index_of_append(a: Seq<char>, b: Seq<char>, c: char)
    requires
        !b.contains(c),
    ensures
        last_index_of(a + b, c) == last_index_of(a, c),
    decreases b.len(),
{
    if b.len() == 0 {
        assert(a + b == a);
    } else {
        assert((a + b).drop_last() == a + b.drop_last());
        assert((a + b).last() == b.last());
        assert(b.contains(b.last()) || b.last() != c);
        if b.drop_last().contains(c) {
            let k = choose|k: int| 0 <= k < b.drop_last().len() && b.drop_last()[k] == c;
            assert(b[k] == c);
        }
        lemma_last_index_of_append(a, b.drop_last(), c);
    }
}

/// The position of the last `c` in `v[from..to]`, if there is one.
pub fn rfind_in(v: &Vec<char>, from: usize, to: usize, c: char) -> (r: Option<usize>)
    requires
        from <= to <= v@.len(),
    ensures
        match r {
            Some(i) => from <= i < to && i - from == last_index_of(v@.subrange(from as int, to as int), c),
            None => last_index_of(v@.subrange(from as int, to as int), c) == -1,
        },
{
    let ghost s = v@.subrange(from as int, to as int);
    let mut i: usize = to;
    while i > from
        invariant
            from <= i <= to <= v@.len(),
            s == v@.subrange(from as int, to as int),
            last_index_of(s, c) == last_index_of(v@.subrange(from as int, i as int), c),
        decreases i,
    {
        let ghost p = v@.subrange(from as int, i as int);
        if v[i - 1] == c {
            assert(p.last() == c);
            return Some(i - 1);
        }
        assert(p.drop_last() == v@.subrange(from as int, i - 1));
        i = i - 1;
    }
    None
}

/// Whether `v[from..to]` contains `c`.
pub fn contains_in(v: &Vec<char>, from: usize, to: usize, c: char) -> (b: bool)
    requires
        from <= to <= v@.len(),
    ensures
        b == v@.subrange(from as int, to as int).contains(c),
{
    proof {
        lemma_last_index_of(v@.subrange(from as int, to as int), c);
    }
    rfind_in(v, from, to, c).is_some()
}

/// `s` without its leading `c` characters.
pub open spec fn strip_leading(s: Seq<char>, c: char) -> Seq<char>
    decreases s.len(),
{
    if s.len() > 0 && s[0] == c {
        strip_leading(s.skip(1), c)
    } else {
        s
    }
}

/// `s` without its trailing `c` characters.
pub open spec fn strip_trailing(s: Seq<char>, c: char) -> Seq<char>
    decreases s.len(),
{
    if s.len() > 0 && s.last() == c {
        strip_trailing(s.drop_last(), c)
    } else {
        s
    }
}

/// `s` without leading and trailing `c` characters (`str::trim_matches`).
pub open spec fn strip_char(s: Seq<char>, c: char) -> Seq<char> {
    strip_trailing(strip_leading(s, c), c)
}

proof fn lemma_strip_leading_at(s: Seq<char>, c: char, lo: int)
    requires
        0 <= lo <= s.len(),
        forall|j: int| 0 <= j < lo ==> s[j] == c,
        lo == s.len() || s[lo] != c,
    ensures
        strip_leading(s, c) == s.subrange(lo, s.len() as int),
    decreases lo,
{
    if lo == 0 {
        assert(s.subrange(0, s.len() as int) == s);
    } else {
        lemma_strip_leading_at(s.skip(1), c, lo - 1);
        assert(s.skip(1).subrange(lo - 1, s.len() - 1) == s.subrange(lo, s.len() as int));
    }
}

proof fn lemma_strip_trailing_at(t: Seq<char>, c: char, hi: int)
    requires
        0 <= hi <= t.len(),
        forall|j: int| hi <= j < t.len() ==> t[j] == c,
        hi == 0 || t[hi - 1] != c,
    ensures
        strip_trailing(t, c) == t.subrange(0, hi),
    decreases t.len() - hi,
{
    if hi == t.len() {
        assert(t.subrange(0, hi) == t);
    } else {
        lemma_strip_trailing_at(t.drop_last(), c, hi);
        assert(t.drop_last().subrange(0, hi) == t.subrange(0, hi));
    }
}

/// The bounds, within `v[from..to]`, of that range without leading and
/// trailing `c` characters.
pub fn strip_range(v: &Vec<char>, from: usize, to: usize, c: char) -> (r: (usize, usize))
    requires
        from <= to <= v@.len(),
    ensures
        from <= r.0 <= r.1 <= to,
        v@.subrange(r.0 as int, r.1 as int) == strip_char(v@.subrange(from as int, to as int), c),
{
    let ghost s = v@.subrange(from as int, to as int);
    let mut lo: usize = from;
    while lo < to && v[lo] == c
        invariant
            from <= lo <= to <= v@.len(),
            forall|j: int| from <= j < lo ==> v@[j] == c,
        decreases to - lo,
    {
        lo = lo + 1;
    }
    let mut hi: usize = to;
    while hi > lo && v[hi - 1] == c
        invariant
            from <= lo <= hi <= to <= v@.len(),
            forall|j: int| hi <= j < to ==> v@[j] == c,
        decreases hi,
    {
        hi = hi - 1;
    }
    proof {
        lemma_strip_leading_at(s, c, lo - from);
        let t = s.subrange(lo - from, s.len() as int);
        assert(t == v@.subrange(lo as int, to as int));
        lemma_strip_trailing_at(t, c, (hi - lo) as int);
        assert(t.subrange(0, (hi - lo) as int) == v@.subrange(lo as int, hi as int));
    }
    (lo, hi)
}

} // verus!
