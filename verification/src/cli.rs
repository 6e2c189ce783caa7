//! The command-line client's text handling: the HTML it sends for a plain
//! message, how it shows a received body, and its table lines.

use vstd::prelude::*;
use crate::text::{chars_of, push_chars, push_char, string_of, trim, trim_bounds, contains_in, matches_at, occurs_at, nat_text, u64_text};

verus! {

broadcast use vstd::string::group_string_axioms;

/// `s` with every occurrence of `pat` replaced by `rep`, scanning left to
/// right without overlaps (`str::replace`, for a nonempty pattern).
pub open spec fn replace_all(s: Seq<char>, pat: Seq<char>, rep: Seq<char>) -> Seq<char>
    decreases s.len(),
{
    if pat.len() == 0 || s.len() < pat.len() {
        s
    } else if s.subrange(0, pat.len() as int) == pat {
        rep + replace_all(s.skip(pat.len() as int), pat, rep)
    } else {
        seq![s[0]] + replace_all(s.skip(1), pat, rep)
    }
}

/// Replace every occurrence of `pat` (nonempty) in `s` by `rep`.
pub fn replace_text(s: &str, pat: &str, rep: &str) -> (r: String)
    requires
        pat@.len() > 0,
    ensures
        r@ == replace_all(s@, pat@, rep@),
{
    let v = chars_of(s);
    let p = chars_of(pat);
    let mut out = String::new();
    let mut i: usize = 0;
    proof {
        assert(v@.skip(0) == v@);
        assert(out@ + replace_all(v@.skip(0), p@, rep@) == replace_all(s@, pat@, rep@));
    }
    while i < v.len()
        invariant
            i <= v@.len(),
            v@ == s@,
            p@ == pat@,
            p@.len() > 0,
            out@ + replace_all(v@.skip(i as int), p@, rep@) == replace_all(s@, pat@, rep@),
        decreases v@.len() - i,
    {
        let ghost rest = v@.skip(i as int);
        if matches_at(&v, &p, i) {
            proof {
                assert(rest.subrange(0, p@.len() as int) == v@.subrange(i as int, i + p@.len()));
                assert(rest.skip(p@.len() as int) == v@.skip(i + p@.len()));
                assert(out@ + rep@ + replace_all(v@.skip(i + p@.len()), p@, rep@) == out@ + (rep@ + replace_all(rest.skip(p@.len() as int), p@, rep@)));
            }
            out.append(rep);
            i = i + p.len();
        } else {
            proof {
                if rest.len() >= p@.len() {
                    assert(rest.subrange(0, p@.len() as int) == v@.subrange(i as int, i + p@.len()));
                }
                assert(rest.skip(1) == v@.skip(i + 1));
                assert(rest[0] == v@[i as int]);
                if rest.len() < p@.len() {
                    lemma_replace_short(rest, p@, rep@);
                    lemma_replace_short(rest.skip(1), p@, rep@);
                    assert(rest == seq![rest[0]] + rest.skip(1));
                }
                assert(out@.push(v@[i as int]) + replace_all(v@.skip(i + 1), p@, rep@) == out@ + (seq![rest[0]] + replace_all(rest.skip(1), p@, rep@)));
            }
            push_char(&mut out, v[i]);
            i = i + 1;
        }
    }
    proof {
        assert(v@.skip(i as int).len() == 0);
    }
    out
}

proof fn lemma_replace_short(s: Seq<char>, pat: Seq<char>, rep: Seq<char>)
    requires
        s.len() < pat.len(),
    ensures
        replace_all(s, pat, rep) == s,
{
}

/// The HTML body of a message sent from the command line: the text, with
/// line breaks as `<br>`, in a styled `<div>`.
pub open spec fn send_html_of(body: Seq<char>) -> Seq<char> {
    "<div style=\"font-family:-apple-system,sans-serif;color:#2D2A26;font-size:15px;line-height:1.6\">"@
        + replace_all(body, "\n"@, "<br>"@) + "</div>"@
}

/// The HTML body of a message sent from the command line.
pub fn send_html(body: &str) -> (html: String)
    ensures
        html@ == send_html_of(body@),
{
    proof {
        reveal_strlit("\n");
    }
    let mut html = String::from_str(
        "<div style=\"font-family:-apple-system,sans-serif;color:#2D2A26;font-size:15px;line-height:1.6\">",
    );
    html.append(replace_text(body, "\n", "<br>").as_str());
    html.append("</div>");
    html
}

/// The characters of `s` outside `<...>` tags: from a `<` up to the next
/// `>` nothing is kept (`inside` says whether the scan starts in a tag).
pub open spec fn strip_tags_from(s: Seq<char>, inside: bool) -> Seq<char>
    decreases s.len(),
{
    if s.len() == 0 {
        seq![]
    } else if s[0] == '<' {
        strip_tags_from(s.skip(1), true)
    } else if s[0] == '>' {
        strip_tags_from(s.skip(1), false)
    } else if inside {
        strip_tags_from(s.skip(1), true)
    } else {
        seq![s[0]] + strip_tags_from(s.skip(1), false)
    }
}

/// How a received body is shown: HTML (a body with a `<`) with `<br>` and
/// `</p>` turned into line breaks, its tags removed, and trimmed; plain
/// text as it is.
pub open spec fn readable_body_of(body: Seq<char>) -> Seq<char> {
    if body.contains('<') {
        trim(strip_tags_from(replace_all(replace_all(body, "<br>"@, "\n"@), "</p>"@, "\n\n"@), false))
    } else {
        body
    }
}

fn strip_tags(v: &Vec<char>) -> (r: String)
    ensures
        r@ == strip_tags_from(v@, false),
{
    let mut out = String::new();
    let mut inside = false;
    let mut i: usize = 0;
    proof {
        assert(v@.skip(0) == v@);
        assert(out@ + strip_tags_from(v@.skip(0), false) == strip_tags_from(v@, false));
    }
    while i < v.len()
        invariant
            i <= v@.len(),
            out@ + strip_tags_from(v@.skip(i as int), inside) == strip_tags_from(v@, false),
        decreases v@.len() - i,
    {
        let c = v[i];
        let ghost rest = v@.skip(i as int);
        proof {
            assert(rest.skip(1) == v@.skip(i + 1));
            assert(rest[0] == c);
        }
        if c == '<' {
            inside = true;
        } else if c == '>' {
            inside = false;
        } else if !inside {
            proof {
                assert(out@.push(c) + strip_tags_from(v@.skip(i + 1), false) == out@ + (seq![c] + strip_tags_from(rest.skip(1), false)));
            }
            push_char(&mut out, c);
        }
        i = i + 1;
    }
    proof {
        assert(v@.skip(0) == v@);
        assert(v@.skip(i as int).len() == 0);
    }
    out
}

/// How a received body is shown on the terminal.
pub fn readable_body(body: &str) -> (r: String)
    ensures
        r@ == readable_body_of(body@),
{
    let v = chars_of(body);
    if !contains_in(&v, 0, v.len(), '<') {
        proof {
            assert(v@.subrange(0, v@.len() as int) == v@);
        }
        return string_of(body);
    }
    proof {
        assert(v@.subrange(0, v@.len() as int) == v@);
    }
    proof {
        reveal_strlit("<br>");
        reveal_strlit("</p>");
    }
    let a = replace_text(body, "<br>", "\n");
    let b = replace_text(a.as_str(), "</p>", "\n\n");
    let w = chars_of(b.as_str());
    let stripped = strip_tags(&w);
    let sv = chars_of(stripped.as_str());
    let (lo, hi) = trim_bounds(&sv);
    let mut r = String::new();
    push_chars(&mut r, &sv, lo, hi);
    proof {
        reveal_strlit("<br>");
        reveal_strlit("</p>");
    }
    r
}

/// `s` padded with spaces on the right to `width` characters (`{:<width}`).
pub open spec fn pad_right(s: Seq<char>, width: nat) -> Seq<char> {
    if s.len() >= width {
        s
    } else {
        s + Seq::new((width - s.len()) as nat, |i: int| ' ')
    }
}

fn push_padded_right(out: &mut String, s: &str, width: usize)
    ensures
        final(out)@ == old(out)@ + pad_right(s@, width as nat),
{
    let v = chars_of(s);
    out.append(s);
    if v.len() < width {
        let mut k: usize = v.len();
        while k < width
            invariant
                v@ == s@,
                v@.len() <= k <= width,
                out@ == old(out)@ + s@ + Seq::new((k - v@.len()) as nat, |i: int| ' '),
            decreases width - k,
        {
            proof {
                assert(Seq::new((k + 1 - v@.len()) as nat, |i: int| ' ') == Seq::new((k - v@.len()) as nat, |i: int| ' ').push(' '));
            }
            push_char(out, ' ');
            k = k + 1;
        }
    } else {
        proof {
            assert(pad_right(s@, width as nat) == s@);
        }
    }
}

/// A line of the API key table: prefix, status and creation time.
pub open spec fn key_line_of(prefix: Seq<char>, revoked: bool, created: Seq<char>) -> Seq<char> {
    pad_right(prefix, 20) + " "@ + pad_right(if revoked { "revoked"@ } else { "active"@ }, 12) + " "@ + created
}

/// A line of the API key table.
pub fn key_line(prefix: &str, revoked: bool, created: &str) -> (s: String)
    ensures
        s@ == key_line_of(prefix@, revoked, created@),
{
    let mut s = String::new();
    push_padded_right(&mut s, prefix, 20);
    s.append(" ");
    push_padded_right(&mut s, if revoked { "revoked" } else { "active" }, 12);
    s.append(" ");
    s.append(created);
    s
}

/// A line of the send history table: date, recipient, status and message
/// ID.
pub open spec fn history_line_of(date: Seq<char>, to: Seq<char>, status: Seq<char>, id: Seq<char>) -> Seq<char> {
    pad_right(date, 12) + " "@ + pad_right(to, 30) + " "@ + pad_right(status, 10) + " "@ + id
}

/// The first ten bytes of a timestamp (its date), or all of it when it is
/// shorter.
pub open spec fn short_date_of(date: Seq<char>) -> Seq<char> {
    let bytes = vstd::utf8::encode_utf8(date);
    if bytes.len() > 10 {
        vstd::utf8::decode_utf8(bytes.subrange(0, 10))
    } else {
        date
    }
}

/// A line of the send history table; the date is cut to its first ten
/// bytes, which must end on a character boundary when it is longer.
pub fn history_line(date: &str, to: &str, status: &str, id: &str) -> (s: String)
    requires
        vstd::utf8::encode_utf8(date@).len() > 10 ==> vstd::utf8::is_char_boundary(vstd::utf8::encode_utf8(date@), 10),
    ensures
        s@ == history_line_of(short_date_of(date@), to@, status@, id@),
{
    broadcast use vstd::utf8::encode_utf8_decode_utf8;
    let short = if date.as_bytes().len() > 10 {
        let (head, _) = date.split_at(10);
        proof {
            assert(vstd::utf8::decode_utf8(vstd::utf8::encode_utf8(head@)) == head@);
        }
        head
    } else {
        date
    };
    let mut s = String::new();
    push_padded_right(&mut s, short, 12);
    s.append(" ");
    push_padded_right(&mut s, to, 30);
    s.append(" ");
    push_padded_right(&mut s, status, 10);
    s.append(" ");
    s.append(id);
    s
}

/// The first `n` bytes of `s` (all of it when it is shorter).
pub open spec fn byte_prefix(s: Seq<char>, n: nat) -> Seq<char> {
    let bytes = vstd::utf8::encode_utf8(s);
    if bytes.len() > n {
        vstd::utf8::decode_utf8(bytes.subrange(0, n as int))
    } else {
        s
    }
}

/// `s` cut to its first `n` bytes, which must end on a character boundary
/// when it is longer.
fn cut_bytes(s: &str, n: usize) -> (r: &str)
    requires
        vstd::utf8::encode_utf8(s@).len() > n ==> vstd::utf8::is_char_boundary(vstd::utf8::encode_utf8(s@), n as int),
    ensures
        r@ == byte_prefix(s@, n as nat),
{
    broadcast use vstd::utf8::encode_utf8_decode_utf8;
    if s.as_bytes().len() > n {
        let (head, _) = s.split_at(n);
        proof {
            assert(vstd::utf8::decode_utf8(vstd::utf8::encode_utf8(head@)) == head@);
        }
        head
    } else {
        s
    }
}

/// A line of a folder listing: a `*` for an unread message, the date (its
/// first ten bytes), the sender and the subject in columns, and the first
/// eight bytes of the message ID.
pub open spec fn inbox_line_of(read: bool, date: Seq<char>, from: Seq<char>, subject: Seq<char>, id: Seq<char>) -> Seq<char> {
    (if read { " "@ } else { "*"@ }) + " "@ + byte_prefix(date, 10) + "  "@ + pad_right(from, 20) + "  "@
        + pad_right(subject, 40) + "  "@ + byte_prefix(id, 8)
}

/// A line of a folder listing; the date and the ID are cut by bytes, and
/// the cuts must fall on character boundaries.
pub fn inbox_line(read: bool, date: &str, from: &str, subject: &str, id: &str) -> (s: String)
    requires
        vstd::utf8::encode_utf8(date@).len() > 10 ==> vstd::utf8::is_char_boundary(vstd::utf8::encode_utf8(date@), 10),
        vstd::utf8::encode_utf8(id@).len() > 8 ==> vstd::utf8::is_char_boundary(vstd::utf8::encode_utf8(id@), 8),
    ensures
        s@ == inbox_line_of(read, date@, from@, subject@, id@),
{
    let mut s = string_of(if read { " " } else { "*" });
    s.append(" ");
    s.append(cut_bytes(date, 10));
    s.append("  ");
    push_padded_right(&mut s, from, 20);
    s.append("  ");
    push_padded_right(&mut s, subject, 40);
    s.append("  ");
    s.append(cut_bytes(id, 8));
    s
}

/// `s` right-aligned in `width` characters.
pub open spec fn pad_left(s: Seq<char>, width: nat) -> Seq<char> {
    if s.len() >= width {
        s
    } else {
        Seq::new((width - s.len()) as nat, |i: int| ' ') + s
    }
}

/// A line of the folder table: the name, the number of messages and the
/// number unread.
pub open spec fn folder_line_of(name: Seq<char>, total: u64, unread: u64) -> Seq<char> {
    pad_right(name, 12) + " "@ + pad_left(nat_text(total as nat), 6) + " "@ + pad_left(nat_text(unread as nat), 6)
}

fn push_padded_left(out: &mut String, s: &str, width: usize)
    ensures
        final(out)@ == old(out)@ + pad_left(s@, width as nat),
{
    let v = chars_of(s);
    if v.len() < width {
        let mut k: usize = v.len();
        while k < width
            invariant
                v@ == s@,
                v@.len() <= k <= width,
                out@ == old(out)@ + Seq::new((k - v@.len()) as nat, |i: int| ' '),
            decreases width - k,
        {
            proof {
                assert(Seq::new((k + 1 - v@.len()) as nat, |i: int| ' ') == Seq::new((k - v@.len()) as nat, |i: int| ' ').push(' '));
            }
            push_char(out, ' ');
            k = k + 1;
        }
    }
    out.append(s);
}

/// A line of the folder table.
pub fn folder_line(name: &str, total: u64, unread: u64) -> (s: String)
    ensures
        s@ == folder_line_of(name@, total, unread),
{
    let mut s = String::new();
    push_padded_right(&mut s, name, 12);
    s.append(" ");
    push_padded_left(&mut s, u64_text(total).as_str(), 6);
    s.append(" ");
    push_padded_left(&mut s, u64_text(unread).as_str(), 6);
    s
}

} // verus!
