//! Entity escaping for HTML text and attribute values.

use vstd::prelude::*;
use crate::text::push_char;

verus! {

broadcast use vstd::string::group_string_axioms;

/// The replacement of one character inside HTML text content.
pub open spec fn escape_text_char(c: char) -> Seq<char> {
    if c == '&' {
        seq!['&', 'a', 'm', 'p', ';']
    } else if c == '<' {
        seq!['&', 'l', 't', ';']
    } else if c == '>' {
        seq!['&', 'g', 't', ';']
    } else {
        seq![c]
    }
}

/// Text content with `&`, `<` and `>` replaced by their entities.
pub open spec fn escape_text_spec(s: Seq<char>) -> Seq<char>
    decreases s.len(),
{
    if s.len() == 0 {
        seq![]
    } else {
        escape_text_spec(s.drop_last()) + escape_text_char(s.last())
    }
}

/// Escape text content for safe inclusion in HTML.
pub fn escape_text(input: &str) -> (out: String)
    ensures
        out@ == escape_text_spec(input@),
{
    let mut output = String::new();
    for ch in it: input.chars()
        invariant
            it.seq() == input@,
            output@ == escape_text_spec(input@.take(it.index())),
    {
        proof {

            assert(input@.take(it.index() + 1).drop_last() == input@.take(it.index()));
        }
        if ch == '&' {
            output.append("&amp;");
            proof { reveal_strlit("&amp;"); }
        } else if ch == '<' {
            output.append("&lt;");
            proof { reveal_strlit("&lt;"); }
        } else if ch == '>' {
            output.append("&gt;");
            proof { reveal_strlit("&gt;"); }
        } else {
            push_char(&mut output, ch);
        }
    }
    proof { assert(input@.take(input@.len() as int) == input@); }
    output
}

/// The replacement of one character inside a quoted attribute value.
pub open spec fn escape_attr_char(c: char) -> Seq<char> {
    if c == '"' {
        seq!['&', 'q', 'u', 'o', 't', ';']
    } else if c == '\'' {
        seq!['&', '#', 'x', '2', '7', ';']
    } else {
        escape_text_char(c)
    }
}

/// Attribute text with `&`, `<`, `>`, `"` and `'` replaced by entities.
pub open spec fn escape_attr_spec(s: Seq<char>) -> Seq<char>
    decreases s.len(),
{
    if s.len() == 0 {
        seq![]
    } else {
        escape_attr_spec(s.drop_last()) + escape_attr_char(s.last())
    }
}

/// Escape an attribute value for safe inclusion in a quoted HTML attribute.
pub fn escape_attr(input: &str) -> (out: String)
    ensures
        out@ == escape_attr_spec(input@),
{
    let mut output = String::new();
    for ch in it: input.chars()
        invariant
            it.seq() == input@,
            output@ == escape_attr_spec(input@.take(it.index())),
    {
        proof {
            assert(input@.take(it.index() + 1).drop_last() == input@.take(it.index()));
        }
        if ch == '&' {
            output.append("&amp;");
            proof { reveal_strlit("&amp;"); }
        } else if ch == '<' {
            output.append("&lt;");
            proof { reveal_strlit("&lt;"); }
        } else if ch == '>' {
            output.append("&gt;");
            proof { reveal_strlit("&gt;"); }
        } else if ch == '"' {
            output.append("&quot;");
            proof { reveal_strlit("&quot;"); }
        } else if ch == '\'' {
            output.append("&#x27;");
            proof { reveal_strlit("&#x27;"); }
        } else {
            push_char(&mut output, ch);
        }
    }
    proof { assert(input@.take(input@.len() as int) == input@); }
    output
}

/// Escaped text holds no `<` or `>`: it cannot open or close a tag.
pub proof fn lemma_escaped_text_has_no_markup(s: Seq<char>)
    ensures
        forall|i: int| 0 <= i < escape_text_spec(s).len() ==> #[trigger] escape_text_spec(s)[i] != '<'
            && escape_text_spec(s)[i] != '>',
    decreases s.len(),
{
    if s.len() > 0 {
        lemma_escaped_text_has_no_markup(s.drop_last());
        let a = escape_text_spec(s.drop_last());
        let b = escape_text_char(s.last());
        assert forall|i: int| 0 <= i < (a + b).len() implies (a + b)[i] != '<' && (a + b)[i] != '>' by {
            if i >= a.len() {
                assert((a + b)[i] == b[i - a.len()]);
            } else {
                assert((a + b)[i] == a[i]);
            }
        }
    }
}

/// An escaped attribute value holds no quote, `<` or `>`: it cannot end
/// the attribute or open a tag.
pub proof fn lemma_escaped_attr_stays_quoted(s: Seq<char>)
    ensures
        forall|i: int| 0 <= i < escape_attr_spec(s).len() ==> {
            let c = #[trigger] escape_attr_spec(s)[i];
            c != '"' && c != '\'' && c != '<' && c != '>'
        },
    decreases s.len(),
{
    if s.len() > 0 {
        lemma_escaped_attr_stays_quoted(s.drop_last());
        let a = escape_attr_spec(s.drop_last());
        let b = escape_attr_char(s.last());
        assert forall|i: int| 0 <= i < (a + b).len() implies {
            let c = #[trigger] (a + b)[i];
            c != '"' && c != '\'' && c != '<' && c != '>'
        } by {
            if i >= a.len() {
                assert((a + b)[i] == b[i - a.len()]);
            } else {
                assert((a + b)[i] == a[i]);
            }
        }
    }
}

/// Text without `&`, `<` and `>` is left as it is.
pub proof fn lemma_plain_text_unchanged(s: Seq<char>)
    requires
        forall|i: int| 0 <= i < s.len() ==> #[trigger] s[i] != '&' && s[i] != '<' && s[i] != '>',
    ensures
        escape_text_spec(s) == s,
    decreases s.len(),
{
    if s.len() > 0 {
        lemma_plain_text_unchanged(s.drop_last());
        assert(s.drop_last() + seq![s.last()] =~= s);
    }
}

/// The text an HTML reader takes from escaped text: `&amp;`, `&lt;`,
/// `&gt;`, `&quot;` and `&#x27;` read as the characters they stand for,
/// every other character as itself.
pub open spec fn decode_entities(s: Seq<char>) -> Seq<char>
    decreases s.len(),
{
    if s.len() == 0 {
        seq![]
    } else if s.len() >= 5 && s.take(5) == seq!['&', 'a', 'm', 'p', ';'] {
        seq!['&'] + decode_entities(s.skip(5))
    } else if s.len() >= 4 && s.take(4) == seq!['&', 'l', 't', ';'] {
        seq!['<'] + decode_entities(s.skip(4))
    } else if s.len() >= 4 && s.take(4) == seq!['&', 'g', 't', ';'] {
        seq!['>'] + decode_entities(s.skip(4))
    } else if s.len() >= 6 && s.take(6) == seq!['&', 'q', 'u', 'o', 't', ';'] {
        seq!['"'] + decode_entities(s.skip(6))
    } else if s.len() >= 6 && s.take(6) == seq!['&', '#', 'x', '2', '7', ';'] {
        seq!['\''] + decode_entities(s.skip(6))
    } else {
        seq![s[0]] + decode_entities(s.skip(1))
    }
}

/// Escaping an attribute value, read from the front: the replacement of
/// the first character, then the rest escaped.
proof fn lemma_escape_attr_front(s: Seq<char>)
    requires
        s.len() > 0,
    ensures
        escape_attr_spec(s) == escape_attr_char(s[0]) + escape_attr_spec(s.skip(1)),
    decreases s.len(),
{
    if s.len() == 1 {
        assert(s.drop_last() =~= Seq::<char>::empty());
        assert(s.skip(1) =~= Seq::<char>::empty());
        assert(escape_attr_spec(s.drop_last()) == Seq::<char>::empty());
        assert(escape_attr_spec(s) =~= escape_attr_char(s[0]) + escape_attr_spec(s.skip(1)));
    } else {
        let p = s.drop_last();
        lemma_escape_attr_front(p);
        assert(p.skip(1) =~= s.skip(1).drop_last());
        assert(s.skip(1).last() == s.last());
        assert(escape_attr_spec(s) =~= escape_attr_char(s[0]) + escape_attr_spec(s.skip(1)));
    }
}

/// The replacement of a character reads back as that character.
proof fn lemma_decode_piece(c: char, rest: Seq<char>)
    ensures
        decode_entities(escape_attr_char(c) + rest) == seq![c] + decode_entities(rest),
{
    let t = escape_attr_char(c) + rest;
    let k = escape_attr_char(c).len();
    assert(t.skip(k as int) =~= rest);
    assert(t[0] == escape_attr_char(c)[0]);
    if t.len() >= 5 {
        assert(t.take(5)[0] == t[0]);
        assert(t.take(5)[1] == t[1]);
    }
    if t.len() >= 4 {
        assert(t.take(4)[0] == t[0]);
        assert(t.take(4)[1] == t[1]);
    }
    if t.len() >= 6 {
        assert(t.take(6)[0] == t[0]);
        assert(t.take(6)[1] == t[1]);
    }
    if c == '&' {
        assert(t.take(5) =~= seq!['&', 'a', 'm', 'p', ';']);
    } else if c == '<' {
        assert(t[1] == 'l');
        assert(t.take(4) =~= seq!['&', 'l', 't', ';']);
    } else if c == '>' {
        assert(t[1] == 'g');
        assert(t.take(4) =~= seq!['&', 'g', 't', ';']);
    } else if c == '"' {
        assert(t[1] == 'q');
        assert(t.take(6) =~= seq!['&', 'q', 'u', 'o', 't', ';']);
    } else if c == '\'' {
        assert(t[1] == '#');
        assert(t.take(6) =~= seq!['&', '#', 'x', '2', '7', ';']);
    } else {
        assert(t[0] == c);
    }
}

/// Escaping loses nothing: an escaped attribute value reads back as the
/// value itself.
pub proof fn lemma_escaped_attr_decodes(s: Seq<char>)
    ensures
        decode_entities(escape_attr_spec(s)) == s,
    decreases s.len(),
{
    if s.len() > 0 {
        lemma_escape_attr_front(s);
        lemma_escaped_attr_decodes(s.skip(1));
        lemma_decode_piece(s[0], escape_attr_spec(s.skip(1)));
        assert(seq![s[0]] + s.skip(1) =~= s);
    }
}

/// Escaping text, read from the front: the replacement of the first
/// character, then the rest escaped.
proof fn lemma_escape_text_front(s: Seq<char>)
    requires
        s.len() > 0,
    ensures
        escape_text_spec(s) == escape_text_char(s[0]) + escape_text_spec(s.skip(1)),
    decreases s.len(),
{
    if s.len() == 1 {
        assert(s.drop_last() =~= Seq::<char>::empty());
        assert(s.skip(1) =~= Seq::<char>::empty());
        assert(escape_text_spec(s.drop_last()) == Seq::<char>::empty());
        assert(escape_text_spec(s) =~= escape_text_char(s[0]) + escape_text_spec(s.skip(1)));
    } else {
        let p = s.drop_last();
        lemma_escape_text_front(p);
        assert(p.skip(1) =~= s.skip(1).drop_last());
        assert(s.skip(1).last() == s.last());
        assert(escape_text_spec(s) =~= escape_text_char(s[0]) + escape_text_spec(s.skip(1)));
    }
}

/// Escaping loses nothing: escaped text reads back as the text itself.
pub proof fn lemma_escaped_text_decodes(s: Seq<char>)
    ensures
        decode_entities(escape_text_spec(s)) == s,
    decreases s.len(),
{
    if s.len() > 0 {
        let c = s[0];
        let rest = escape_text_spec(s.skip(1));
        lemma_escape_text_front(s);
        lemma_escaped_text_decodes(s.skip(1));
        if c == '"' || c == '\'' {
            let t = escape_text_char(c) + rest;
            assert(t[0] == c);
            if t.len() >= 4 {
                assert(t.take(4)[0] == t[0]);
            }
            if t.len() >= 5 {
                assert(t.take(5)[0] == t[0]);
            }
            if t.len() >= 6 {
                assert(t.take(6)[0] == t[0]);
            }
            assert(t.skip(1) =~= rest);
        } else {
            assert(escape_text_char(c) == escape_attr_char(c));
            lemma_decode_piece(c, rest);
        }
        assert(seq![c] + s.skip(1) =~= s);
    }
}

/// Emit the HTML5 DOCTYPE declaration.
pub fn doctype() -> (s: &'static str)
    ensures
        s@ == "<!DOCTYPE html>"@,
{
    "<!DOCTYPE html>"
}

} // verus!
