//! MIME framing of an email message: headers, multipart structure, and
//! base64-encoded attachments in 76-character lines.

use vstd::prelude::*;
use base64::Engine;
use crate::text::{fixed_hex, push_fixed_hex};
use crate::send::message::{Attachment, EmailMessage, Mailbox, mailbox_text};

verus! {

broadcast use vstd::string::group_string_axioms;

/// The character of a six-bit value in the standard base64 alphabet
/// (`A`-`Z`, `a`-`z`, `0`-`9`, `+`, `/`).
pub open spec fn base64_digit(v: int) -> char {
    if v < 26 {
        ('A' as int + v) as char
    } else if v < 52 {
        ('a' as int + (v - 26)) as char
    } else if v < 62 {
        ('0' as int + (v - 52)) as char
    } else if v == 62 {
        '+'
    } else {
        '/'
    }
}

/// The standard (RFC 4648, section 4, padded) base64 text of `bytes`:
/// every three bytes become four characters of six bits each, and a last
/// group of one or two bytes is padded with `=` to four characters.
#[verifier::opaque]
pub open spec fn base64_standard(bytes: Seq<u8>) -> Seq<char>
    decreases bytes.len(),
{
    if bytes.len() == 0 {
        seq![]
    } else if bytes.len() == 1 {
        let b0 = bytes[0] as int;
        seq![base64_digit(b0 / 4), base64_digit(b0 % 4 * 16), '=', '=']
    } else if bytes.len() == 2 {
        let b0 = bytes[0] as int;
        let b1 = bytes[1] as int;
        seq![base64_digit(b0 / 4), base64_digit(b0 % 4 * 16 + b1 / 16), base64_digit(b1 % 16 * 4), '=']
    } else {
        let b0 = bytes[0] as int;
        let b1 = bytes[1] as int;
        let b2 = bytes[2] as int;
        seq![
            base64_digit(b0 / 4),
            base64_digit(b0 % 4 * 16 + b1 / 16),
            base64_digit(b1 % 16 * 4 + b2 / 64),
            base64_digit(b2 % 64),
        ] + base64_standard(bytes.skip(3))
    }
}

/// Encodes bytes as base64.
///
/// Trusted: calls `base64::engine::general_purpose::STANDARD.encode`, the
/// standard alphabet with padding, whose output `base64_standard` spells
/// out. The encoder panics when the encoded length overflows `usize`, which
/// the `requires` rules out.
#[verifier::external_body]
pub(crate) fn encode_base64(bytes: &[u8]) -> (s: String)
    requires
        bytes@.len() / 3 * 4 + 4 <= usize::MAX,
    ensures
        s@ == base64_standard(bytes@),
{
    base64::engine::general_purpose::STANDARD.encode(bytes)
}

/// A line break as MIME writes it.
pub open spec fn crlf() -> Seq<char> {
    "\r\n"@
}

/// One `label mailbox` header line per mailbox.
pub open spec fn address_lines(label: Seq<char>, ms: Seq<Mailbox>) -> Seq<char>
    decreases ms.len(),
{
    if ms.len() == 0 {
        seq![]
    } else {
        address_lines(label, ms.drop_last()) + label + mailbox_text(ms.last()@) + crlf()
    }
}

/// One `name: value` header line per custom header.
pub open spec fn custom_header_lines(hs: Seq<(String, String)>) -> Seq<char>
    decreases hs.len(),
{
    if hs.len() == 0 {
        seq![]
    } else {
        custom_header_lines(hs.drop_last()) + hs.last().0@ + ": "@ + hs.last().1@ + crlf()
    }
}

/// The header block: From, To, Cc, Reply-To, Subject, MIME-Version and the
/// custom headers.
pub open spec fn mime_headers(m: EmailMessage) -> Seq<char> {
    let reply_to = match m.reply_to {
        Some(r) => "Reply-To: "@ + mailbox_text(r@) + crlf(),
        None => seq![],
    };
    "From: "@ + mailbox_text(m.from@) + crlf() + address_lines("To: "@, m.to@) + address_lines(
        "Cc: "@,
        m.cc@,
    ) + reply_to + "Subject: "@ + m.subject@ + crlf() + "MIME-Version: 1.0\r\n"@
        + custom_header_lines(m.headers@)
}

/// The head of a plain-text part.
pub open spec fn text_part_head() -> Seq<char> {
    "Content-Type: text/plain; charset=UTF-8\r\nContent-Transfer-Encoding: 7bit\r\n\r\n"@
}

/// The head of an HTML part.
pub open spec fn html_part_head() -> Seq<char> {
    "Content-Type: text/html; charset=UTF-8\r\nContent-Transfer-Encoding: 7bit\r\n\r\n"@
}

/// The delimiter line that opens a part.
pub open spec fn delimiter(b: Seq<char>) -> Seq<char> {
    "--"@ + b + crlf()
}

/// The delimiter line that closes a multipart body.
pub open spec fn close_delimiter(b: Seq<char>) -> Seq<char> {
    "--"@ + b + "--"@ + crlf()
}

/// The head of a multipart body of the given kind.
pub open spec fn multipart_head(kind: Seq<char>, b: Seq<char>) -> Seq<char> {
    "Content-Type: multipart/"@ + kind + "; boundary=\""@ + b + "\"\r\n\r\n"@
}

/// The text+HTML alternative parts, closed.
pub open spec fn alternative_block(m: EmailMessage, alt: Seq<char>) -> Seq<char> {
    let text_part = match m.text {
        Some(t) => delimiter(alt) + text_part_head() + t@ + crlf(),
        None => seq![],
    };
    text_part + delimiter(alt) + html_part_head() + m.html@ + crlf() + close_delimiter(alt)
}

/// `s` cut into lines of 76 characters, each followed by a line break.
pub open spec fn base64_lines(s: Seq<char>) -> Seq<char>
    decreases s.len(),
{
    if s.len() == 0 {
        seq![]
    } else if s.len() <= 76 {
        s + crlf()
    } else {
        s.take(76) + crlf() + base64_lines(s.skip(76))
    }
}

/// The headers and base64 content of one attachment part.
pub open spec fn attachment_part(a: Attachment) -> Seq<char> {
    let disposition = match a.content_id {
        Some(cid) => "Content-ID: <"@ + cid@ + ">\r\n"@ + "Content-Disposition: inline; filename=\""@
            + a.filename@ + "\"\r\n\r\n"@,
        None => "Content-Disposition: attachment; filename=\""@ + a.filename@ + "\"\r\n\r\n"@,
    };
    "Content-Type: "@ + a.content_type@ + "; name=\""@ + a.filename@ + "\"\r\n"@
        + "Content-Transfer-Encoding: base64\r\n"@ + disposition + base64_lines(
        base64_standard(a.content@),
    )
}

/// The attachment is an inline image (it has a content ID).
pub open spec fn is_inline(a: Attachment) -> bool {
    a.content_id is Some
}

/// The parts, each opened by a delimiter of `b`, of the attachments that
/// are inline images (`inline`) or regular attachments (`!inline`).
pub open spec fn attachment_parts(atts: Seq<Attachment>, inline: bool, b: Seq<char>) -> Seq<char>
    decreases atts.len(),
{
    if atts.len() == 0 {
        seq![]
    } else {
        let part = if is_inline(atts.last()) == inline {
            delimiter(b) + attachment_part(atts.last())
        } else {
            seq![]
        };
        attachment_parts(atts.drop_last(), inline, b) + part
    }
}

/// Some attachment is an inline image (`inline`) or a regular attachment
/// (`!inline`).
pub open spec fn has_kind(atts: Seq<Attachment>, inline: bool) -> bool {
    exists|i: int| 0 <= i < atts.len() && is_inline(#[trigger] atts[i]) == inline
}

/// The body of the message under its headers, with boundaries `b` (outer),
/// `rel` (related) and `alt` (alternative).
pub open spec fn mime_body(m: EmailMessage, b: Seq<char>, rel: Seq<char>, alt: Seq<char>) -> Seq<char> {
    let atts = m.attachments@;
    let inline = has_kind(atts, true);
    let regular = has_kind(atts, false);
    if regular && inline {
        mixed_related_body(m, b, rel, alt)
    } else if inline {
        single_kind_body(m, "related"@, true, b, alt)
    } else if regular {
        single_kind_body(m, "mixed"@, false, b, alt)
    } else if m.text is Some {
        multipart_head("alternative"@, b) + alternative_block(m, b)
    } else {
        html_part_head() + m.html@ + crlf()
    }
}

/// The outer boundary made from the number `n`.
pub open spec fn main_boundary(n: u64) -> Seq<char> {
    "ferrum-"@ + fixed_hex(n as nat, 16)
}

/// The related-part boundary made from the number `n`.
pub open spec fn related_boundary(n: u64) -> Seq<char> {
    "ferrum-rel-"@ + fixed_hex(n as nat, 16)
}

/// The alternative-part boundary made from the number `n`.
pub open spec fn alternative_boundary(n: u64) -> Seq<char> {
    "ferrum-alt-"@ + fixed_hex(n as nat, 16)
}

/// The complete MIME text of a message with the boundary numbers given.
pub open spec fn mime_text(m: EmailMessage, b: u64, rel: u64, alt: u64) -> Seq<char> {
    mime_headers(m) + mime_body(m, main_boundary(b), related_boundary(rel), alternative_boundary(alt))
}

/// The header lines of two lists of mailboxes are those of the first
/// followed by those of the second.
proof fn lemma_address_lines_concat(label: Seq<char>, a: Seq<Mailbox>, b: Seq<Mailbox>)
    ensures
        address_lines(label, a + b) == address_lines(label, a) + address_lines(label, b),
    decreases b.len(),
{
    if b.len() == 0 {
        assert(a + b =~= a);
    } else {
        lemma_address_lines_concat(label, a, b.drop_last());
        assert((a + b).drop_last() =~= a + b.drop_last());
        assert((a + b).last() == b.last());
    }
}

/// The header lines of some mailboxes hold the line of mailbox `k`, after
/// the lines of the mailboxes before it.
proof fn lemma_address_line_at(label: Seq<char>, ms: Seq<Mailbox>, k: int)
    requires
        0 <= k < ms.len(),
    ensures
        ({
            let p = address_lines(label, ms.take(k)).len() as int;
            let l = label + mailbox_text(ms[k]@) + crlf();
            &&& p + l.len() <= address_lines(label, ms).len()
            &&& address_lines(label, ms).subrange(p, p + l.len()) == l
        }),
{
    let first = ms.take(k + 1);
    let rest = ms.skip(k + 1);
    assert(ms =~= first + rest);
    lemma_address_lines_concat(label, first, rest);
    assert(first.drop_last() =~= ms.take(k));
    assert(first.last() == ms[k]);
    let p = address_lines(label, ms.take(k)).len() as int;
    let l = label + mailbox_text(ms[k]@) + crlf();
    assert(address_lines(label, first) == address_lines(label, ms.take(k)) + l);
    assert(address_lines(label, ms).subrange(p, p + l.len()) =~= l);
}

/// A text found at position `p` of `x` is found at the same position of
/// `x + y`, and at position `a.len() + p` of `a + x`.
proof fn lemma_found_in_concat(a: Seq<char>, x: Seq<char>, y: Seq<char>, l: Seq<char>, p: int)
    requires
        0 <= p <= x.len(),
        l.is_prefix_of(x.skip(p)),
    ensures
        l.is_prefix_of((x + y).skip(p)),
        l.is_prefix_of((a + x).skip(a.len() + p)),
{
    assert((x + y).skip(p).subrange(0, l.len() as int) =~= x.skip(p).subrange(0, l.len() as int));
    assert((a + x).skip(a.len() + p).subrange(0, l.len() as int) =~= x.skip(p).subrange(0, l.len() as int));
}

/// The MIME text begins with its header lines: `From:` the sender, one
/// `To:` line per To mailbox, one `Cc:` line per Cc mailbox, `Reply-To:`
/// when there is a reply address, `Subject:` the subject, and
/// `MIME-Version: 1.0`, each ended by CRLF.
pub proof fn lemma_mime_header_lines(m: EmailMessage, b: u64, rel: u64, alt: u64)
    ensures
        ({
            let from = "From: "@ + mailbox_text(m.from@) + crlf();
            let s = from + address_lines("To: "@, m.to@) + address_lines("Cc: "@, m.cc@);
            let reply_to = match m.reply_to {
                Some(r) => "Reply-To: "@ + mailbox_text(r@) + crlf(),
                None => seq![],
            };
            &&& s.is_prefix_of(mime_text(m, b, rel, alt))
            &&& (s + reply_to + "Subject: "@ + m.subject@ + crlf() + "MIME-Version: 1.0\r\n"@).is_prefix_of(
                mime_text(m, b, rel, alt),
            )
        }),
{
    let from = "From: "@ + mailbox_text(m.from@) + crlf();
    let s = from + address_lines("To: "@, m.to@) + address_lines("Cc: "@, m.cc@);
    let reply_to = match m.reply_to {
        Some(r) => "Reply-To: "@ + mailbox_text(r@) + crlf(),
        None => seq![],
    };
    let fixed = s + reply_to + "Subject: "@ + m.subject@ + crlf() + "MIME-Version: 1.0\r\n"@;
    let h = mime_headers(m);
    assert(h =~= fixed + custom_header_lines(m.headers@));
    let t = mime_text(m, b, rel, alt);
    assert(t.subrange(0, fixed.len() as int) =~= fixed);
    assert(t.subrange(0, s.len() as int) =~= s);
}

/// The MIME text names every recipient in its headers: it holds a line
/// `To: mailbox` for each To mailbox and a line `Cc: mailbox` for each Cc
/// mailbox (Bcc mailboxes are never written).
pub proof fn lemma_mime_lists_recipients(m: EmailMessage, b: u64, rel: u64, alt: u64)
    ensures
        forall|k: int| #![trigger m.to@[k]] 0 <= k < m.to@.len() ==> exists|p: int|
            0 <= p <= mime_text(m, b, rel, alt).len()
                && ("To: "@ + mailbox_text(m.to@[k]@) + crlf()).is_prefix_of(#[trigger] mime_text(m, b, rel, alt).skip(p)),
        forall|k: int| #![trigger m.cc@[k]] 0 <= k < m.cc@.len() ==> exists|p: int|
            0 <= p <= mime_text(m, b, rel, alt).len()
                && ("Cc: "@ + mailbox_text(m.cc@[k]@) + crlf()).is_prefix_of(#[trigger] mime_text(m, b, rel, alt).skip(p)),
{
    let t = mime_text(m, b, rel, alt);
    let from = "From: "@ + mailbox_text(m.from@) + crlf();
    let to_lines = address_lines("To: "@, m.to@);
    let cc_lines = address_lines("Cc: "@, m.cc@);
    let s = from + to_lines + cc_lines;
    lemma_mime_header_lines(m, b, rel, alt);
    let tail = t.skip(s.len() as int);
    assert(t =~= s + tail);
    assert forall|k: int| #![trigger m.to@[k]] 0 <= k < m.to@.len() implies exists|p: int|
        0 <= p <= t.len() && ("To: "@ + mailbox_text(m.to@[k]@) + crlf()).is_prefix_of(#[trigger] t.skip(p)) by {
        lemma_address_line_at("To: "@, m.to@, k);
        let l = "To: "@ + mailbox_text(m.to@[k]@) + crlf();
        let q = address_lines("To: "@, m.to@.take(k)).len() as int;
        assert(to_lines.skip(q).subrange(0, l.len() as int) =~= to_lines.subrange(q, q + l.len()));
        lemma_found_in_concat(from, to_lines, cc_lines, l, q);
        lemma_found_in_concat(from, from + to_lines, cc_lines, l, from.len() + q);
        lemma_found_in_concat(from, s, tail, l, from.len() + q);
        assert(t.skip(from.len() + q) == (s + tail).skip(from.len() + q));
    }
    assert forall|k: int| #![trigger m.cc@[k]] 0 <= k < m.cc@.len() implies exists|p: int|
        0 <= p <= t.len() && ("Cc: "@ + mailbox_text(m.cc@[k]@) + crlf()).is_prefix_of(#[trigger] t.skip(p)) by {
        lemma_address_line_at("Cc: "@, m.cc@, k);
        let l = "Cc: "@ + mailbox_text(m.cc@[k]@) + crlf();
        let q = address_lines("Cc: "@, m.cc@.take(k)).len() as int;
        assert(cc_lines.skip(q).subrange(0, l.len() as int) =~= cc_lines.subrange(q, q + l.len()));
        let ft = from + to_lines;
        lemma_found_in_concat(ft, cc_lines, tail, l, q);
        lemma_found_in_concat(ft, s, tail, l, ft.len() + q);
        assert(t.skip(ft.len() + q) == (s + tail).skip(ft.len() + q));
    }
}

/// Every attachment can be base64-encoded without overflow.
pub open spec fn attachments_encodable(m: EmailMessage) -> bool {
    forall|i: int|
        0 <= i < m.attachments@.len() ==> #[trigger] m.attachments@[i].content@.len() / 3 * 4 + 4
            <= usize::MAX
}

fn push_address_lines(out: &mut String, label: &str, ms: &Vec<Mailbox>)
    ensures
        final(out)@ == old(out)@ + address_lines(label@, ms@),
{
    let mut i: usize = 0;
    while i < ms.len()
        invariant
            i <= ms@.len(),
            out@ == old(out)@ + address_lines(label@, ms@.take(i as int)),
        decreases ms@.len() - i,
    {
        proof {
            assert(ms@.take(i + 1).drop_last() == ms@.take(i as int));
        }
        out.append(label);
        out.append(ms[i].to_string().as_str());
        out.append("\r\n");
        i = i + 1;
    }
    proof {
        assert(ms@.take(ms@.len() as int) == ms@);
    }
}

fn push_custom_headers(out: &mut String, hs: &Vec<(String, String)>)
    ensures
        final(out)@ == old(out)@ + custom_header_lines(hs@),
{
    let mut i: usize = 0;
    while i < hs.len()
        invariant
            i <= hs@.len(),
            out@ == old(out)@ + custom_header_lines(hs@.take(i as int)),
        decreases hs@.len() - i,
    {
        proof {
            assert(hs@.take(i + 1).drop_last() == hs@.take(i as int));
        }
        out.append(hs[i].0.as_str());
        out.append(": ");
        out.append(hs[i].1.as_str());
        out.append("\r\n");
        i = i + 1;
    }
    proof {
        assert(hs@.take(hs@.len() as int) == hs@);
    }
}

fn push_headers(out: &mut String, m: &EmailMessage)
    ensures
        final(out)@ == old(out)@ + mime_headers(*m),
{
    let ghost start = out@;
    out.append("From: ");
    out.append(m.from.to_string().as_str());
    out.append("\r\n");
    push_address_lines(out, "To: ", &m.to);
    push_address_lines(out, "Cc: ", &m.cc);
    match &m.reply_to {
        Some(r) => {
            out.append("Reply-To: ");
            out.append(r.to_string().as_str());
            out.append("\r\n");
        },
        None => {},
    }
    out.append("Subject: ");
    out.append(m.subject.as_str());
    out.append("\r\n");
    out.append("MIME-Version: 1.0\r\n");
    push_custom_headers(out, &m.headers);
}

fn push_delimiter(out: &mut String, b: &str)
    ensures
        final(out)@ == old(out)@ + delimiter(b@),
{
    out.append("--");
    out.append(b);
    out.append("\r\n");
}

fn push_close_delimiter(out: &mut String, b: &str)
    ensures
        final(out)@ == old(out)@ + close_delimiter(b@),
{
    out.append("--");
    out.append(b);
    out.append("--");
    out.append("\r\n");
}

fn push_multipart_head(out: &mut String, kind: &str, b: &str)
    ensures
        final(out)@ == old(out)@ + multipart_head(kind@, b@),
{
    out.append("Content-Type: multipart/");
    out.append(kind);
    out.append("; boundary=\"");
    out.append(b);
    out.append("\"\r\n\r\n");
}

fn push_alternative(out: &mut String, m: &EmailMessage, alt: &str)
    ensures
        final(out)@ == old(out)@ + alternative_block(*m, alt@),
{
    let ghost start = out@;
    match &m.text {
        Some(t) => {
            push_delimiter(out, alt);
            out.append("Content-Type: text/plain; charset=UTF-8\r\nContent-Transfer-Encoding: 7bit\r\n\r\n");
            out.append(t.as_str());
            out.append("\r\n");
        },
        None => {},
    }
    push_delimiter(out, alt);
    out.append("Content-Type: text/html; charset=UTF-8\r\nContent-Transfer-Encoding: 7bit\r\n\r\n");
    out.append(m.html.as_str());
    out.append("\r\n");
    push_close_delimiter(out, alt);
}

/// Appends `v[i..]` cut into lines of 76 characters.
fn push_base64_lines(out: &mut String, v: &Vec<char>, i: usize)
    requires
        i <= v@.len(),
    ensures
        final(out)@ == old(out)@ + base64_lines(v@.skip(i as int)),
    decreases v@.len() - i,
{
    let ghost rest = v@.skip(i as int);
    if i == v.len() {
        assert(rest.len() == 0);
        assert(old(out)@ + base64_lines(rest) == old(out)@);
        return;
    }
    let end = if v.len() - i > 76 { i + 76 } else { v.len() };
    crate::text::push_chars(out, v, i, end);
    out.append("\r\n");
    let ghost mid = out@;
    push_base64_lines(out, v, end);
    proof {
        if rest.len() > 76 {
            assert(rest.take(76) == v@.subrange(i as int, end as int));
            assert(rest.skip(76) == v@.skip(end as int));
        } else {
            assert(rest == v@.subrange(i as int, end as int));
            assert(v@.skip(end as int).len() == 0);
            assert(base64_lines(v@.skip(end as int)) == Seq::<char>::empty());
        }
        assert(out@ == old(out)@ + base64_lines(rest));
    }
}

fn push_attachment(out: &mut String, a: &Attachment)
    requires
        a.content@.len() / 3 * 4 + 4 <= usize::MAX,
    ensures
        final(out)@ == old(out)@ + attachment_part(*a),
{
    out.append("Content-Type: ");
    out.append(a.content_type.as_str());
    out.append("; name=\"");
    out.append(a.filename.as_str());
    out.append("\"\r\n");
    out.append("Content-Transfer-Encoding: base64\r\n");
    match &a.content_id {
        Some(cid) => {
            out.append("Content-ID: <");
            out.append(cid.as_str());
            out.append(">\r\n");
            out.append("Content-Disposition: inline; filename=\"");
            out.append(a.filename.as_str());
            out.append("\"\r\n\r\n");
        },
        None => {
            out.append("Content-Disposition: attachment; filename=\"");
            out.append(a.filename.as_str());
            out.append("\"\r\n\r\n");
        },
    }
    let encoded = encode_base64(a.content.as_slice());
    let v = crate::text::chars_of(encoded.as_str());
    push_base64_lines(out, &v, 0);
    proof {
        assert(v@.skip(0) == v@);
    }
}

fn push_attachment_parts(out: &mut String, m: &EmailMessage, inline: bool, b: &str)
    requires
        attachments_encodable(*m),
    ensures
        final(out)@ == old(out)@ + attachment_parts(m.attachments@, inline, b@),
{
    let atts = &m.attachments;
    let mut i: usize = 0;
    while i < atts.len()
        invariant
            i <= atts@.len(),
            atts@ == m.attachments@,
            attachments_encodable(*m),
            out@ == old(out)@ + attachment_parts(atts@.take(i as int), inline, b@),
        decreases atts@.len() - i,
    {
        proof {
            assert(atts@.take(i + 1).drop_last() == atts@.take(i as int));
            assert(atts@[i as int].content@.len() / 3 * 4 + 4 <= usize::MAX);
        }
        let a = &atts[i];
        let a_inline = a.content_id.is_some();
        if a_inline == inline {
            push_delimiter(out, b);
            push_attachment(out, a);
        }
        i = i + 1;
    }
    proof {
        assert(atts@.take(atts@.len() as int) == atts@);
    }
}

fn has_attachment_kind(atts: &Vec<Attachment>, inline: bool) -> (r: bool)
    ensures
        r == has_kind(atts@, inline),
{
    let mut i: usize = 0;
    while i < atts.len()
        invariant
            i <= atts@.len(),
            forall|j: int| 0 <= j < i ==> is_inline(#[trigger] atts@[j]) != inline,
        decreases atts@.len() - i,
    {
        if atts[i].content_id.is_some() == inline {
            proof {
                assert(is_inline(atts@[i as int]) == inline);
            }
            return true;
        }
        i = i + 1;
    }
    false
}

fn boundary_text(prefix: &str, n: u64) -> (s: String)
    ensures
        s@ == prefix@ + fixed_hex(n as nat, 16),
{
    let mut s = String::from_str(prefix);
    push_fixed_hex(&mut s, n, 16);
    s
}

/// The body for a message with both inline images and regular attachments.
pub open spec fn mixed_related_body(m: EmailMessage, b: Seq<char>, rel: Seq<char>, alt: Seq<char>) -> Seq<char> {
    multipart_head("mixed"@, b) + delimiter(b) + multipart_head("related"@, rel) + delimiter(rel)
        + multipart_head("alternative"@, alt) + alternative_block(m, alt) + attachment_parts(
        m.attachments@,
        true,
        rel,
    ) + close_delimiter(rel) + attachment_parts(m.attachments@, false, b) + close_delimiter(b)
}

/// The body for a message with inline images only, or with regular
/// attachments only (`kind` names the outer multipart type).
pub open spec fn single_kind_body(m: EmailMessage, kind: Seq<char>, inline: bool, b: Seq<char>, alt: Seq<char>) -> Seq<char> {
    multipart_head(kind, b) + delimiter(b) + multipart_head("alternative"@, alt) + alternative_block(
        m,
        alt,
    ) + attachment_parts(m.attachments@, inline, b) + close_delimiter(b)
}

fn push_mixed_related(out: &mut String, m: &EmailMessage, b: &str, rel: &str, alt: &str)
    requires
        attachments_encodable(*m),
    ensures
        final(out)@ == old(out)@ + mixed_related_body(*m, b@, rel@, alt@),
{
    push_multipart_head(out, "mixed", b);
    push_delimiter(out, b);
    push_multipart_head(out, "related", rel);
    push_delimiter(out, rel);
    push_multipart_head(out, "alternative", alt);
    push_alternative(out, m, alt);
    push_attachment_parts(out, m, true, rel);
    push_close_delimiter(out, rel);
    push_attachment_parts(out, m, false, b);
    push_close_delimiter(out, b);
}

fn push_single_kind(out: &mut String, m: &EmailMessage, kind: &str, inline: bool, b: &str, alt: &str)
    requires
        attachments_encodable(*m),
    ensures
        final(out)@ == old(out)@ + single_kind_body(*m, kind@, inline, b@, alt@),
{
    let ghost start = out@;
    push_multipart_head(out, kind, b);
    push_delimiter(out, b);
    push_multipart_head(out, "alternative", alt);
    push_alternative(out, m, alt);
    let ghost head = multipart_head(kind@, b@) + delimiter(b@) + multipart_head("alternative"@, alt@)
        + alternative_block(*m, alt@);
    assert(out@ =~= start + head);
    push_attachment_parts(out, m, inline, b);
    push_close_delimiter(out, b);
    assert(out@ =~= start + (head + attachment_parts(m.attachments@, inline, b@) + close_delimiter(b@)));
}

/// Build the MIME text of a message with the given boundary numbers.
///
/// The body is multipart/mixed when there are regular attachments,
/// multipart/related when there are inline images (both nested when there
/// are both), multipart/alternative for text plus HTML, and a single HTML
/// part otherwise.
pub fn build_mime_with(message: &EmailMessage, b: u64, rel: u64, alt: u64) -> (s: String)
    requires
        attachments_encodable(*message),
    ensures
        s@ == mime_text(*message, b, rel, alt),
{
    let main = boundary_text("ferrum-", b);
    let related = boundary_text("ferrum-rel-", rel);
    let alternative = boundary_text("ferrum-alt-", alt);
    let mut mime = String::new();
    push_headers(&mut mime, message);
    let inline = has_attachment_kind(&message.attachments, true);
    let regular = has_attachment_kind(&message.attachments, false);
    if regular && inline {
        push_mixed_related(&mut mime, message, main.as_str(), related.as_str(), alternative.as_str());
    } else if inline {
        push_single_kind(&mut mime, message, "related", true, main.as_str(), alternative.as_str());
    } else if regular {
        push_single_kind(&mut mime, message, "mixed", false, main.as_str(), alternative.as_str());
    } else if message.text.is_some() {
        push_multipart_head(&mut mime, "alternative", main.as_str());
        push_alternative(&mut mime, message, main.as_str());
    } else {
        mime.append("Content-Type: text/html; charset=UTF-8\r\nContent-Transfer-Encoding: 7bit\r\n\r\n");
        mime.append(message.html.as_str());
        mime.append("\r\n");
    }
    mime
}

} // verus!
