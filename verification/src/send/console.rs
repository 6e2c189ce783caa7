//! Console provider: describes emails on the terminal instead of sending
//! them, for development and testing.
//!
//! The report is computed here; printing it and counting messages is the
//! caller's part.

use vstd::prelude::*;
use crate::text::{chars_of, nat_text, u64_text, string_of, padded_text, push_padded, push_chars, lemma_padded_text_value};
use crate::render::html::{repeat, repeat_str};
use crate::render::text_extractor::{split_lines, split_into_lines};
use crate::send::message::{Attachment, EmailMessage, Mailbox, SendResult, mailbox_text};

verus! {

broadcast use vstd::string::group_string_axioms;

/// A provider that prints emails to stdout instead of sending them.
///
/// Used for local development and testing. Displays the email metadata
/// (from, to, subject) and content with ANSI formatting.
pub struct ConsoleProvider {
    /// Whether to print the full HTML body or just a truncated preview.
    pub show_full_html: bool,
    /// Maximum number of HTML characters to display when `show_full_html` is false.
    pub html_preview_length: usize,
}

impl ConsoleProvider {
    /// Create a new ConsoleProvider: HTML preview of 500 characters.
    pub fn new() -> (p: ConsoleProvider)
        ensures
            !p.show_full_html,
            p.html_preview_length == 500,
    {
        ConsoleProvider { show_full_html: false, html_preview_length: 500 }
    }

    /// Show the full HTML body in output.
    pub fn full_html(self) -> (p: ConsoleProvider)
        ensures
            p.show_full_html,
            p.html_preview_length == self.html_preview_length,
    {
        ConsoleProvider { show_full_html: true, ..self }
    }
}

impl Default for ConsoleProvider {
    fn default() -> (p: ConsoleProvider)
        ensures
            !p.show_full_html,
            p.html_preview_length == 500,
    {
        ConsoleProvider::new()
    }
}

/// The message ID of the `n`th console message: `console-` and `n` padded
/// with zeros to eight digits.
pub open spec fn console_message_id(n: u64) -> Seq<char> {
    "console-"@ + padded_text(n as nat, 8)
}

/// Message IDs never repeat: two different message counters give two
/// different console message IDs.
pub proof fn lemma_console_ids_distinct(a: u64, b: u64)
    requires
        a != b,
    ensures
        console_message_id(a) != console_message_id(b),
{
    lemma_padded_text_value(a as nat, 8);
    lemma_padded_text_value(b as nat, 8);
    let pre = "console-"@;
    if console_message_id(a) == console_message_id(b) {
        assert(console_message_id(a).skip(pre.len() as int) == padded_text(a as nat, 8));
        assert(console_message_id(b).skip(pre.len() as int) == padded_text(b as nat, 8));
    }
}

/// A printed line.
pub open spec fn line(l: Seq<char>) -> Seq<char> {
    l + "\n"@
}

/// The heavy rule of the report.
pub open spec fn heavy_rule() -> Seq<char> {
    repeat("\u{2500}"@, 60)
}

/// The light rule of the report.
pub open spec fn light_rule() -> Seq<char> {
    repeat("\u{2500}"@, 40)
}

/// One line per mailbox, after a label.
pub open spec fn mailbox_lines(label: Seq<char>, ms: Seq<Mailbox>) -> Seq<char>
    decreases ms.len(),
{
    if ms.len() == 0 {
        seq![]
    } else {
        mailbox_lines(label, ms.drop_last()) + line(label + mailbox_text(ms.last()@))
    }
}

/// Each line indented by two spaces.
pub open spec fn indented_lines(ls: Seq<Seq<char>>) -> Seq<char>
    decreases ls.len(),
{
    if ls.len() == 0 {
        seq![]
    } else {
        indented_lines(ls.drop_last()) + line("  "@ + ls.last())
    }
}

/// One line per attachment: file name, content type and size in bytes.
pub open spec fn attachment_lines(atts: Seq<Attachment>) -> Seq<char>
    decreases atts.len(),
{
    if atts.len() == 0 {
        seq![]
    } else {
        let a = atts.last();
        attachment_lines(atts.drop_last()) + line(
            "    - "@ + a.filename@ + " ("@ + a.content_type@ + ", "@ + nat_text(a.content@.len())
                + " bytes)"@,
        )
    }
}

/// The HTML shown: all of it, or its first `n` characters followed by the
/// total character count when it is longer.
pub open spec fn html_shown(html: Seq<char>, full: bool, n: usize) -> Seq<char> {
    if full || html.len() <= n {
        html
    } else {
        html.take(n as int) + "... \x1b[2m("@ + nat_text(html.len()) + " chars total)\x1b[0m"@
    }
}

/// The opening banner of the report.
pub open spec fn report_banner() -> Seq<char> {
    line(seq![]) + line("\x1b[1;36m"@ + heavy_rule() + "\x1b[0m"@) + line(
        "\x1b[1;36m  \u{1F4E7} Ferrum Email \u{2014} Console Provider\x1b[0m"@,
    ) + line("\x1b[1;36m"@ + heavy_rule() + "\x1b[0m"@) + line(seq![])
}

/// The sender, recipient and reply-to lines.
pub open spec fn report_addresses(m: EmailMessage) -> Seq<char> {
    let reply_to = match m.reply_to {
        Some(r) => line("  \x1b[1mReply-To:\x1b[0m "@ + mailbox_text(r@)),
        None => seq![],
    };
    line("  \x1b[1mFrom:\x1b[0m    "@ + mailbox_text(m.from@)) + mailbox_lines(
        "  \x1b[1mTo:\x1b[0m      "@,
        m.to@,
    ) + mailbox_lines("  \x1b[1mCc:\x1b[0m      "@, m.cc@) + mailbox_lines(
        "  \x1b[1mBcc:\x1b[0m     "@,
        m.bcc@,
    ) + reply_to
}

/// The subject, message ID and attachment lines.
pub open spec fn report_details(m: EmailMessage, id: Seq<char>) -> Seq<char> {
    let attachments = if m.attachments@.len() > 0 {
        line(seq![]) + line("  \x1b[1mAttachments:\x1b[0m"@) + attachment_lines(m.attachments@)
    } else {
        seq![]
    };
    line("  \x1b[1mSubject:\x1b[0m  "@ + m.subject@) + line("  \x1b[1mMsg ID:\x1b[0m   "@ + id)
        + attachments
}

/// The sections of the report above the plain text: banner, addresses,
/// subject, ID and attachments.
pub open spec fn report_head(m: EmailMessage, id: Seq<char>) -> Seq<char> {
    report_banner() + report_addresses(m) + report_details(m, id)
}

/// The plain-text section, when the message has a plain-text version.
pub open spec fn report_text(m: EmailMessage) -> Seq<char> {
    match m.text {
        Some(t) => line(seq![]) + line("  \x1b[1;33m"@ + light_rule() + "\x1b[0m"@) + line(
            "  \x1b[1;33m  Plain Text\x1b[0m"@,
        ) + line("  \x1b[1;33m"@ + light_rule() + "\x1b[0m"@) + line(seq![]) + indented_lines(
            split_lines(t@),
        ),
        None => seq![],
    }
}

/// The HTML section and the closing banner.
pub open spec fn report_html(p: ConsoleProvider, m: EmailMessage) -> Seq<char> {
    line(seq![]) + line("  \x1b[1;32m"@ + light_rule() + "\x1b[0m"@) + line(
        "  \x1b[1;32m  HTML\x1b[0m"@,
    ) + line("  \x1b[1;32m"@ + light_rule() + "\x1b[0m"@) + line(seq![]) + indented_lines(
        split_lines(html_shown(m.html@, p.show_full_html, p.html_preview_length)),
    ) + line(seq![]) + line("\x1b[1;36m"@ + heavy_rule() + "\x1b[0m"@) + line(seq![])
}

/// The complete report printed for a message with message ID `id`.
pub open spec fn console_report(p: ConsoleProvider, m: EmailMessage, id: Seq<char>) -> Seq<char> {
    report_head(m, id) + report_text(m) + report_html(p, m)
}

fn push_line(out: &mut String, l: &str)
    ensures
        final(out)@ == old(out)@ + line(l@),
{
    out.append(l);
    out.append("\n");
}

fn push_blank(out: &mut String)
    ensures
        final(out)@ == old(out)@ + line(seq![]),
{
    out.append("\n");
    proof {
        reveal_strlit("\n");
        assert(line(seq![]) == "\n"@);
    }
}

fn push_mailbox_lines(out: &mut String, label: &str, ms: &Vec<Mailbox>)
    ensures
        final(out)@ == old(out)@ + mailbox_lines(label@, ms@),
{
    let mut i: usize = 0;
    while i < ms.len()
        invariant
            i <= ms@.len(),
            out@ == old(out)@ + mailbox_lines(label@, ms@.take(i as int)),
        decreases ms@.len() - i,
    {
        proof {
            assert(ms@.take(i + 1).drop_last() == ms@.take(i as int));
        }
        let mut l = String::from_str(label);
        l.append(ms[i].to_string().as_str());
        push_line(out, l.as_str());
        i = i + 1;
    }
    proof {
        assert(ms@.take(ms@.len() as int) == ms@);
    }
}

fn push_indented_lines(out: &mut String, s: &str)
    ensures
        final(out)@ == old(out)@ + indented_lines(split_lines(s@)),
{
    let v = chars_of(s);
    let lines = split_into_lines(&v);
    let mut i: usize = 0;
    while i < lines.len()
        invariant
            i <= lines@.len(),
            v@ == s@,
            lines@.len() == split_lines(v@).len(),
            forall|k: int| 0 <= k < lines@.len() ==> #[trigger] lines@[k]@ == split_lines(v@)[k],
            out@ == old(out)@ + indented_lines(split_lines(v@).take(i as int)),
        decreases lines@.len() - i,
    {
        proof {
            assert(split_lines(v@).take(i + 1).drop_last() == split_lines(v@).take(i as int));
            assert(lines@[i as int]@ == split_lines(v@)[i as int]);
        }
        let mut l = String::from_str("  ");
        crate::text::push_chars(&mut l, &lines[i], 0, lines[i].len());
        proof {
            assert(lines@[i as int]@.subrange(0, lines@[i as int]@.len() as int) == lines@[i as int]@);
        }
        push_line(out, l.as_str());
        i = i + 1;
    }
    proof {
        assert(split_lines(v@).take(split_lines(v@).len() as int) == split_lines(v@));
    }
}

fn push_attachment_lines(out: &mut String, atts: &Vec<Attachment>)
    ensures
        final(out)@ == old(out)@ + attachment_lines(atts@),
{
    let mut i: usize = 0;
    while i < atts.len()
        invariant
            i <= atts@.len(),
            out@ == old(out)@ + attachment_lines(atts@.take(i as int)),
        decreases atts@.len() - i,
    {
        proof {
            assert(atts@.take(i + 1).drop_last() == atts@.take(i as int));
        }
        let a = &atts[i];
        let mut l = String::from_str("    - ");
        l.append(a.filename.as_str());
        l.append(" (");
        l.append(a.content_type.as_str());
        l.append(", ");
        l.append(u64_text(a.content.len() as u64).as_str());
        l.append(" bytes)");
        push_line(out, l.as_str());
        i = i + 1;
    }
    proof {
        assert(atts@.take(atts@.len() as int) == atts@);
    }
}

fn push_banner(out: &mut String)
    ensures
        final(out)@ == old(out)@ + report_banner(),
{
    let heavy = repeat_str("\u{2500}", 60);
    let mut banner = String::from_str("\x1b[1;36m");
    banner.append(heavy.as_str());
    banner.append("\x1b[0m");
    push_blank(out);
    push_line(out, banner.as_str());
    push_line(out, "\x1b[1;36m  \u{1F4E7} Ferrum Email \u{2014} Console Provider\x1b[0m");
    push_line(out, banner.as_str());
    push_blank(out);
}

fn push_addresses(out: &mut String, m: &EmailMessage)
    ensures
        final(out)@ == old(out)@ + report_addresses(*m),
{
    let mut from = String::from_str("  \x1b[1mFrom:\x1b[0m    ");
    from.append(m.from.to_string().as_str());
    push_line(out, from.as_str());
    push_mailbox_lines(out, "  \x1b[1mTo:\x1b[0m      ", &m.to);
    push_mailbox_lines(out, "  \x1b[1mCc:\x1b[0m      ", &m.cc);
    push_mailbox_lines(out, "  \x1b[1mBcc:\x1b[0m     ", &m.bcc);
    match &m.reply_to {
        Some(r) => {
            let mut l = String::from_str("  \x1b[1mReply-To:\x1b[0m ");
            l.append(r.to_string().as_str());
            push_line(out, l.as_str());
        },
        None => {},
    }
}

fn push_details(out: &mut String, m: &EmailMessage, id: &str)
    ensures
        final(out)@ == old(out)@ + report_details(*m, id@),
{
    let mut subject = String::from_str("  \x1b[1mSubject:\x1b[0m  ");
    subject.append(m.subject.as_str());
    push_line(out, subject.as_str());
    let mut id_line = String::from_str("  \x1b[1mMsg ID:\x1b[0m   ");
    id_line.append(id);
    push_line(out, id_line.as_str());
    if m.attachments.len() > 0 {
        push_blank(out);
        push_line(out, "  \x1b[1mAttachments:\x1b[0m");
        push_attachment_lines(out, &m.attachments);
    }
}

fn push_report_head(out: &mut String, m: &EmailMessage, id: &str)
    ensures
        final(out)@ == old(out)@ + report_head(*m, id@),
{
    push_banner(out);
    push_addresses(out, m);
    push_details(out, m, id);
}

fn push_report_text(out: &mut String, m: &EmailMessage)
    ensures
        final(out)@ == old(out)@ + report_text(*m),
{
    match &m.text {
        Some(t) => {
            let thin = repeat_str("\u{2500}", 40);
            let mut rule = String::from_str("  \x1b[1;33m");
            rule.append(thin.as_str());
            rule.append("\x1b[0m");
            push_blank(out);
            push_line(out, rule.as_str());
            push_line(out, "  \x1b[1;33m  Plain Text\x1b[0m");
            push_line(out, rule.as_str());
            push_blank(out);
            push_indented_lines(out, t.as_str());
        },
        None => {},
    }
}

fn html_preview(p: &ConsoleProvider, m: &EmailMessage) -> (s: String)
    ensures
        s@ == html_shown(m.html@, p.show_full_html, p.html_preview_length),
{
    let chars = chars_of(m.html.as_str());
    if p.show_full_html || chars.len() <= p.html_preview_length {
        return m.html.clone();
    }
    let mut s = String::new();
    push_chars(&mut s, &chars, 0, p.html_preview_length);
    s.append("... \x1b[2m(");
    s.append(u64_text(chars.len() as u64).as_str());
    s.append(" chars total)\x1b[0m");
    proof {
        assert(chars@.subrange(0, p.html_preview_length as int) == m.html@.take(p.html_preview_length as int));
    }
    s
}

fn push_report_html(out: &mut String, p: &ConsoleProvider, m: &EmailMessage)
    ensures
        final(out)@ == old(out)@ + report_html(*p, *m),
{
    let thin = repeat_str("\u{2500}", 40);
    let mut rule = String::from_str("  \x1b[1;32m");
    rule.append(thin.as_str());
    rule.append("\x1b[0m");
    push_blank(out);
    push_line(out, rule.as_str());
    push_line(out, "  \x1b[1;32m  HTML\x1b[0m");
    push_line(out, rule.as_str());
    push_blank(out);
    let shown = html_preview(p, m);
    push_indented_lines(out, shown.as_str());
    let heavy = repeat_str("\u{2500}", 60);
    let mut banner = String::from_str("\x1b[1;36m");
    banner.append(heavy.as_str());
    banner.append("\x1b[0m");
    push_blank(out);
    push_line(out, banner.as_str());
    push_blank(out);
}

impl ConsoleProvider {
    /// "Send" the `counter`th message: the report to print, and the result
    /// with message ID `console-NNNNNNNN` from provider `console`.
    pub fn send(&self, message: &EmailMessage, counter: u64) -> (r: (String, SendResult))
        ensures
            r.0@ == console_report(*self, *message, console_message_id(counter)),
            r.1.message_id@ == console_message_id(counter),
            r.1.provider@ == "console"@,
    {
        let mut id = String::from_str("console-");
        push_padded(&mut id, counter, 8);
        let mut out = String::new();
        push_report_head(&mut out, message, id.as_str());
        push_report_text(&mut out, message);
        push_report_html(&mut out, self, message);
        (out, SendResult { message_id: id, provider: string_of("console") })
    }
}

} // verus!
