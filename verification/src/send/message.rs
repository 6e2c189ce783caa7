//! Email message types: Mailbox, EmailMessage, Attachment, SendResult.

use vstd::prelude::*;
use vstd::std_specs::convert::FromSpecImpl;
use crate::text::{
    chars_of, push_chars, string_of, trim, trim_start, trim_end, trim_range, trim_bounds, rfind_in,
    contains_in, strip_range, strip_char, strip_leading, strip_trailing, last_index_of, is_ws,
    lemma_last_index_of, lemma_last_index_of_append,
};
use crate::email_core::style::opt_text;
use crate::send::error::EmailError;

verus! {

broadcast use vstd::string::group_string_axioms;

/// The value of a mailbox: an optional display name and an address.
pub struct MailboxView {
    pub name: Option<Seq<char>>,
    pub email: Seq<char>,
}

/// An email address with an optional display name.
///
/// Formats as `Name <email@domain.com>` or just `email@domain.com`.
#[derive(Debug)]
pub struct Mailbox {
    pub name: Option<String>,
    pub email: String,
}

impl View for Mailbox {
    type V = MailboxView;

    open spec fn view(&self) -> MailboxView {
        MailboxView { name: opt_text(self.name), email: self.email@ }
    }
}

impl Clone for Mailbox {
    fn clone(&self) -> (r: Self)
        ensures
            r@ == self@,
    {
        let name = match &self.name {
            Some(n) => Some(n.clone()),
            None => None,
        };
        Mailbox { name, email: self.email.clone() }
    }
}

/// The display text of a mailbox: `Name <email>` or `email`.
pub open spec fn mailbox_text(m: MailboxView) -> Seq<char> {
    match m.name {
        Some(n) => n + " <"@ + m.email + ">"@,
        None => m.email,
    }
}

/// `t` is of the form `... < ... > ...`: it has a `<`, and its last `>`
/// comes after its last `<`.
pub open spec fn is_angle_form(t: Seq<char>) -> bool {
    last_index_of(t, '<') >= 0 && last_index_of(t, '>') > last_index_of(t, '<')
}

/// The address between the last `<` and the last `>`, trimmed.
pub open spec fn angle_email(t: Seq<char>) -> Seq<char> {
    trim(t.subrange(last_index_of(t, '<') + 1, last_index_of(t, '>')))
}

/// The text before the last `<`, trimmed, without surrounding quotes, and
/// trimmed again.
pub open spec fn angle_name(t: Seq<char>) -> Seq<char> {
    trim(strip_char(trim(t.subrange(0, last_index_of(t, '<'))), '"'))
}

/// The trimmed text `t` is accepted as an address: in angle form when the
/// address part holds an `@`; otherwise when `t` holds an `@` and no space.
pub open spec fn address_accepted(t: Seq<char>) -> bool {
    if is_angle_form(t) {
        angle_email(t).len() > 0 && angle_email(t).contains('@')
    } else {
        t.contains('@') && !t.contains(' ')
    }
}

/// The mailbox that the trimmed text `t` denotes.
pub open spec fn parsed_mailbox(t: Seq<char>) -> MailboxView {
    if is_angle_form(t) {
        MailboxView {
            name: if angle_name(t).len() == 0 { None } else { Some(angle_name(t)) },
            email: angle_email(t),
        }
    } else {
        MailboxView { name: None, email: t }
    }
}

/// The mailbox `From<&str>` gives: the parsed mailbox when the text is
/// accepted, otherwise the text itself as a bare address.
pub open spec fn mailbox_from_text(s: Seq<char>) -> MailboxView {
    if address_accepted(trim(s)) {
        parsed_mailbox(trim(s))
    } else {
        MailboxView { name: None, email: s }
    }
}

/// A mailbox that displays and parses back to itself: a name (if any) that
/// is nonempty with no surrounding whitespace or quotes, and an address
/// with an `@`, no `<`, no surrounding whitespace, and no space when there
/// is no name.
pub open spec fn round_trips(m: MailboxView) -> bool {
    &&& m.email.contains('@')
    &&& !m.email.contains('<')
    &&& !is_ws(m.email[0])
    &&& !is_ws(m.email.last())
    &&& match m.name {
        Some(n) => n.len() > 0 && !is_ws(n[0]) && !is_ws(n.last()) && n[0] != '"' && n.last() != '"',
        None => !m.email.contains(' '),
    }
}

proof fn lemma_trim_unchanged(s: Seq<char>)
    requires
        s.len() > 0,
        !is_ws(s[0]),
        !is_ws(s.last()),
    ensures
        trim(s) == s,
{
}

proof fn lemma_contains_elem(s: Seq<char>, c: char)
    requires
        s.contains(c),
    ensures
        s.len() > 0,
{
}

/// Law: the display text of a mailbox parses back to the same mailbox,
/// for every mailbox whose name and address survive trimming (see
/// `round_trips`).
pub proof fn lemma_mailbox_round_trip(m: MailboxView)
    requires
        round_trips(m),
    ensures
        address_accepted(trim(mailbox_text(m))),
        parsed_mailbox(trim(mailbox_text(m))) == m,
{
    reveal_strlit(" <");
    reveal_strlit(">");
    let e = m.email;
    lemma_contains_elem(e, '@');
    lemma_trim_unchanged(e);
    match m.name {
        Some(n) => {
            let head = n + " <"@;
            let tail = e + ">"@;
            let t = mailbox_text(m);
            assert(t == head + tail);
            assert(t[0] == n[0]);
            assert(t.last() == '>');
            lemma_trim_unchanged(t);
            assert(!tail.contains('<')) by {
                if tail.contains('<') {
                    let k = choose|k: int| 0 <= k < tail.len() && tail[k] == '<';
                    if k < e.len() {
                        assert(e[k] == '<');
                    }
                }
            }
            lemma_last_index_of_append(head, tail, '<');
            assert(head.last() == '<');
            let a: int = n.len() as int + 1;
            assert(last_index_of(head, '<') == a);
            assert(last_index_of(t, '>') == t.len() - 1);
            assert(is_angle_form(t));
            assert(t.subrange(a + 1, t.len() - 1) == e);
            assert(angle_email(t) == e);
            let before = t.subrange(0, a);
            assert(before == n.push(' '));
            assert(trim_start(before) == before);
            assert(before.last() == ' ');
            assert(is_ws(' '));
            assert(before.drop_last() == n);
            assert(trim_end(before) == trim_end(n));
            assert(trim(before) == n);
            assert(strip_leading(n, '"') == n);
            assert(strip_trailing(n, '"') == n);
            assert(strip_char(n, '"') == n);
            lemma_trim_unchanged(n);
            assert(angle_name(t) == n);
        },
        None => {
            lemma_last_index_of(e, '<');
            assert(!is_angle_form(e));
        },
    }
}

impl Mailbox {
    /// Create a new Mailbox with name and email.
    pub fn new(name: &str, email: &str) -> (m: Mailbox)
        ensures
            m@ == (MailboxView { name: Some(name@), email: email@ }),
    {
        Mailbox { name: Some(string_of(name)), email: string_of(email) }
    }

    /// Create a new Mailbox with just an email address.
    pub fn address(email: &str) -> (m: Mailbox)
        ensures
            m@ == (MailboxView { name: None, email: email@ }),
    {
        Mailbox { name: None, email: string_of(email) }
    }

    /// Format as `Name <email>` or `email`.
    pub fn to_string(&self) -> (s: String)
        ensures
            s@ == mailbox_text(self@),
    {
        match &self.name {
            Some(n) => {
                let mut s = n.clone();
                s.append(" <");
                s.append(self.email.as_str());
                s.append(">");
                s
            },
            None => self.email.clone(),
        }
    }

    /// Parse `Name <email@domain.com>` or a plain `email@domain.com`.
    ///
    /// The text is trimmed first. In angle form the address is the trimmed
    /// text between the last `<` and the last `>`, and must hold an `@`;
    /// the name is the text before the `<`, trimmed and without surrounding
    /// quotes (none when empty). Otherwise the text must hold an `@` and no
    /// space. A rejected text gives `InvalidAddress` with the trimmed text.
    pub fn parse(s: &str) -> (r: Result<Mailbox, EmailError>)
        ensures
            r is Ok <==> address_accepted(trim(s@)),
            r matches Ok(m) ==> m@ == parsed_mailbox(trim(s@)),
            r matches Err(e) ==> e matches EmailError::InvalidAddress(x) && x@ == trim(s@),
    {
        let v = chars_of(s);
        let (lo, hi) = trim_bounds(&v);
        let ghost t = v@.subrange(lo as int, hi as int);
        let lt = rfind_in(&v, lo, hi, '<');
        let gt = rfind_in(&v, lo, hi, '>');
        if let Some(a) = lt {
            if let Some(b) = gt {
                if b > a {
                    proof {
                        assert(is_angle_form(t));
                        assert(t.subrange(a - lo + 1, b - lo) == v@.subrange(a + 1, b as int));
                        assert(t.subrange(0, a - lo) == v@.subrange(lo as int, a as int));
                    }
                    let (elo, ehi) = trim_range(&v, a + 1, b);
                    let has_at = contains_in(&v, elo, ehi, '@');
                    if elo == ehi || !has_at {
                        let mut x = String::new();
                        push_chars(&mut x, &v, lo, hi);
                        return Err(EmailError::InvalidAddress(x));
                    }
                    let (n1, n2) = trim_range(&v, lo, a);
                    let (q1, q2) = strip_range(&v, n1, n2, '"');
                    let (m1, m2) = trim_range(&v, q1, q2);
                    let mut email = String::new();
                    push_chars(&mut email, &v, elo, ehi);
                    let name = if m1 == m2 {
                        None
                    } else {
                        let mut n = String::new();
                        push_chars(&mut n, &v, m1, m2);
                        Some(n)
                    };
                    return Ok(Mailbox { name, email });
                }
            }
        }
        proof {
            assert(!is_angle_form(t));
        }
        let has_at = contains_in(&v, lo, hi, '@');
        let has_space = contains_in(&v, lo, hi, ' ');
        let mut x = String::new();
        push_chars(&mut x, &v, lo, hi);
        if has_at && !has_space {
            Ok(Mailbox { name: None, email: x })
        } else {
            Err(EmailError::InvalidAddress(x))
        }
    }

    /// The mailbox a text denotes: the parsed mailbox when the text is
    /// accepted, otherwise the whole text as a bare address.
    pub fn from_text(s: &str) -> (m: Mailbox)
        ensures
            m@ == mailbox_from_text(s@),
    {
        match Mailbox::parse(s) {
            Ok(m) => m,
            Err(_) => Mailbox { name: None, email: string_of(s) },
        }
    }
}

impl std::str::FromStr for Mailbox {
    type Err = EmailError;

    fn from_str(s: &str) -> Result<Mailbox, EmailError> {
        Mailbox::parse(s)
    }
}

impl<'a> From<&'a str> for Mailbox {
    fn from(s: &'a str) -> (m: Mailbox)
        ensures
            m@ == mailbox_from_text(s@),
    {
        Mailbox::from_text(s)
    }
}

impl<'a> FromSpecImpl<&'a str> for Mailbox {
    /// The result is described by the `ensures` of `from` above, over the
    /// mailbox's view; no spec function names the exact string values.
    open spec fn obeys_from_spec() -> bool {
        false
    }

    open spec fn from_spec(v: &'a str) -> Mailbox {
        arbitrary()
    }
}

/// A tag for categorizing emails (provider-specific).
#[derive(Debug)]
pub struct EmailTag {
    pub name: String,
    pub value: String,
}

impl EmailTag {
    /// Create a tag with a name and a value.
    pub fn new(name: &str, value: &str) -> (t: EmailTag)
        ensures
            t.name@ == name@,
            t.value@ == value@,
    {
        EmailTag { name: string_of(name), value: string_of(value) }
    }
}

impl Clone for EmailTag {
    fn clone(&self) -> (r: Self)
        ensures
            r.name@ == self.name@,
            r.value@ == self.value@,
    {
        EmailTag { name: self.name.clone(), value: self.value.clone() }
    }
}

/// An email attachment.
///
/// An attachment with a content ID is an inline image, referenced from the
/// HTML as `cid:<id>`.
#[derive(Debug)]
pub struct Attachment {
    pub filename: String,
    pub content: Vec<u8>,
    pub content_type: String,
    pub content_id: Option<String>,
}

impl Attachment {
    /// Create an attachment from raw bytes.
    pub fn from_bytes(filename: &str, content: Vec<u8>, content_type: &str) -> (a: Attachment)
        ensures
            a.filename@ == filename@,
            a.content@ == content@,
            a.content_type@ == content_type@,
            a.content_id is None,
    {
        Attachment {
            filename: string_of(filename),
            content,
            content_type: string_of(content_type),
            content_id: None,
        }
    }
}

/// A complete email message ready to be sent via a provider.
#[derive(Debug)]
pub struct EmailMessage {
    pub from: Mailbox,
    pub to: Vec<Mailbox>,
    pub cc: Vec<Mailbox>,
    pub bcc: Vec<Mailbox>,
    pub reply_to: Option<Mailbox>,
    pub subject: String,
    pub html: String,
    pub text: Option<String>,
    pub attachments: Vec<Attachment>,
    pub headers: Vec<(String, String)>,
    pub tags: Vec<EmailTag>,
}

impl Default for EmailMessage {
    fn default() -> (m: EmailMessage)
        ensures
            m.from@ == (MailboxView { name: None, email: "noreply@example.com"@ }),
            m.to@.len() == 0,
            m.cc@.len() == 0,
            m.bcc@.len() == 0,
            m.reply_to is None,
            m.subject@.len() == 0,
            m.html@.len() == 0,
            m.text is None,
            m.attachments@.len() == 0,
            m.headers@.len() == 0,
            m.tags@.len() == 0,
    {
        EmailMessage {
            from: Mailbox::address("noreply@example.com"),
            to: Vec::new(),
            cc: Vec::new(),
            bcc: Vec::new(),
            reply_to: None,
            subject: String::new(),
            html: String::new(),
            text: None,
            attachments: Vec::new(),
            headers: Vec::new(),
            tags: Vec::new(),
        }
    }
}

/// The result of a successful email send.
#[derive(Debug)]
pub struct SendResult {
    /// The provider-assigned message ID.
    pub message_id: String,
    /// The name of the provider that sent the message.
    pub provider: String,
}

impl Clone for SendResult {
    fn clone(&self) -> (r: Self)
        ensures
            r.message_id@ == self.message_id@,
            r.provider@ == self.provider@,
    {
        SendResult { message_id: self.message_id.clone(), provider: self.provider.clone() }
    }
}

} // verus!
