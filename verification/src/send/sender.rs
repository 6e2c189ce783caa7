//! The `Sender`: renders components into messages from a default sender.
//!
//! Handing the messages to a provider is the caller's part.

use vstd::prelude::*;
use crate::text::string_of;
use crate::render::text_extractor::plain_text_of;
use crate::email_core::component::Component;
use crate::render::renderer::{Renderer, RenderConfig, document, renders_document, renders_text};
use crate::send::shield::{validate_outbound, validation_outcome, shield_checkable, checkable_message, outbound_checks, address_checks, header_checks, rate_checks, check, CheckKind, CheckView, rate_sends, earlier_sends, within_rate_limit};
use vstd::multiset::Multiset;
use crate::send::error::EmailError;
use crate::send::message::{EmailMessage, Mailbox, MailboxView, mailbox_from_text};

verus! {

broadcast use vstd::string::group_string_axioms;

/// The entry point for sending emails: a default "from" address and a
/// renderer.
pub struct Sender {
    default_from: Mailbox,
    renderer: Renderer,
}

/// The message sent to one recipient: from the default sender, with the
/// subject (or `(no subject)`), HTML and plain text given, and nothing else.
pub open spec fn message_for(m: EmailMessage, from: MailboxView, to: MailboxView, subject: Option<Seq<char>>, html: Seq<char>, text: Option<Seq<char>>) -> bool {
    &&& m.from@ == from
    &&& m.to@.len() == 1
    &&& m.to@[0]@ == to
    &&& m.cc@.len() == 0
    &&& m.bcc@.len() == 0
    &&& m.reply_to is None
    &&& m.subject@ == match subject {
        Some(s) => s,
        None => "(no subject)"@,
    }
    &&& m.html@ == html
    &&& match (m.text, text) {
        (Some(a), Some(b)) => a@ == b,
        (None, None) => true,
        _ => false,
    }
    &&& m.attachments@.len() == 0
    &&& m.headers@.len() == 0
    &&& m.tags@.len() == 0
}

/// Build the message for one recipient from its parts.
pub fn build_message(from: &Mailbox, to: Mailbox, subject: Option<&str>, html: &str, text: &Option<String>) -> (m: EmailMessage)
    ensures
        message_for(m, from@, to@, match subject { Some(s) => Some(s@), None => None }, html@, match *text { Some(t) => Some(t@), None => None }),
{
    let subject = match subject {
        Some(s) => string_of(s),
        None => string_of("(no subject)"),
    };
    let text = match text {
        Some(t) => Some(t.clone()),
        None => None,
    };
    let mut to_list: Vec<Mailbox> = Vec::new();
    to_list.push(to);
    let mut m = EmailMessage::default();
    m.from = from.clone();
    m.to = to_list;
    m.subject = subject;
    m.html = string_of(html);
    m.text = text;
    m
}

/// `s` is the subject line of the component: what `subject()` may give,
/// or `(no subject)` when it gives none.
pub open spec fn subject_line<C: Component>(component: &C, s: Seq<char>) -> bool {
    exists|subj: Option<&str>| #[trigger] call_ensures(C::subject, (component,), subj) && s == match subj {
        Some(x) => x@,
        None => "(no subject)"@,
    }
}

/// `m` is the message `sender` composes of `component` for `to`: from the
/// default sender to `to` alone, with the component's subject line, its
/// rendered document and its plain text, and nothing else.
pub open spec fn composed<C: Component>(sender: Sender, component: &C, to: MailboxView, m: EmailMessage) -> bool {
    &&& m.from@ == sender.spec_default_from()
    &&& m.to@.len() == 1
    &&& m.to@[0]@ == to
    &&& m.cc@.len() == 0
    &&& m.bcc@.len() == 0
    &&& m.reply_to is None
    &&& m.attachments@.len() == 0
    &&& m.headers@.len() == 0
    &&& m.tags@.len() == 0
    &&& subject_line(component, m.subject@)
    &&& renders_document(component, sender.spec_renderer().config, m.html@)
    &&& component.obeys_render_spec() ==> m.html@ == document(sender.spec_renderer().config, component.spec_render())
    &&& m.text matches Some(t) && renders_text(component, t@)
    &&& component.obeys_render_spec() ==> (m.text matches Some(t) && t@ == plain_text_of(component.spec_render()))
}

impl Sender {
    /// Create a new Sender with a default "from" address (parsed as
    /// `Mailbox::from` does) and the default renderer.
    pub fn new(from: &str) -> (s: Sender)
        ensures
            s.spec_default_from() == mailbox_from_text(from@),
            s.spec_renderer().config.include_doctype,
            !s.spec_renderer().config.pretty_print,
            s.spec_renderer().config.indent@ == "  "@,
    {
        Sender { default_from: Mailbox::from_text(from), renderer: Renderer::new() }
    }

    /// Create a new Sender with a custom renderer.
    pub fn with_renderer(from: &str, renderer: Renderer) -> (s: Sender)
        ensures
            s.spec_default_from() == mailbox_from_text(from@),
            s.spec_renderer().config == renderer.config,
    {
        Sender { default_from: Mailbox::from_text(from), renderer }
    }

    /// The default "from" address.
    pub closed spec fn spec_default_from(&self) -> MailboxView {
        self.default_from@
    }

    /// The default "from" address.
    pub fn default_from(&self) -> (m: &Mailbox)
        ensures
            m@ == self.spec_default_from(),
    {
        &self.default_from
    }

    /// Get a reference to the renderer.
    pub fn renderer(&self) -> (r: &Renderer)
        ensures
            *r == self.spec_renderer(),
    {
        &self.renderer
    }

    /// The renderer.
    pub closed spec fn spec_renderer(&self) -> Renderer {
        self.renderer
    }

    /// Render a component into the message for one recipient.
    ///
    /// The HTML is the rendered document; the plain text is the
    /// component's own or the extracted one; the subject is the
    /// component's, or `(no subject)`.
    pub fn compose<C: Component>(&self, component: &C, to: Mailbox) -> (r: Result<EmailMessage, EmailError>)
        ensures
            r matches Ok(m) && composed(*self, component, to@, m),
    {
        let html = match self.renderer.render_html(component) {
            Ok(h) => h,
            Err(e) => {
                return Err(EmailError::from(e));
            },
        };
        let text = match self.renderer.render_text(component) {
            Ok(t) => Some(t),
            Err(_) => None,
        };
        let subject = component.subject();
        assert(call_ensures(C::subject, (component,), subject));
        let ghost tv = to@;
        let m = build_message(&self.default_from, to, subject, html.as_str(), &text);
        assert(subject_line(component, m.subject@));
        Ok(m)
    }

    /// Render a component for one recipient and check the message through
    /// NexusShield (see `validate_outbound`): the message when it passes,
    /// otherwise the shield's error.
    pub fn prepare<C: Component>(&self, component: &C, to: Mailbox) -> (r: Result<EmailMessage, EmailError>)
        requires
            shield_checkable(self.spec_default_from().email),
            shield_checkable(to@.email),
        ensures
            match r {
                Ok(m) => composed(*self, component, to@, m) && validation_outcome(m, Ok(())),
                Err(e) => exists|m: EmailMessage| #[trigger] composed(*self, component, to@, m) && validation_outcome(m, Err(e)) && within_rate_limit(m),
            },
    {
        let m = match self.compose(component, to) {
            Ok(m) => m,
            Err(e) => {
                return Err(e);
            },
        };
        proof {
            lemma_one_recipient_checkable(m);
        }
        match validate_outbound(&m) {
            Ok(()) => Ok(m),
            Err(e) => Err(e),
        }
    }

    /// Render a component into one message per recipient, in order.
    pub fn compose_batch<C: Component>(&self, component: &C, recipients: Vec<Mailbox>) -> (r: Result<Vec<EmailMessage>, EmailError>)
        ensures
            r matches Ok(ms) && ms@.len() == recipients@.len() && forall|i: int| 0 <= i < ms@.len() ==> {
                let m = #[trigger] ms@[i];
                &&& m.from@ == self.spec_default_from()
                &&& m.to@.len() == 1
                &&& m.to@[0]@ == recipients@[i]@
                &&& composed(*self, component, recipients@[i]@, m)
                &&& m.subject@ == ms@[0].subject@
                &&& m.html@ == ms@[0].html@
                &&& m.text matches Some(t) && ms@[0].text matches Some(t0) && t@ == t0@
            },
    {
        let html = match self.renderer.render_html(component) {
            Ok(h) => h,
            Err(e) => {
                return Err(EmailError::from(e));
            },
        };
        let text = match self.renderer.render_text(component) {
            Ok(t) => Some(t),
            Err(_) => None,
        };
        let subject = component.subject();
        assert(call_ensures(C::subject, (component,), subject));
        let ghost sline = match subject {
            Some(x) => x@,
            None => "(no subject)"@,
        };
        let mut out: Vec<EmailMessage> = Vec::new();
        let mut rest = recipients;
        let ghost all = rest@;
        let mut i: usize = 0;
        while i < rest.len()
            invariant
                rest@ == all,
                i <= all.len(),
                out@.len() == i,
                text matches Some(t) && renders_text(component, t@),
                component.obeys_render_spec() ==> (text matches Some(t) && t@ == plain_text_of(component.spec_render())),
                renders_document(component, self.spec_renderer().config, html@),
                call_ensures(C::subject, (component,), subject),
                sline == match subject {
                    Some(x) => x@,
                    None => "(no subject)"@,
                },
                component.obeys_render_spec() ==> html@ == document(self.spec_renderer().config, component.spec_render()),
                forall|k: int| 0 <= k < i ==> {
                    let m = #[trigger] out@[k];
                    &&& composed(*self, component, all[k]@, m)
                    &&& m.subject@ == sline
                    &&& m.html@ == html@
                    &&& m.text matches Some(t) && text matches Some(t0) && t@ == t0@
                },
            decreases all.len() - i,
        {
            let to = rest[i].clone();
            let m = build_message(&self.default_from, to, subject, html.as_str(), &text);
            assert(subject_line(component, m.subject@));
            out.push(m);
            i = i + 1;
        }
        Ok(out)
    }
}

/// Every header check is a header check.
proof fn lemma_header_checks_kind(hs: Seq<(String, String)>)
    ensures
        forall|i: int| 0 <= i < header_checks(hs).len() ==> (#[trigger] header_checks(hs)[i]).kind == CheckKind::Header,
    decreases hs.len(),
{
    if hs.len() > 0 {
        lemma_header_checks_kind(hs.drop_last());
    }
}

/// Nothing is counted among checks that hold no rate check.
proof fn lemma_no_rate_sends(cs: Seq<CheckView>)
    requires
        forall|k: int| 0 <= k < cs.len() ==> (#[trigger] cs[k]).kind != CheckKind::Rate,
    ensures
        rate_sends(cs) =~= Multiset::empty(),
    decreases cs.len(),
{
    if cs.len() > 0 {
        assert(cs.last() == cs[cs.len() - 1]);
        lemma_no_rate_sends(cs.drop_last());
    }
}

/// A message from one sender to one recipient, with no copies, can be
/// checked by the shield when both addresses can, and its single rate
/// check is within the limit.
proof fn lemma_one_recipient_checkable(m: EmailMessage)
    requires
        shield_checkable(m.from.email@),
        m.to@.len() == 1,
        shield_checkable(m.to@[0].email@),
        m.cc@.len() == 0,
        m.bcc@.len() == 0,
    ensures
        checkable_message(m),
        within_rate_limit(m),
{
    reveal_with_fuel(address_checks, 2);
    reveal_with_fuel(rate_checks, 2);
    assert(m.to@.drop_last().len() == 0);
    let name = match m.from.name {
        Some(n) => seq![check(CheckKind::Header, "from_name"@, n@, "Shield: sender name rejected: "@)],
        None => seq![],
    };
    let head = seq![check(CheckKind::Address, seq![], m.from.email@, "Shield: sender address rejected: "@)]
        + address_checks("recipient"@, m.to@);
    let a = seq![check(CheckKind::Header, "subject"@, m.subject@, "Shield: subject rejected: "@)] + name;
    let b = a + header_checks(m.headers@);
    let rate = rate_checks(m.to@);
    assert(address_checks("CC"@, m.cc@) =~= seq![]);
    assert(address_checks("BCC"@, m.bcc@) =~= seq![]);
    assert(rate_checks(m.cc@) =~= seq![]);
    assert(rate_checks(m.bcc@) =~= seq![]);
    assert(rate_checks(m.to@.drop_last()) =~= seq![]);
    assert(rate.len() == 1 && rate[0].kind == CheckKind::Rate);
    let cs = outbound_checks(m);
    assert(cs =~= head + b + rate);
    assert(head.len() == 2);
    lemma_header_checks_kind(m.headers@);
    assert forall|i: int| 0 <= i < b.len() implies (#[trigger] b[i]).kind == CheckKind::Header by {
        if i >= a.len() {
            assert(b[i] == header_checks(m.headers@)[i - a.len()]);
        }
    }
    assert forall|i: int| 0 <= i < cs.len() && (#[trigger] cs[i]).kind == CheckKind::Address
        implies shield_checkable(cs[i].value) by {
        if i >= 2 && i < 2 + b.len() {
            assert(cs[i] == b[i - 2]);
        } else if i >= 2 {
            assert(cs[i] == rate[i - 2 - b.len()]);
        }
    }
    let last = cs.len() - 1;
    assert forall|k: int| 0 <= k < cs.take(last).len() implies (#[trigger] cs.take(last)[k]).kind != CheckKind::Rate by {
        if k >= 2 {
            assert(cs.take(last)[k] == b[k - 2]);
        }
    }
    lemma_no_rate_sends(cs.take(last));
    assert forall|i: int| 0 <= i < cs.len() && (#[trigger] cs[i]).kind == CheckKind::Rate
        implies earlier_sends(cs, i) < 5 by {
        if i < last {
            if i >= 2 {
                assert(cs[i] == b[i - 2]);
            }
        }
    }
}

} // verus!
