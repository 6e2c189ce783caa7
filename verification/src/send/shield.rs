//! NexusShield integration: security validation of outbound emails.
//!
//! Every outbound message is checked through NexusShield's email guard
//! before sending: address format, header injection in the subject, the
//! sender name and custom headers, and the per-recipient rate limit. The
//! HTML and text bodies are not checked: they are rendered output, which
//! legitimately holds markup.

use vstd::prelude::*;
use crate::text::{string_of, chars_of};
use vstd::utf8::{encode_utf8, is_char_boundary};
use vstd::string::StringSliceAdditionalSpecFns;
use crate::send::error::EmailError;
use crate::send::message::{EmailMessage, Mailbox};
use crate::relay::lowercase;
use vstd::multiset::Multiset;

verus! {

broadcast use vstd::string::group_string_axioms;

#[verifier::external_type_specification]
#[verifier::external_body]
pub struct ExShield(nexus_shield::Shield);

/// The sends a shield's email rate limiter has recorded, each by the
/// lower-cased recipient address. The limiter forgets sends older than its
/// window; this counts every send recorded, so the limiter's own record of
/// a recipient is never larger.
pub uninterp spec fn shield_sends(s: nexus_shield::Shield) -> Multiset<Seq<char>>;

/// The number of sends to one recipient that a shield's rate limiter
/// allows within its window.
pub uninterp spec fn shield_rate_limit(s: nexus_shield::Shield) -> nat;

/// A shield with the default configuration.
///
/// Trusted: calls `nexus_shield::Shield::new(ShieldConfig::default())`.
/// A new shield has recorded no send, and the default email guard allows
/// 5 sends per recipient (`max_per_recipient: 5`).
#[verifier::external_body]
fn default_shield() -> (s: nexus_shield::Shield)
    ensures
        shield_sends(s) =~= Multiset::empty(),
        shield_rate_limit(s) == 5,
{
    nexus_shield::Shield::new(nexus_shield::ShieldConfig::default())
}

/// The verdict of a default-configured shield on an email address: `None`
/// when it passes, otherwise the text of the error.
pub uninterp spec fn address_verdict(addr: Seq<char>) -> Option<Seq<char>>;

/// The verdict of a default-configured shield on a header field: `None`
/// when it passes, otherwise the text of the error.
pub uninterp spec fn header_verdict(field: Seq<char>, value: Seq<char>) -> Option<Seq<char>>;

/// The text holds a carriage return or a line feed.
pub open spec fn has_line_break(a: Seq<char>) -> bool {
    exists|i: int| 0 <= i < a.len() && (a[i] == '\r' || a[i] == '\n')
}

/// The address splits at its first `@` into a nonempty local part and a
/// nonempty rest.
pub open spec fn splits_at_at(a: Seq<char>) -> bool {
    a.len() > 0 && a[0] != '@' && exists|i: int| 0 <= i < a.len() - 1 && a[i] == '@'
}

/// The shield can check the address without failing: its error text for a
/// malformed address (one without a line break that does not split at its
/// first `@`) cuts the address at byte 50, which must then be a character
/// boundary.
pub open spec fn shield_checkable(a: Seq<char>) -> bool {
    has_line_break(a) || splits_at_at(a) || encode_utf8(a).len() <= 50 || is_char_boundary(encode_utf8(a), 50)
}

/// Whether the shield can check the address (see `shield_checkable`).
pub fn shield_can_check(addr: &str) -> (b: bool)
    ensures
        b == shield_checkable(addr@),
{
    let v = chars_of(addr);
    let mut i: usize = 0;
    while i < v.len()
        invariant
            v@ == addr@,
            i <= v@.len(),
            forall|j: int| 0 <= j < i ==> v@[j] != '\r' && v@[j] != '\n',
        decreases v@.len() - i,
    {
        if v[i] == '\r' || v[i] == '\n' {
            assert(addr@[i as int] == '\r' || addr@[i as int] == '\n');
            assert(has_line_break(addr@));
            return true;
        }
        i = i + 1;
    }
    assert(!has_line_break(addr@));
    if v.len() > 0 && v[0] != '@' {
        let mut k: usize = 0;
        while k < v.len() - 1
            invariant
                v@ == addr@,
                v@.len() > 0,
                v@[0] != '@',
                k <= v@.len() - 1,
                forall|j: int| 0 <= j < k ==> v@[j] != '@',
            decreases v@.len() - 1 - k,
        {
            if v[k] == '@' {
                assert(addr@[k as int] == '@');
                assert(splits_at_at(addr@));
                return true;
            }
            k = k + 1;
        }
        assert(!splits_at_at(addr@));
    } else {
        assert(!splits_at_at(addr@));
    }
    if addr.as_bytes().len() <= 50 {
        return true;
    }
    let cb = addr.is_char_boundary(50);
    assert(addr.spec_bytes() == encode_utf8(addr@));
    cb
}

/// Checks an email address.
///
/// Trusted: calls `Shield::validate_email_address` on a shield with the
/// default configuration; an error becomes its display text. The verdict
/// is a function of the address alone (the default configuration is
/// fixed, and the check reads no state), so it is named, not described.
/// For a malformed address the shield cuts it at byte 50 in its error
/// text, which panics off a character boundary; the `requires` leaves
/// those addresses out.
#[verifier::external_body]
fn shield_address(addr: &str) -> (r: Result<(), String>)
    requires
        shield_checkable(addr@),
    ensures
        match r {
            Ok(_) => address_verdict(addr@) is None,
            Err(e) => address_verdict(addr@) == Some(e@),
        },
{
    default_shield().validate_email_address(addr).map_err(|e| format!("{e}"))
}

/// Checks a header field for injection.
///
/// Trusted: calls `Shield::validate_email_header` on a shield with the
/// default configuration; an error becomes its display text. The verdict
/// is a function of the field name and value alone, so it is named, not
/// described.
#[verifier::external_body]
fn shield_header(name: &str, value: &str) -> (r: Result<(), String>)
    ensures
        match r {
            Ok(_) => header_verdict(name@, value@) is None,
            Err(e) => header_verdict(name@, value@) == Some(e@),
        },
{
    default_shield().validate_email_header(name, value).map_err(|e| format!("{e}"))
}

/// Checks and records one send to a recipient against the rate limit.
///
/// Trusted: calls `Shield::check_email_rate`; an error becomes its display
/// text. The limiter keys its record by the lower-cased recipient, first
/// forgets the sends older than its window, then refuses when as many
/// sends as the limit remain, and otherwise records this send. So a send
/// is accepted (and recorded) whenever fewer sends than the limit were
/// ever recorded for the recipient, and a refused send records nothing.
/// Which sends the window has forgotten depends on the clock and is not
/// stated.
#[verifier::external_body]
fn shield_rate(shield: &mut nexus_shield::Shield, recipient: &str) -> (r: Result<(), String>)
    ensures
        shield_rate_limit(*final(shield)) == shield_rate_limit(*old(shield)),
        shield_sends(*final(shield)) == (match r {
            Ok(_) => shield_sends(*old(shield)).insert(lowercase(recipient@)),
            Err(_) => shield_sends(*old(shield)),
        }),
        shield_sends(*old(shield)).count(lowercase(recipient@)) < shield_rate_limit(*old(shield)) ==> r is Ok,
{
    shield.check_email_rate(recipient).map_err(|e| format!("{e}"))
}

/// What a check examines.
#[derive(Debug, Clone, Copy, PartialEq, Eq, Structural)]
pub enum CheckKind {
    /// An email address.
    Address,
    /// A header field (`field` names it, `value` is its text).
    Header,
    /// The rate limit of a recipient.
    Rate,
}

/// One check of an outbound message, with the label of its error.
#[derive(Debug)]
pub struct ShieldCheck {
    pub kind: CheckKind,
    pub field: String,
    pub value: String,
    pub label: String,
}

/// The value of a check.
pub struct CheckView {
    pub kind: CheckKind,
    pub field: Seq<char>,
    pub value: Seq<char>,
    pub label: Seq<char>,
}

impl View for ShieldCheck {
    type V = CheckView;

    open spec fn view(&self) -> CheckView {
        CheckView { kind: self.kind, field: self.field@, value: self.value@, label: self.label@ }
    }
}

/// The check with the given parts.
pub open spec fn check(kind: CheckKind, field: Seq<char>, value: Seq<char>, label: Seq<char>) -> CheckView {
    CheckView { kind, field, value, label }
}

/// The values of a sequence of checks.
pub open spec fn checks_view(s: Seq<ShieldCheck>) -> Seq<CheckView> {
    s.map_values(|c: ShieldCheck| c@)
}

/// Address checks of some mailboxes, labelled `prefix <address> rejected: `.
pub open spec fn address_checks(prefix: Seq<char>, ms: Seq<Mailbox>) -> Seq<CheckView>
    decreases ms.len(),
{
    if ms.len() == 0 {
        seq![]
    } else {
        let e = ms.last().email@;
        address_checks(prefix, ms.drop_last()).push(
            check(CheckKind::Address, seq![], e, "Shield: "@ + prefix + " <"@ + e + "> rejected: "@),
        )
    }
}

/// Header checks of the custom headers.
pub open spec fn header_checks(hs: Seq<(String, String)>) -> Seq<CheckView>
    decreases hs.len(),
{
    if hs.len() == 0 {
        seq![]
    } else {
        let (n, v) = hs.last();
        header_checks(hs.drop_last()).push(
            check(CheckKind::Header, n@, v@, "Shield: header '"@ + n@ + "' rejected: "@),
        )
    }
}

/// Rate checks of some recipients.
pub open spec fn rate_checks(ms: Seq<Mailbox>) -> Seq<CheckView>
    decreases ms.len(),
{
    if ms.len() == 0 {
        seq![]
    } else {
        let e = ms.last().email@;
        rate_checks(ms.drop_last()).push(check(CheckKind::Rate, seq![], e, "Shield: rate limit for <"@ + e + ">: "@))
    }
}

/// The checks of an outbound message, in the order they run: the sender
/// address, every To, Cc and Bcc address, the subject, the sender name (if
/// any), the custom headers, and the rate limit of every recipient.
pub open spec fn outbound_checks(m: EmailMessage) -> Seq<CheckView> {
    let name = match m.from.name {
        Some(n) => seq![check(CheckKind::Header, "from_name"@, n@, "Shield: sender name rejected: "@)],
        None => seq![],
    };
    seq![check(CheckKind::Address, seq![], m.from.email@, "Shield: sender address rejected: "@)]
        + address_checks("recipient"@, m.to@) + address_checks("CC"@, m.cc@) + address_checks(
        "BCC"@,
        m.bcc@,
    ) + seq![check(CheckKind::Header, "subject"@, m.subject@, "Shield: subject rejected: "@)]
        + name + header_checks(m.headers@) + rate_checks(m.to@) + rate_checks(m.cc@) + rate_checks(
        m.bcc@,
    )
}

fn push_check(v: &mut Vec<ShieldCheck>, kind: CheckKind, field: &str, value: &str, label: String)
    ensures
        checks_view(final(v)@) == checks_view(old(v)@).push(check(kind, field@, value@, label@)),
{
    let ghost before = v@;
    v.push(ShieldCheck { kind, field: string_of(field), value: string_of(value), label });
    proof {
        assert(checks_view(v@) =~= checks_view(before).push(check(kind, field@, value@, label@)));
    }
}

fn push_address_checks(v: &mut Vec<ShieldCheck>, prefix: &str, ms: &Vec<Mailbox>)
    ensures
        checks_view(final(v)@) == checks_view(old(v)@) + address_checks(prefix@, ms@),
{
    let mut i: usize = 0;
    while i < ms.len()
        invariant
            i <= ms@.len(),
            checks_view(v@) == checks_view(old(v)@) + address_checks(prefix@, ms@.take(i as int)),
        decreases ms@.len() - i,
    {
        proof {
            assert(ms@.take(i + 1).drop_last() == ms@.take(i as int));
        }
        let e = ms[i].email.as_str();
        let mut label = String::from_str("Shield: ");
        label.append(prefix);
        label.append(" <");
        label.append(e);
        label.append("> rejected: ");
        push_check(v, CheckKind::Address, "", e, label);
        proof {
            reveal_strlit("");
            assert(""@ =~= Seq::<char>::empty());
        }
        i = i + 1;
    }
    proof {
        assert(ms@.take(ms@.len() as int) == ms@);
    }
}

fn push_header_checks(v: &mut Vec<ShieldCheck>, hs: &Vec<(String, String)>)
    ensures
        checks_view(final(v)@) == checks_view(old(v)@) + header_checks(hs@),
{
    let mut i: usize = 0;
    while i < hs.len()
        invariant
            i <= hs@.len(),
            checks_view(v@) == checks_view(old(v)@) + header_checks(hs@.take(i as int)),
        decreases hs@.len() - i,
    {
        proof {
            assert(hs@.take(i + 1).drop_last() == hs@.take(i as int));
        }
        let n = hs[i].0.as_str();
        let mut label = String::from_str("Shield: header '");
        label.append(n);
        label.append("' rejected: ");
        push_check(v, CheckKind::Header, n, hs[i].1.as_str(), label);
        i = i + 1;
    }
    proof {
        assert(hs@.take(hs@.len() as int) == hs@);
    }
}

fn push_rate_checks(v: &mut Vec<ShieldCheck>, ms: &Vec<Mailbox>)
    ensures
        checks_view(final(v)@) == checks_view(old(v)@) + rate_checks(ms@),
{
    let mut i: usize = 0;
    while i < ms.len()
        invariant
            i <= ms@.len(),
            checks_view(v@) == checks_view(old(v)@) + rate_checks(ms@.take(i as int)),
        decreases ms@.len() - i,
    {
        proof {
            assert(ms@.take(i + 1).drop_last() == ms@.take(i as int));
        }
        let e = ms[i].email.as_str();
        let mut label = String::from_str("Shield: rate limit for <");
        label.append(e);
        label.append(">: ");
        push_check(v, CheckKind::Rate, "", e, label);
        proof {
            reveal_strlit("");
            assert(""@ =~= Seq::<char>::empty());
        }
        i = i + 1;
    }
    proof {
        assert(ms@.take(ms@.len() as int) == ms@);
    }
}

/// The checks an outbound message goes through, in order.
pub fn checks_for(m: &EmailMessage) -> (r: Vec<ShieldCheck>)
    ensures
        checks_view(r@) =~~= outbound_checks(*m),
{
    let mut v: Vec<ShieldCheck> = Vec::new();
    proof {
        reveal_strlit("");
        assert(""@ =~= Seq::<char>::empty());
        assert(checks_view(v@) =~= Seq::<CheckView>::empty());
    }
    push_check(&mut v, CheckKind::Address, "", m.from.email.as_str(), string_of("Shield: sender address rejected: "));
    let ghost c0 = checks_view(v@);
    push_address_checks(&mut v, "recipient", &m.to);
    push_address_checks(&mut v, "CC", &m.cc);
    push_address_checks(&mut v, "BCC", &m.bcc);
    push_check(&mut v, CheckKind::Header, "subject", m.subject.as_str(), string_of("Shield: subject rejected: "));
    let ghost c1 = checks_view(v@);
    match &m.from.name {
        Some(n) => {
            push_check(&mut v, CheckKind::Header, "from_name", n.as_str(), string_of("Shield: sender name rejected: "));
        },
        None => {},
    }
    let ghost c2 = checks_view(v@);
    push_header_checks(&mut v, &m.headers);
    push_rate_checks(&mut v, &m.to);
    push_rate_checks(&mut v, &m.cc);
    push_rate_checks(&mut v, &m.bcc);
    proof {
        let name = match &m.from.name {
            Some(n) => seq![check(CheckKind::Header, "from_name"@, n@, "Shield: sender name rejected: "@)],
            None => seq![],
        };
        assert(c2 =~~= c1 + name);
        assert(checks_view(v@) =~~= outbound_checks(*m));
    }
    v
}

/// The verdict of an address or header check (rate checks have none:
/// they depend on the sends recorded before, and on the clock).
pub open spec fn static_verdict(c: CheckView) -> Option<Seq<char>> {
    match c.kind {
        CheckKind::Address => address_verdict(c.value),
        CheckKind::Header => header_verdict(c.field, c.value),
        CheckKind::Rate => None,
    }
}

/// The lower-cased recipients of the rate checks among `cs`.
pub open spec fn rate_sends(cs: Seq<CheckView>) -> Multiset<Seq<char>>
    decreases cs.len(),
{
    if cs.len() == 0 {
        Multiset::empty()
    } else if cs.last().kind == CheckKind::Rate {
        rate_sends(cs.drop_last()).insert(lowercase(cs.last().value))
    } else {
        rate_sends(cs.drop_last())
    }
}

/// How many rate checks before check `i` are for the same (lower-cased)
/// recipient as check `i`.
pub open spec fn earlier_sends(cs: Seq<CheckView>, i: int) -> nat {
    rate_sends(cs.take(i)).count(lowercase(cs[i].value))
}

/// No recipient comes up in more than 5 rate checks of `m` (the default
/// limit), counted by the lower-cased address.
pub open spec fn within_rate_limit(m: EmailMessage) -> bool {
    let cs = outbound_checks(m);
    forall|i: int| 0 <= i < cs.len() && (#[trigger] cs[i]).kind == CheckKind::Rate ==> earlier_sends(cs, i) < 5
}

/// What validating `m` may give: success only when every address and
/// header check passed; otherwise the provider error of the first check
/// that failed, its label followed by the reason (the verdict for an
/// address or header check). A rate check fails only when its recipient
/// already came up in 5 earlier rate checks of the message, all of which
/// passed.
pub open spec fn validation_outcome(m: EmailMessage, r: Result<(), EmailError>) -> bool {
    let cs = outbound_checks(m);
    match r {
        Ok(_) => forall|i: int| 0 <= i < cs.len() ==> #[trigger] static_verdict(cs[i]) is None,
        Err(e) => e matches EmailError::Provider(msg) && exists|i: int| {
            &&& 0 <= i < cs.len()
            &&& forall|j: int| 0 <= j < i ==> #[trigger] static_verdict(cs[j]) is None
            &&& if cs[i].kind == CheckKind::Rate {
                &&& cs[i].label.is_prefix_of(msg@)
                &&& earlier_sends(cs, i) >= 5
            } else {
                static_verdict(#[trigger] cs[i]) matches Some(reason) && msg@ == cs[i].label + reason
            }
        },
    }
}

/// The address checks of some mailboxes, one per mailbox, in order.
proof fn lemma_address_checks_at(prefix: Seq<char>, ms: Seq<Mailbox>)
    ensures
        address_checks(prefix, ms).len() == ms.len(),
        forall|k: int| 0 <= k < ms.len() ==> #[trigger] address_checks(prefix, ms)[k] == check(
            CheckKind::Address,
            seq![],
            ms[k].email@,
            "Shield: "@ + prefix + " <"@ + ms[k].email@ + "> rejected: "@,
        ),
    decreases ms.len(),
{
    if ms.len() > 0 {
        lemma_address_checks_at(prefix, ms.drop_last());
        assert forall|k: int| 0 <= k < ms.len() implies #[trigger] address_checks(prefix, ms)[k] == check(
            CheckKind::Address,
            seq![],
            ms[k].email@,
            "Shield: "@ + prefix + " <"@ + ms[k].email@ + "> rejected: "@,
        ) by {
            if k < ms.len() - 1 {
                assert(ms.drop_last()[k] == ms[k]);
            }
        }
    }
}

/// The shield examines every address of a message: the sender first, then
/// each To, Cc and Bcc address, in order, each with a label that names its
/// list and the address.
pub proof fn lemma_every_address_checked(m: EmailMessage)
    ensures
        ({
            let cs = outbound_checks(m);
            let t = m.to@.len() as int;
            let c = m.cc@.len() as int;
            &&& cs[0] == check(CheckKind::Address, seq![], m.from.email@, "Shield: sender address rejected: "@)
            &&& forall|k: int| 0 <= k < t ==> #[trigger] cs[1 + k] == check(
                CheckKind::Address, seq![], m.to@[k].email@,
                "Shield: "@ + "recipient"@ + " <"@ + m.to@[k].email@ + "> rejected: "@)
            &&& forall|k: int| 0 <= k < c ==> #[trigger] cs[1 + t + k] == check(
                CheckKind::Address, seq![], m.cc@[k].email@,
                "Shield: "@ + "CC"@ + " <"@ + m.cc@[k].email@ + "> rejected: "@)
            &&& forall|k: int| 0 <= k < m.bcc@.len() ==> #[trigger] cs[1 + t + c + k] == check(
                CheckKind::Address, seq![], m.bcc@[k].email@,
                "Shield: "@ + "BCC"@ + " <"@ + m.bcc@[k].email@ + "> rejected: "@)
            &&& 1 + t + c + m.bcc@.len() <= cs.len()
        }),
{
    let cs = outbound_checks(m);
    let first = seq![check(CheckKind::Address, seq![], m.from.email@, "Shield: sender address rejected: "@)];
    let at = address_checks("recipient"@, m.to@);
    let ac = address_checks("CC"@, m.cc@);
    let ab = address_checks("BCC"@, m.bcc@);
    lemma_address_checks_at("recipient"@, m.to@);
    lemma_address_checks_at("CC"@, m.cc@);
    lemma_address_checks_at("BCC"@, m.bcc@);
    let name = match m.from.name {
        Some(n) => seq![check(CheckKind::Header, "from_name"@, n@, "Shield: sender name rejected: "@)],
        None => seq![],
    };
    let rest = seq![check(CheckKind::Header, "subject"@, m.subject@, "Shield: subject rejected: "@)]
        + name + header_checks(m.headers@) + rate_checks(m.to@) + rate_checks(m.cc@) + rate_checks(m.bcc@);
    assert(cs =~= first + at + ac + ab + rest);
    let t = m.to@.len() as int;
    let c = m.cc@.len() as int;
    assert forall|k: int| 0 <= k < t implies #[trigger] cs[1 + k] == at[k] by {}
    assert forall|k: int| 0 <= k < c implies #[trigger] cs[1 + t + k] == ac[k] by {}
    assert forall|k: int| 0 <= k < m.bcc@.len() implies #[trigger] cs[1 + t + c + k] == ab[k] by {}
}

/// A message that passes validation passed the shield's address check for
/// its sender and for every To, Cc and Bcc address.
pub proof fn lemma_validated_addresses_pass(m: EmailMessage)
    requires
        validation_outcome(m, Ok(())),
    ensures
        address_verdict(m.from.email@) is None,
        forall|k: int| 0 <= k < m.to@.len() ==> address_verdict(#[trigger] m.to@[k].email@) is None,
        forall|k: int| 0 <= k < m.cc@.len() ==> address_verdict(#[trigger] m.cc@[k].email@) is None,
        forall|k: int| 0 <= k < m.bcc@.len() ==> address_verdict(#[trigger] m.bcc@[k].email@) is None,
{
    lemma_every_address_checked(m);
    let cs = outbound_checks(m);
    let t = m.to@.len() as int;
    let c = m.cc@.len() as int;
    assert(static_verdict(cs[0]) is None);
    assert forall|k: int| 0 <= k < t implies address_verdict(#[trigger] m.to@[k].email@) is None by {
        assert(static_verdict(cs[1 + k]) is None);
    }
    assert forall|k: int| 0 <= k < c implies address_verdict(#[trigger] m.cc@[k].email@) is None by {
        assert(static_verdict(cs[1 + t + k]) is None);
    }
    assert forall|k: int| 0 <= k < m.bcc@.len() implies address_verdict(#[trigger] m.bcc@[k].email@) is None by {
        assert(static_verdict(cs[1 + t + c + k]) is None);
    }
}

/// The header checks of the custom headers, one per header, in order.
proof fn lemma_header_checks_at(hs: Seq<(String, String)>)
    ensures
        header_checks(hs).len() == hs.len(),
        forall|k: int| 0 <= k < hs.len() ==> #[trigger] header_checks(hs)[k] == check(
            CheckKind::Header,
            hs[k].0@,
            hs[k].1@,
            "Shield: header '"@ + hs[k].0@ + "' rejected: "@,
        ),
    decreases hs.len(),
{
    if hs.len() > 0 {
        lemma_header_checks_at(hs.drop_last());
        assert forall|k: int| 0 <= k < hs.len() implies #[trigger] header_checks(hs)[k] == check(
            CheckKind::Header,
            hs[k].0@,
            hs[k].1@,
            "Shield: header '"@ + hs[k].0@ + "' rejected: "@,
        ) by {
            if k < hs.len() - 1 {
                assert(hs.drop_last()[k] == hs[k]);
            }
        }
    }
}

/// A message that passes validation passed the shield's header-injection
/// check for its subject, its sender name (if any) and every custom
/// header.
pub proof fn lemma_validated_headers_pass(m: EmailMessage)
    requires
        validation_outcome(m, Ok(())),
    ensures
        header_verdict("subject"@, m.subject@) is None,
        m.from.name matches Some(n) ==> header_verdict("from_name"@, n@) is None,
        forall|k: int| 0 <= k < m.headers@.len() ==> header_verdict(
            (#[trigger] m.headers@[k]).0@,
            m.headers@[k].1@,
        ) is None,
{
    let cs = outbound_checks(m);
    let first = seq![check(CheckKind::Address, seq![], m.from.email@, "Shield: sender address rejected: "@)];
    let addrs = first + address_checks("recipient"@, m.to@) + address_checks("CC"@, m.cc@) + address_checks(
        "BCC"@,
        m.bcc@,
    );
    let subj = seq![check(CheckKind::Header, "subject"@, m.subject@, "Shield: subject rejected: "@)];
    let name = match m.from.name {
        Some(n) => seq![check(CheckKind::Header, "from_name"@, n@, "Shield: sender name rejected: "@)],
        None => seq![],
    };
    let hc = header_checks(m.headers@);
    let rates = rate_checks(m.to@) + rate_checks(m.cc@) + rate_checks(m.bcc@);
    assert(cs =~= addrs + subj + name + hc + rates);
    lemma_header_checks_at(m.headers@);
    let a = addrs.len() as int;
    assert(cs[a] == subj[0]);
    assert(static_verdict(cs[a]) is None);
    if m.from.name is Some {
        assert(cs[a + 1] == name[0]);
        assert(static_verdict(cs[a + 1]) is None);
    }
    assert forall|k: int| 0 <= k < m.headers@.len() implies header_verdict(
        (#[trigger] m.headers@[k]).0@,
        m.headers@[k].1@,
    ) is None by {
        let i = a + 1 + name.len() + k;
        assert(cs[i] == hc[k]);
        assert(static_verdict(cs[i]) is None);
    }
}

/// Every address that the checks of `m` examine can be checked.
pub open spec fn checkable_message(m: EmailMessage) -> bool {
    forall|i: int|
        0 <= i < outbound_checks(m).len() && (#[trigger] outbound_checks(m)[i]).kind == CheckKind::Address
            ==> shield_checkable(outbound_checks(m)[i].value)
}

/// Whether every address of the message can be checked by the shield.
pub fn message_checkable(m: &EmailMessage) -> (b: bool)
    ensures
        b == checkable_message(*m),
{
    let checks = checks_for(m);
    let ghost cs = outbound_checks(*m);
    let mut i: usize = 0;
    while i < checks.len()
        invariant
            i <= checks@.len(),
            checks_view(checks@) =~~= cs,
            cs == outbound_checks(*m),
            forall|j: int| 0 <= j < i && (#[trigger] cs[j]).kind == CheckKind::Address ==> shield_checkable(cs[j].value),
        decreases checks@.len() - i,
    {
        proof {
            assert(checks_view(checks@)[i as int] == checks@[i as int]@);
        }
        if checks[i].kind == CheckKind::Address && !shield_can_check(checks[i].value.as_str()) {
            return false;
        }
        i = i + 1;
    }
    true
}

fn run_check(shield: &mut nexus_shield::Shield, c: &ShieldCheck) -> (r: Result<(), String>)
    requires
        c.kind == CheckKind::Address ==> shield_checkable(c.value@),
    ensures
        c.kind != CheckKind::Rate ==> match r {
            Ok(_) => static_verdict(c@) is None,
            Err(e) => static_verdict(c@) == Some(e@),
        },
        c.kind != CheckKind::Rate ==> *final(shield) == *old(shield),
        c.kind == CheckKind::Rate ==> {
            &&& shield_rate_limit(*final(shield)) == shield_rate_limit(*old(shield))
            &&& shield_sends(*final(shield)) == (match r {
                Ok(_) => shield_sends(*old(shield)).insert(lowercase(c.value@)),
                Err(_) => shield_sends(*old(shield)),
            })
            &&& shield_sends(*old(shield)).count(lowercase(c.value@)) < shield_rate_limit(*old(shield)) ==> r is Ok
        },
{
    match c.kind {
        CheckKind::Address => shield_address(c.value.as_str()),
        CheckKind::Header => shield_header(c.field.as_str(), c.value.as_str()),
        CheckKind::Rate => shield_rate(shield, c.value.as_str()),
    }
}

/// Validate an outbound email message through NexusShield.
///
/// The checks of `outbound_checks` run in order and the first that fails
/// ends the validation with a provider error: the check's label followed
/// by the shield's reason. Address and header checks are decided by their
/// verdicts; the rate checks share one new shield with the default
/// configuration, which accepts at least 5 sends to each (lower-cased)
/// recipient and refuses one only after 5 accepted sends to it; whether
/// it refuses then depends on the clock.
pub fn validate_outbound(message: &EmailMessage) -> (r: Result<(), EmailError>)
    requires
        checkable_message(*message),
    ensures
        validation_outcome(*message, r),
        (forall|i: int| 0 <= i < outbound_checks(*message).len()
            ==> #[trigger] static_verdict(outbound_checks(*message)[i]) is None) && within_rate_limit(*message)
            ==> r is Ok,
{
    let mut shield = default_shield();
    let checks = checks_for(message);
    let ghost cs = outbound_checks(*message);
    let mut i: usize = 0;
    while i < checks.len()
        invariant
            i <= checks@.len(),
            checks_view(checks@) =~~= cs,
            cs == outbound_checks(*message),
            checkable_message(*message),
            forall|j: int| 0 <= j < i ==> #[trigger] static_verdict(cs[j]) is None,
            shield_sends(shield) =~= rate_sends(cs.take(i as int)),
            shield_rate_limit(shield) == 5,
        decreases checks@.len() - i,
    {
        proof {
            assert(checks_view(checks@)[i as int] == checks@[i as int]@);
            assert(cs.take(i + 1).drop_last() =~= cs.take(i as int));
            assert(cs.take(i + 1).last() == cs[i as int]);
        }
        match run_check(&mut shield, &checks[i]) {
            Ok(()) => {},
            Err(reason) => {
                let mut msg = checks[i].label.clone();
                msg.append(reason.as_str());
                proof {
                    assert(msg@ == cs[i as int].label + reason@);
                    assert(cs[i as int].label.is_prefix_of(msg@));
                    if cs[i as int].kind == CheckKind::Rate {
                        assert(earlier_sends(cs, i as int) >= 5);
                    }
                }
                return Err(EmailError::Provider(msg));
            },
        }
        i = i + 1;
    }
    proof {
        assert(cs.take(i as int) =~= cs);
    }
    Ok(())
}

} // verus!
