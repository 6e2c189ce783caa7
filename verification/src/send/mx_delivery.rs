//! The plan of a direct MX delivery: for each recipient in turn, look up
//! the mail servers of its domain and try them in order until one accepts
//! the message.
//!
//! The caller runs the lookups and the dialogues (see `mx_session`) and
//! reports each outcome back to `MxDelivery`.

use vstd::prelude::*;
use crate::text::{string_of, nat_text, u64_text};
use crate::send::error::{EmailError, EmailErrorView};
use crate::send::message::{EmailMessage, Mailbox, SendResult};
use crate::send::direct::{
    DirectMxProvider, domain_of, recipient_domain, valid_mx_domain, is_valid_mx_domain, mx_hosts,
    parse_mx_hosts,
};
use crate::send::mx_session::{MxSession, MxAction, MxActionView, MxFlavor, MxPhase, texts_of};
use crate::send::smtp::{emails, recipient_emails, rand_u64};

verus! {

broadcast use {vstd::string::group_string_axioms, vstd::std_specs::vec::group_vec_axioms};

/// What the plan waits for.
#[derive(Debug, Clone, Copy, PartialEq, Eq, Structural)]
pub enum DeliveryStage {
    /// The outcome of an MX lookup.
    Resolving,
    /// The outcome of a delivery attempt.
    Delivering,
    /// Nothing: the delivery is over.
    Over,
}

/// What the caller does next.
#[derive(Debug)]
pub enum DeliveryAction {
    /// Run `dig +short MX` for this domain and report the outcome.
    Resolve(String),
    /// Deliver the message to `recipient` through the mail server `host`
    /// and report the outcome.
    Deliver { host: String, recipient: String },
    /// The delivery is over with this outcome.
    Finish(Result<SendResult, EmailError>),
}

/// The value of an action.
pub enum DeliveryView {
    Resolve(Seq<char>),
    Deliver(Seq<char>, Seq<char>),
    Succeed(Seq<char>, Seq<char>),
    Fail(EmailErrorView),
}

impl View for DeliveryAction {
    type V = DeliveryView;

    open spec fn view(&self) -> DeliveryView {
        match self {
            DeliveryAction::Resolve(d) => DeliveryView::Resolve(d@),
            DeliveryAction::Deliver { host, recipient } => DeliveryView::Deliver(host@, recipient@),
            DeliveryAction::Finish(Ok(r)) => DeliveryView::Succeed(r.message_id@, r.provider@),
            DeliveryAction::Finish(Err(e)) => DeliveryView::Fail(e@),
        }
    }
}

/// The outcome of an MX lookup: the program could not be run (with the
/// error's text), or it ran, succeeded or not, and printed `output`.
#[derive(Debug)]
pub enum Lookup {
    NotRun(String),
    Ran { success: bool, output: String },
}

/// The step that starts on recipient `i` (or ends the delivery after the
/// last one, with the message ID of the last delivery): its domain is
/// looked up when it may be.
pub open spec fn begin_at(rcpts: Seq<Seq<char>>, i: int, last_id: Seq<char>) -> (DeliveryStage, DeliveryView) {
    if i >= rcpts.len() {
        (DeliveryStage::Over, DeliveryView::Succeed(last_id, "nexus-relay"@))
    } else {
        let d = domain_of(rcpts[i]);
        if valid_mx_domain(d) {
            (DeliveryStage::Resolving, DeliveryView::Resolve(d))
        } else {
            (DeliveryStage::Over, DeliveryView::Fail(EmailErrorView::Provider("Invalid domain for MX lookup: "@ + d)))
        }
    }
}

/// The step that tries mail server `k` for `rcpt`, or gives up on the
/// recipient (with the text of the last error) when none is left.
pub open spec fn try_host(rcpt: Seq<char>, hosts: Seq<Seq<char>>, k: int, last_err: Seq<char>) -> (DeliveryStage, DeliveryView) {
    if k < hosts.len() {
        (DeliveryStage::Delivering, DeliveryView::Deliver(hosts[k], rcpt))
    } else {
        (
            DeliveryStage::Over,
            DeliveryView::Fail(
                EmailErrorView::Provider(
                    "delivery to <"@ + rcpt + "> failed (tried "@ + nat_text(hosts.len()) + " MX hosts): "@ + last_err,
                ),
            ),
        )
    }
}

/// The step after the MX lookup for the domain `d` of `rcpt`.
pub open spec fn after_lookup(rcpt: Seq<char>, d: Seq<char>, lookup: Lookup) -> (DeliveryStage, DeliveryView) {
    match lookup {
        Lookup::NotRun(e) => (DeliveryStage::Over, DeliveryView::Fail(EmailErrorView::Provider("DNS MX lookup failed for "@ + d + ": "@ + e@))),
        Lookup::Ran { success, output } => if !success {
            (DeliveryStage::Over, DeliveryView::Fail(EmailErrorView::Provider("DNS MX lookup failed for "@ + d)))
        } else {
            try_host(rcpt, mx_hosts(d, output@), 0, seq![])
        },
    }
}

/// A delivery in progress.
pub struct MxDelivery {
    recipients: Vec<String>,
    current: usize,
    hosts: Vec<String>,
    tried: usize,
    last_id: String,
    stage: DeliveryStage,
}

impl MxDelivery {
    /// The recipients, in order.
    pub closed spec fn recipients(&self) -> Seq<Seq<char>> {
        texts_of(self.recipients@)
    }

    /// The position of the recipient being delivered to.
    pub closed spec fn current(&self) -> nat {
        self.current as nat
    }

    /// The mail servers of the current recipient, in the order tried.
    pub closed spec fn hosts(&self) -> Seq<Seq<char>> {
        texts_of(self.hosts@)
    }

    /// The position of the mail server being tried.
    pub closed spec fn tried(&self) -> nat {
        self.tried as nat
    }

    /// The message ID of the last delivery so far.
    pub closed spec fn last_id(&self) -> Seq<char> {
        self.last_id@
    }

    /// What the plan waits for.
    pub closed spec fn stage(&self) -> DeliveryStage {
        self.stage
    }

    /// The plan's positions are within its lists.
    pub closed spec fn wf(&self) -> bool {
        &&& self.current <= self.recipients.len()
        &&& self.stage != DeliveryStage::Over ==> self.current < self.recipients.len()
        &&& self.stage == DeliveryStage::Delivering ==> self.tried < self.hosts.len()
    }

    /// What the plan waits for.
    pub fn waiting_for(&self) -> (s: DeliveryStage)
        ensures
            s == self.stage(),
    {
        self.stage
    }

    fn begin(&mut self) -> (a: DeliveryAction)
        requires
            old(self).current <= old(self).recipients@.len(),
        ensures
            final(self).recipients == old(self).recipients,
            final(self).current == old(self).current,
            final(self).last_id == old(self).last_id,
            final(self).wf(),
            (final(self).stage(), a@) == begin_at(old(self).recipients(), old(self).current as int, old(self).last_id@),
    {
        if self.current >= self.recipients.len() {
            self.stage = DeliveryStage::Over;
            return DeliveryAction::Finish(Ok(SendResult { message_id: self.last_id.clone(), provider: string_of("nexus-relay") }));
        }
        let d = recipient_domain(self.recipients[self.current].as_str());
        proof {
            assert(self.recipients()[self.current as int] == self.recipients@[self.current as int]@);
        }
        if is_valid_mx_domain(d.as_str()) {
            self.stage = DeliveryStage::Resolving;
            DeliveryAction::Resolve(d)
        } else {
            self.stage = DeliveryStage::Over;
            let mut m = string_of("Invalid domain for MX lookup: ");
            m.append(d.as_str());
            DeliveryAction::Finish(Err(EmailError::Provider(m)))
        }
    }

    fn try_next(&mut self, last_err: &str) -> (a: DeliveryAction)
        requires
            old(self).current < old(self).recipients@.len(),
        ensures
            final(self).recipients == old(self).recipients,
            final(self).current == old(self).current,
            final(self).hosts == old(self).hosts,
            final(self).tried == old(self).tried,
            final(self).last_id == old(self).last_id,
            final(self).wf(),
            (final(self).stage(), a@) == try_host(
                old(self).recipients()[old(self).current as int],
                old(self).hosts(),
                old(self).tried as int,
                last_err@,
            ),
    {
        let rcpt = self.recipients[self.current].clone();
        proof {
            assert(self.recipients()[self.current as int] == rcpt@);
        }
        if self.tried < self.hosts.len() {
            self.stage = DeliveryStage::Delivering;
            let host = self.hosts[self.tried].clone();
            proof {
                assert(self.hosts()[self.tried as int] == host@);
            }
            DeliveryAction::Deliver { host, recipient: rcpt }
        } else {
            self.stage = DeliveryStage::Over;
            let mut m = string_of("delivery to <");
            m.append(rcpt.as_str());
            m.append("> failed (tried ");
            m.append(u64_text(self.hosts.len() as u64).as_str());
            m.append(" MX hosts): ");
            m.append(last_err);
            DeliveryAction::Finish(Err(EmailError::Provider(m)))
        }
    }

    /// Start delivering to `recipients`, in order.
    pub fn start(recipients: Vec<String>) -> (r: (MxDelivery, DeliveryAction))
        ensures
            r.0.wf(),
            r.0.recipients() == texts_of(recipients@),
            r.0.current() == 0,
            r.0.last_id() == Seq::<char>::empty(),
            (r.0.stage(), r.1@) == begin_at(texts_of(recipients@), 0, seq![]),
    {
        let mut p = MxDelivery {
            recipients,
            current: 0,
            hosts: Vec::new(),
            tried: 0,
            last_id: String::new(),
            stage: DeliveryStage::Over,
        };
        let a = p.begin();
        (p, a)
    }

    /// Take the outcome of the MX lookup for the current recipient's domain.
    pub fn on_lookup(&mut self, lookup: Lookup) -> (a: DeliveryAction)
        requires
            old(self).wf(),
            old(self).stage() == DeliveryStage::Resolving,
        ensures
            final(self).wf(),
            final(self).recipients() == old(self).recipients(),
            final(self).current() == old(self).current(),
            final(self).last_id() == old(self).last_id(),
            ({
                let rcpt = old(self).recipients()[old(self).current() as int];
                (final(self).stage(), a@) == after_lookup(rcpt, domain_of(rcpt), lookup)
            }),
            final(self).stage() == DeliveryStage::Delivering ==> (final(self).tried() == 0 && (
                lookup matches Lookup::Ran { output, .. } && final(self).hosts() == mx_hosts(
                    domain_of(old(self).recipients()[old(self).current() as int]),
                    output@,
                ))),
    {
        let d = recipient_domain(self.recipients[self.current].as_str());
        proof {
            assert(self.recipients()[self.current as int] == self.recipients@[self.current as int]@);
        }
        match lookup {
            Lookup::NotRun(e) => {
                self.stage = DeliveryStage::Over;
                let mut m = string_of("DNS MX lookup failed for ");
                m.append(d.as_str());
                m.append(": ");
                m.append(e.as_str());
                DeliveryAction::Finish(Err(EmailError::Provider(m)))
            },
            Lookup::Ran { success, output } => {
                if !success {
                    self.stage = DeliveryStage::Over;
                    let mut m = string_of("DNS MX lookup failed for ");
                    m.append(d.as_str());
                    DeliveryAction::Finish(Err(EmailError::Provider(m)))
                } else {
                    let hosts = parse_mx_hosts(d.as_str(), output.as_str());
                    proof {
                        assert(texts_of(hosts@) =~= mx_hosts(d@, output@));
                    }
                    self.hosts = hosts;
                    self.tried = 0;
                    proof {
                        reveal_strlit("");
                        assert(""@ =~= Seq::<char>::empty());
                    }
                    self.try_next("")
                }
            },
        }
    }

    /// Take the outcome of the delivery attempt: a message ID, or the error
    /// that ended it.
    ///
    /// A delivery moves on to the next recipient; a failure moves on to the
    /// recipient's next mail server, remembering the error's text.
    pub fn on_delivery(&mut self, outcome: Result<String, EmailError>) -> (a: DeliveryAction)
        requires
            old(self).wf(),
            old(self).stage() == DeliveryStage::Delivering,
        ensures
            final(self).wf(),
            final(self).recipients() == old(self).recipients(),
            match outcome {
                Ok(id) => {
                    &&& final(self).current() == old(self).current() + 1
                    &&& final(self).last_id() == id@
                    &&& (final(self).stage(), a@) == begin_at(old(self).recipients(), old(self).current() + 1 as int, id@)
                },
                Err(e) => {
                    &&& final(self).current() == old(self).current()
                    &&& final(self).hosts() == old(self).hosts()
                    &&& final(self).tried() == old(self).tried() + 1
                    &&& final(self).last_id() == old(self).last_id()
                    &&& (final(self).stage(), a@) == try_host(
                        old(self).recipients()[old(self).current() as int],
                        old(self).hosts(),
                        old(self).tried() + 1 as int,
                        e.message(),
                    )
                },
            },
    {
        match outcome {
            Ok(id) => {
                self.last_id = id;
                self.current = self.current + 1;
                self.begin()
            },
            Err(e) => {
                let text = e.to_string();
                self.tried = self.tried + 1;
                self.try_next(text.as_str())
            },
        }
    }
}

/// The addresses of every recipient of a message: To, then Cc, then Bcc.
pub fn recipient_list(message: &EmailMessage) -> (r: Vec<String>)
    ensures
        texts_of(r@) == recipient_emails(*message),
{
    let mut r: Vec<String> = Vec::new();
    push_emails(&mut r, &message.to);
    push_emails(&mut r, &message.cc);
    push_emails(&mut r, &message.bcc);
    proof {
        assert(texts_of(r@) =~= recipient_emails(*message));
    }
    r
}

fn push_emails(out: &mut Vec<String>, ms: &Vec<Mailbox>)
    ensures
        texts_of(final(out)@) == texts_of(old(out)@) + emails(ms@),
{
    let ghost start = texts_of(out@);
    let mut i: usize = 0;
    while i < ms.len()
        invariant
            i <= ms@.len(),
            texts_of(out@) == start + emails(ms@).take(i as int),
        decreases ms@.len() - i,
    {
        let ghost prev = out@;
        out.push(ms[i].email.clone());
        proof {
            assert(texts_of(out@) =~= texts_of(prev).push(ms@[i as int].email@));
            assert(emails(ms@).take(i + 1) =~= emails(ms@).take(i as int).push(ms@[i as int].email@));
            assert(texts_of(out@) =~= start + emails(ms@).take(i + 1));
        }
        i = i + 1;
    }
    proof {
        assert(emails(ms@).take(ms@.len() as int) =~= emails(ms@));
    }
}

impl DirectMxProvider {
    /// Plan the delivery of `message`: one recipient after another, To,
    /// Cc, then Bcc.
    pub fn plan(&self, message: &EmailMessage) -> (r: (MxDelivery, DeliveryAction))
        ensures
            r.0.wf(),
            r.0.recipients() == recipient_emails(*message),
            r.0.current() == 0,
            r.0.last_id() == Seq::<char>::empty(),
            (r.0.stage(), r.1@) == begin_at(recipient_emails(*message), 0, seq![]),
    {
        MxDelivery::start(recipient_list(message))
    }

    /// Start the dialogue that delivers `mime` from `from` to `to` through
    /// the mail server `host`, introducing ourselves by this provider's
    /// EHLO name. The fallback message ID is made from a pseudo-random
    /// number.
    pub fn dialogue(&self, host: &str, from: &str, to: &str, mime: &str) -> (r: (MxSession, MxAction))
        ensures
            r.0.wf(),
            r.0.params().flavor == MxFlavor::Direct,
            r.0.params().ehlo == self.spec_ehlo_domain(),
            r.0.params().host == host@,
            r.0.params().from == from@,
            r.0.params().rcpts == seq![to@],
            r.0.params().mime == mime@,
            r.0.phase() == MxPhase::Greeting,
            r.1@ == MxActionView::Read,
    {
        let mut rcpts: Vec<String> = Vec::new();
        rcpts.push(string_of(to));
        proof {
            assert(texts_of(rcpts@) =~= seq![to@]);
        }
        MxSession::start(MxFlavor::Direct, self.ehlo_domain(), host, from, rcpts, mime, rand_u64())
    }
}

} // verus!
