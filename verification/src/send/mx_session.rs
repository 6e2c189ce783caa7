//! The dialogue with a recipient's mail server during direct MX delivery,
//! as the send library's provider and the relay service speak it.
//!
//! The caller owns the connection: it performs each `MxAction` and hands
//! the server's reply back to `MxSession::on_reply` (an empty reply after
//! writing the body or upgrading to TLS).

use vstd::prelude::*;
use crate::text::{string_of, fixed_hex, push_fixed_hex};
use crate::send::error::{EmailError, EmailErrorView};
use crate::send::smtp::{reply_starts_with, extract_message_id, last_word};
use crate::send::direct::{offers_starttls, supports_starttls};

verus! {

broadcast use vstd::string::group_string_axioms;

/// Who speaks: the send library's direct provider (one recipient, errors
/// naming the server, fallback IDs `nexus-` and hex digits) or the relay
/// service (several recipients of one domain, short errors, fallback ID
/// `unknown`).
#[derive(Debug, Clone, Copy, PartialEq, Eq, Structural)]
pub enum MxFlavor {
    Direct,
    Relay,
}

/// The reply the dialogue waits for.
#[derive(Debug, Clone, Copy, PartialEq, Eq, Structural)]
pub enum MxPhase {
    /// The server's greeting.
    Greeting,
    /// The reply to EHLO.
    Ehlo,
    /// The reply to STARTTLS.
    StartTls,
    /// The (empty) report that the connection was upgraded to TLS.
    Upgraded,
    /// The reply to EHLO sent again over TLS.
    EhloAgain,
    /// The reply to MAIL FROM.
    MailFrom,
    /// The reply to RCPT TO for the recipient at this position.
    RcptTo(usize),
    /// The reply to DATA.
    Data,
    /// The (empty) report that the body was written.
    Body,
    /// The reply to the final dot.
    End,
    /// Nothing: the dialogue is over.
    Over,
}

/// What the caller does next on the connection to a mail server.
#[derive(Debug)]
pub enum MxAction {
    /// Read a reply.
    Read,
    /// Write and flush this command, then read a reply.
    Send(String),
    /// Write this message body; then report an empty reply.
    WriteBody(String),
    /// Upgrade the connection to TLS, send nothing; then report an empty
    /// reply.
    StartTls,
    /// The message was accepted under this message ID. The caller sends
    /// `QUIT` and ignores what follows.
    Delivered(String),
    /// The server refused; the dialogue is over.
    Failed(EmailError),
}

/// The value of an action.
pub enum MxActionView {
    Read,
    Send(Seq<char>),
    WriteBody(Seq<char>),
    StartTls,
    Delivered(Seq<char>),
    Failed(EmailErrorView),
}

impl View for MxAction {
    type V = MxActionView;

    open spec fn view(&self) -> MxActionView {
        match self {
            MxAction::Read => MxActionView::Read,
            MxAction::Send(t) => MxActionView::Send(t@),
            MxAction::WriteBody(t) => MxActionView::WriteBody(t@),
            MxAction::StartTls => MxActionView::StartTls,
            MxAction::Delivered(id) => MxActionView::Delivered(id@),
            MxAction::Failed(e) => MxActionView::Failed(e@),
        }
    }
}

/// What a dialogue is about: who speaks, the EHLO name, the server, the
/// envelope, the MIME text, and the number a fallback message ID is made
/// from.
pub struct MxParams {
    pub flavor: MxFlavor,
    pub ehlo: Seq<char>,
    pub host: Seq<char>,
    pub from: Seq<char>,
    pub rcpts: Seq<Seq<char>>,
    pub mime: Seq<char>,
    pub fallback: u64,
}

/// The reply begins with the status digit `c`.
pub open spec fn starts(reply: Seq<char>, c: char) -> bool {
    reply.len() > 0 && reply[0] == c
}

pub open spec fn ehlo_command(name: Seq<char>) -> Seq<char> {
    "EHLO "@ + name + "\r\n"@
}

pub open spec fn mail_from_command(from: Seq<char>) -> Seq<char> {
    "MAIL FROM:<"@ + from + ">\r\n"@
}

pub open spec fn rcpt_to_command(to: Seq<char>) -> Seq<char> {
    "RCPT TO:<"@ + to + ">\r\n"@
}

/// The end of a dialogue where the server refused `what`: the provider
/// names the server, the relay does not.
pub open spec fn refused(p: MxParams, what: Seq<char>, reply: Seq<char>) -> MxActionView {
    match p.flavor {
        MxFlavor::Direct => MxActionView::Failed(EmailErrorView::Provider("MX "@ + p.host + " "@ + what + " rejected: "@ + reply)),
        MxFlavor::Relay => MxActionView::Failed(EmailErrorView::Provider(what + ": "@ + reply)),
    }
}

/// The message ID of a delivery: the last word of the final reply, or else
/// `nexus-` and sixteen hex digits of the fallback number (provider) or
/// `unknown` (relay).
pub open spec fn delivered_id(p: MxParams, reply: Seq<char>) -> Seq<char> {
    match last_word(reply) {
        Some(id) => id,
        None => match p.flavor {
            MxFlavor::Direct => "nexus-"@ + fixed_hex(p.fallback as nat, 16),
            MxFlavor::Relay => "unknown"@,
        },
    }
}

/// The step that sends RCPT TO for recipient `i`, or DATA after the last.
pub open spec fn rcpt_or_data(p: MxParams, i: int) -> (MxPhase, MxActionView) {
    if i < p.rcpts.len() {
        (MxPhase::RcptTo(i as usize), MxActionView::Send(rcpt_to_command(p.rcpts[i])))
    } else {
        (MxPhase::Data, MxActionView::Send("DATA\r\n"@))
    }
}

/// The next phase and action after `reply` arrives in `phase`.
///
/// Greeting, EHLO, MAIL FROM and each RCPT TO must be answered with a `2`,
/// DATA with a `3`, the final dot with a `2`; any other answer ends the
/// dialogue. STARTTLS is tried when the EHLO reply offers it; if the server
/// refuses it the dialogue goes on in plain text, and after the upgrade
/// EHLO is sent again and its reply is not checked.
pub open spec fn mx_next(p: MxParams, phase: MxPhase, reply: Seq<char>) -> (MxPhase, MxActionView) {
    match phase {
        MxPhase::Greeting => if starts(reply, '2') {
            (MxPhase::Ehlo, MxActionView::Send(ehlo_command(p.ehlo)))
        } else {
            (MxPhase::Over, refused(p, "greeting"@, reply))
        },
        MxPhase::Ehlo => if !starts(reply, '2') {
            (MxPhase::Over, refused(p, "EHLO"@, reply))
        } else if offers_starttls(reply) {
            (MxPhase::StartTls, MxActionView::Send("STARTTLS\r\n"@))
        } else {
            (MxPhase::MailFrom, MxActionView::Send(mail_from_command(p.from)))
        },
        MxPhase::StartTls => if starts(reply, '2') {
            (MxPhase::Upgraded, MxActionView::StartTls)
        } else {
            (MxPhase::MailFrom, MxActionView::Send(mail_from_command(p.from)))
        },
        MxPhase::Upgraded => (MxPhase::EhloAgain, MxActionView::Send(ehlo_command(p.ehlo))),
        MxPhase::EhloAgain => (MxPhase::MailFrom, MxActionView::Send(mail_from_command(p.from))),
        MxPhase::MailFrom => if starts(reply, '2') {
            rcpt_or_data(p, 0)
        } else {
            (MxPhase::Over, refused(p, "MAIL FROM"@, reply))
        },
        MxPhase::RcptTo(i) => if starts(reply, '2') {
            rcpt_or_data(p, i + 1)
        } else {
            (MxPhase::Over, refused(p, "RCPT TO <"@ + p.rcpts[i as int] + ">"@, reply))
        },
        MxPhase::Data => if starts(reply, '3') {
            (MxPhase::Body, MxActionView::WriteBody(p.mime))
        } else {
            (MxPhase::Over, refused(p, "DATA"@, reply))
        },
        MxPhase::Body => (MxPhase::End, MxActionView::Send("\r\n.\r\n"@)),
        MxPhase::End => if starts(reply, '2') {
            (MxPhase::Over, MxActionView::Delivered(delivered_id(p, reply)))
        } else {
            (MxPhase::Over, refused(p, "message"@, reply))
        },
        MxPhase::Over => (MxPhase::Over, MxActionView::Read),
    }
}

/// A dialogue with one mail server.
pub struct MxSession {
    flavor: MxFlavor,
    ehlo: String,
    host: String,
    from: String,
    rcpts: Vec<String>,
    mime: String,
    fallback: u64,
    phase: MxPhase,
}

/// The values of a sequence of strings.
pub open spec fn texts_of(v: Seq<String>) -> Seq<Seq<char>> {
    Seq::new(v.len(), |i: int| v[i]@)
}

fn concat3(a: &str, b: &str, c: &str) -> (s: String)
    ensures
        s@ == a@ + b@ + c@,
{
    let mut s = string_of(a);
    s.append(b);
    s.append(c);
    s
}

impl MxSession {
    /// What the dialogue is about.
    pub closed spec fn params(&self) -> MxParams {
        MxParams {
            flavor: self.flavor,
            ehlo: self.ehlo@,
            host: self.host@,
            from: self.from@,
            rcpts: texts_of(self.rcpts@),
            mime: self.mime@,
            fallback: self.fallback,
        }
    }

    /// The reply the dialogue waits for.
    pub closed spec fn phase(&self) -> MxPhase {
        self.phase
    }

    /// The recipient awaited is one of the dialogue's.
    pub closed spec fn wf(&self) -> bool {
        self.phase matches MxPhase::RcptTo(i) ==> i < self.rcpts.len()
    }

    fn refusal(&self, what: &str, reply: &str) -> (a: MxAction)
        ensures
            a@ == refused(self.params(), what@, reply@),
            a matches MxAction::Failed(e) && e is Provider,
    {
        let mut m = match self.flavor {
            MxFlavor::Direct => {
                let mut m = concat3("MX ", self.host.as_str(), " ");
                m.append(what);
                m.append(" rejected: ");
                m
            },
            MxFlavor::Relay => concat3(what, ": ", ""),
        };
        proof {
            reveal_strlit("");
            assert(""@ =~= Seq::<char>::empty());
            assert(what@ + ": "@ + ""@ =~= what@ + ": "@);
        }
        m.append(reply);
        MxAction::Failed(EmailError::Provider(m))
    }

    fn rcpt_or_data(&mut self, i: usize) -> (a: MxAction)
        ensures
            final(self).params() == old(self).params(),
            final(self).wf(),
            (final(self).phase(), a@) == rcpt_or_data(old(self).params(), i as int),
    {
        if i < self.rcpts.len() {
            self.phase = MxPhase::RcptTo(i);
            let a = MxAction::Send(concat3("RCPT TO:<", self.rcpts[i].as_str(), ">\r\n"));
            proof {
                assert(self.params().rcpts[i as int] == self.rcpts@[i as int]@);
            }
            a
        } else {
            self.phase = MxPhase::Data;
            MxAction::Send(string_of("DATA\r\n"))
        }
    }

    /// Start a dialogue with `host`, introducing ourselves as `ehlo`, to
    /// deliver `mime` from `from` to `rcpts`: the first action reads the
    /// greeting.
    pub fn start(
        flavor: MxFlavor,
        ehlo: &str,
        host: &str,
        from: &str,
        rcpts: Vec<String>,
        mime: &str,
        fallback: u64,
    ) -> (r: (MxSession, MxAction))
        ensures
            r.0.wf(),
            r.0.params() == (MxParams {
                flavor,
                ehlo: ehlo@,
                host: host@,
                from: from@,
                rcpts: texts_of(rcpts@),
                mime: mime@,
                fallback,
            }),
            r.0.phase() == MxPhase::Greeting,
            r.1@ == MxActionView::Read,
    {
        let s = MxSession {
            flavor,
            ehlo: string_of(ehlo),
            host: string_of(host),
            from: string_of(from),
            rcpts,
            mime: string_of(mime),
            fallback,
            phase: MxPhase::Greeting,
        };
        (s, MxAction::Read)
    }

    /// Whether the dialogue is over.
    pub fn finished(&self) -> (b: bool)
        ensures
            b == (self.phase() == MxPhase::Over),
    {
        self.phase == MxPhase::Over
    }

    /// Take the reply awaited in the current phase and decide what to do
    /// next (see `mx_next`).
    pub fn on_reply(&mut self, reply: &str) -> (a: MxAction)
        requires
            old(self).wf(),
            old(self).phase() != MxPhase::Over,
        ensures
            final(self).wf(),
            final(self).params() == old(self).params(),
            (final(self).phase(), a@) == mx_next(old(self).params(), old(self).phase(), reply@),
            a matches MxAction::Failed(e) ==> e is Provider,
    {
        match self.phase {
            MxPhase::Greeting => {
                if reply_starts_with(reply, '2') {
                    self.phase = MxPhase::Ehlo;
                    MxAction::Send(concat3("EHLO ", self.ehlo.as_str(), "\r\n"))
                } else {
                    self.phase = MxPhase::Over;
                    self.refusal("greeting", reply)
                }
            },
            MxPhase::Ehlo => {
                if !reply_starts_with(reply, '2') {
                    self.phase = MxPhase::Over;
                    self.refusal("EHLO", reply)
                } else if supports_starttls(reply) {
                    self.phase = MxPhase::StartTls;
                    MxAction::Send(string_of("STARTTLS\r\n"))
                } else {
                    self.phase = MxPhase::MailFrom;
                    MxAction::Send(concat3("MAIL FROM:<", self.from.as_str(), ">\r\n"))
                }
            },
            MxPhase::StartTls => {
                if reply_starts_with(reply, '2') {
                    self.phase = MxPhase::Upgraded;
                    MxAction::StartTls
                } else {
                    self.phase = MxPhase::MailFrom;
                    MxAction::Send(concat3("MAIL FROM:<", self.from.as_str(), ">\r\n"))
                }
            },
            MxPhase::Upgraded => {
                self.phase = MxPhase::EhloAgain;
                MxAction::Send(concat3("EHLO ", self.ehlo.as_str(), "\r\n"))
            },
            MxPhase::EhloAgain => {
                self.phase = MxPhase::MailFrom;
                MxAction::Send(concat3("MAIL FROM:<", self.from.as_str(), ">\r\n"))
            },
            MxPhase::MailFrom => {
                if reply_starts_with(reply, '2') {
                    self.rcpt_or_data(0)
                } else {
                    self.phase = MxPhase::Over;
                    self.refusal("MAIL FROM", reply)
                }
            },
            MxPhase::RcptTo(i) => {
                if reply_starts_with(reply, '2') {
                    self.rcpt_or_data(i + 1)
                } else {
                    self.phase = MxPhase::Over;
                    let what = concat3("RCPT TO <", self.rcpts[i].as_str(), ">");
                    proof {
                        assert(self.params().rcpts[i as int] == self.rcpts@[i as int]@);
                    }
                    self.refusal(what.as_str(), reply)
                }
            },
            MxPhase::Data => {
                if reply_starts_with(reply, '3') {
                    self.phase = MxPhase::Body;
                    MxAction::WriteBody(self.mime.clone())
                } else {
                    self.phase = MxPhase::Over;
                    self.refusal("DATA", reply)
                }
            },
            MxPhase::Body => {
                self.phase = MxPhase::End;
                MxAction::Send(string_of("\r\n.\r\n"))
            },
            MxPhase::End => {
                self.phase = MxPhase::Over;
                if reply_starts_with(reply, '2') {
                    let id = match extract_message_id(reply) {
                        Some(id) => id,
                        None => match self.flavor {
                            MxFlavor::Direct => {
                                let mut s = string_of("nexus-");
                                push_fixed_hex(&mut s, self.fallback, 16);
                                s
                            },
                            MxFlavor::Relay => string_of("unknown"),
                        },
                    };
                    MxAction::Delivered(id)
                } else {
                    self.refusal("message", reply)
                }
            },
            MxPhase::Over => MxAction::Read,
        }
    }
}

} // verus!
