//! Native SMTP provider: configuration, the SMTP dialogue as a script of
//! steps, and the decisions taken on each server reply.
//!
//! The connection itself (TCP, TLS, reading and writing) is driven by the
//! caller: it performs each `SmtpAction` and hands the reply back to
//! `SmtpSession::on_reply`.

use vstd::prelude::*;
use std::sync::Arc;
use crate::text::{
    chars_of, push_chars, string_of, fixed_hex, push_fixed_hex, is_ws, char_is_ws, trim_end,
    lemma_trim_end_at,
};
use crate::send::error::EmailError;
use crate::send::message::{EmailMessage, Mailbox, SendResult};
use crate::send::mime::{base64_standard, encode_base64, crlf, mime_text, attachments_encodable, build_mime_with};

verus! {

broadcast use vstd::string::group_string_axioms;

// ---------------------------------------------------------------------------
// Time and pseudo-random numbers
// ---------------------------------------------------------------------------

/// Whole seconds and whole nanoseconds elapsed since the Unix epoch (zero
/// when the clock is set before it).
///
/// Trusted: reads `std::time::SystemTime::now()` and measures it against
/// `UNIX_EPOCH` with `duration_since(..).unwrap_or_default()`. What is
/// stated is what `Duration` documents: `as_nanos` counts the same span as
/// `as_secs`, in nanoseconds. The time itself is not stated.
#[verifier::external_body]
pub(crate) fn unix_time() -> (t: (u64, u128))
    ensures
        t.1 / 1_000_000_000 == t.0,
{
    let d = std::time::SystemTime::now().duration_since(std::time::UNIX_EPOCH).unwrap_or_default();
    (d.as_secs(), d.as_nanos())
}

/// Mixes a timestamp into a pseudo-random number: the low 64 bits of the
/// nanoseconds, xor the seconds times an LCG multiplier (wrapping).
pub fn mix_time(secs: u64, nanos: u128) -> (r: u64)
    ensures
        r == mix_time_spec(secs, nanos),
{
    (nanos as u64) ^ secs.wrapping_mul(6364136223846793005)
}

/// A pseudo-random number for MIME boundaries and fallback message IDs
/// (unique enough, not for cryptography).
pub fn rand_u64() -> (r: u64)
    ensures
        exists|secs: u64, nanos: u128| r == mix_time_spec(secs, nanos),
{
    let (secs, nanos) = unix_time();
    let r = mix_time(secs, nanos);
    assert(r == mix_time_spec(secs, nanos));
    r
}

/// The value `mix_time` returns.
pub open spec fn mix_time_spec(secs: u64, nanos: u128) -> u64 {
    (nanos as u64) ^ secs.wrapping_mul(6364136223846793005)
}

// ---------------------------------------------------------------------------
// Reply parsing
// ---------------------------------------------------------------------------

/// Whether a reply line is the last line of an SMTP reply: it has at least
/// four bytes and its fourth byte is a space (continuation lines have `-`
/// there).
pub fn is_final_reply_line(line: &str) -> (b: bool)
    ensures
        b == (vstd::utf8::encode_utf8(line@).len() >= 4 && vstd::utf8::encode_utf8(line@)[3] == 32),
{
    let bytes = line.as_bytes();
    bytes.len() >= 4 && bytes[3] == 32u8
}

/// Whether a reply begins with the status digit `code`.
pub fn reply_starts_with(reply: &str, code: char) -> (b: bool)
    ensures
        b == (reply@.len() > 0 && reply@[0] == code),
{
    let v = chars_of(reply);
    v.len() > 0 && v[0] == code
}

/// The position of the last whitespace character in `s`, or -1.
pub open spec fn last_ws_index(s: Seq<char>) -> int
    decreases s.len(),
{
    if s.len() == 0 {
        -1
    } else if is_ws(s.last()) {
        s.len() - 1
    } else {
        last_ws_index(s.drop_last())
    }
}

/// The last whitespace-separated word of `s`, if it has one.
pub open spec fn last_word(s: Seq<char>) -> Option<Seq<char>> {
    let t = trim_end(s);
    if t.len() == 0 {
        None
    } else {
        Some(t.subrange(last_ws_index(t) + 1, t.len() as int))
    }
}

proof fn lemma_last_ws_index_at(t: Seq<char>, k: int)
    requires
        -1 <= k < t.len(),
        k >= 0 ==> is_ws(t[k]),
        forall|j: int| k < j < t.len() ==> !is_ws(t[j]),
    ensures
        last_ws_index(t) == k,
    decreases t.len(),
{
    if t.len() > 0 && k < t.len() - 1 {
        assert(!is_ws(t[t.len() - 1]));
        lemma_last_ws_index_at(t.drop_last(), k);
    }
}

/// The message ID an SMTP server reports in its final reply: the last
/// whitespace-separated word (e.g. `ABC123` in `250 2.0.0 Ok: queued as
/// ABC123`), if there is one.
pub fn extract_message_id(response: &str) -> (r: Option<String>)
    ensures
        match r {
            Some(id) => last_word(response@) == Some(id@),
            None => last_word(response@) is None,
        },
{
    let v = chars_of(response);
    let mut hi: usize = v.len();
    while hi > 0 && char_is_ws(v[hi - 1])
        invariant
            hi <= v@.len(),
            forall|j: int| hi <= j < v@.len() ==> is_ws(v@[j]),
        decreases hi,
    {
        hi = hi - 1;
    }
    proof {
        lemma_trim_end_at(v@, hi as int);
    }
    if hi == 0 {
        return None;
    }
    let mut lo: usize = hi;
    while lo > 0 && !char_is_ws(v[lo - 1])
        invariant
            lo <= hi <= v@.len(),
            forall|j: int| lo <= j < hi ==> !is_ws(v@[j]),
        decreases lo,
    {
        lo = lo - 1;
    }
    proof {
        let t = v@.subrange(0, hi as int);
        lemma_last_ws_index_at(t, lo - 1);
    }
    let mut id = String::new();
    push_chars(&mut id, &v, lo, hi);
    proof {
        let t = v@.subrange(0, hi as int);
        assert(t.subrange(lo as int, hi as int) == v@.subrange(lo as int, hi as int));
    }
    Some(id)
}

// ---------------------------------------------------------------------------
// Configuration
// ---------------------------------------------------------------------------

/// SMTP authentication mechanism.
#[derive(Debug)]
pub enum SmtpAuth {
    /// AUTH PLAIN (username + password in one base64 blob).
    Plain { username: String, password: String },
    /// AUTH LOGIN (username and password sent separately).
    Login { username: String, password: String },
}

impl Clone for SmtpAuth {
    fn clone(&self) -> (r: Self)
        ensures
            r == *self,
    {
        match self {
            SmtpAuth::Plain { username, password } => SmtpAuth::Plain {
                username: username.clone(),
                password: password.clone(),
            },
            SmtpAuth::Login { username, password } => SmtpAuth::Login {
                username: username.clone(),
                password: password.clone(),
            },
        }
    }
}

#[derive(Debug, Clone, Copy, PartialEq, Eq, Structural)]
enum AuthMethod {
    Plain,
    Login,
}

#[verifier::external_type_specification]
#[verifier::external_body]
pub struct ExClientConfig(rustls::ClientConfig);

/// A TLS client configuration trusting the web PKI roots.
///
/// Trusted: builds `rustls::ClientConfig` from a `RootCertStore` filled with
/// `webpki_roots::TLS_SERVER_ROOTS`, with no client authentication. Before
/// that it makes `ring` the process's crypto provider when none was chosen
/// yet (`ClientConfig::builder` panics when it cannot pick one itself).
/// Nothing about the configuration is stated.
#[verifier::external_body]
pub(crate) fn web_pki_tls_config() -> Arc<rustls::ClientConfig> {
    let _ = rustls::crypto::ring::default_provider().install_default();
    let root_store = rustls::RootCertStore::from_iter(webpki_roots::TLS_SERVER_ROOTS.iter().cloned());
    let config = rustls::ClientConfig::builder().with_root_certificates(root_store).with_no_client_auth();
    Arc::new(config)
}

/// Native SMTP email provider.
///
/// Connects via TCP, upgrades to TLS with STARTTLS, authenticates, and
/// sends MIME-formatted email messages.
pub struct SmtpProvider {
    host: String,
    port: u16,
    auth: Option<SmtpAuth>,
    starttls: bool,
    tls_config: Arc<rustls::ClientConfig>,
}

/// Builder for `SmtpProvider`.
pub struct SmtpProviderBuilder {
    host: Option<String>,
    port: u16,
    username: Option<String>,
    password: Option<String>,
    auth_method: AuthMethod,
    starttls: bool,
}

impl SmtpProviderBuilder {
    /// The host name set so far.
    pub closed spec fn spec_host(&self) -> Option<Seq<char>> {
        match self.host {
            Some(h) => Some(h@),
            None => None,
        }
    }

    /// The port set so far.
    pub closed spec fn spec_port(&self) -> u16 {
        self.port
    }

    /// The user name set so far.
    pub closed spec fn spec_username(&self) -> Option<Seq<char>> {
        match self.username {
            Some(u) => Some(u@),
            None => None,
        }
    }

    /// The password set so far.
    pub closed spec fn spec_password(&self) -> Option<Seq<char>> {
        match self.password {
            Some(p) => Some(p@),
            None => None,
        }
    }

    /// Whether AUTH PLAIN (rather than AUTH LOGIN) is chosen.
    pub closed spec fn spec_auth_plain(&self) -> bool {
        self.auth_method == AuthMethod::Plain
    }

    /// Whether STARTTLS is enabled.
    pub closed spec fn spec_starttls(&self) -> bool {
        self.starttls
    }

    /// Set the SMTP server hostname.
    pub fn host(self, host: &str) -> (b: SmtpProviderBuilder)
        ensures
            b.spec_host() == Some(host@),
            b.spec_port() == self.spec_port(),
            b.spec_username() == self.spec_username(),
            b.spec_password() == self.spec_password(),
            b.spec_auth_plain() == self.spec_auth_plain(),
            b.spec_starttls() == self.spec_starttls(),
    {
        SmtpProviderBuilder { host: Some(string_of(host)), ..self }
    }

    /// Set the SMTP server port (default: 587).
    pub fn port(self, port: u16) -> (b: SmtpProviderBuilder)
        ensures
            b.spec_host() == self.spec_host(),
            b.spec_port() == port,
            b.spec_username() == self.spec_username(),
            b.spec_password() == self.spec_password(),
            b.spec_auth_plain() == self.spec_auth_plain(),
            b.spec_starttls() == self.spec_starttls(),
    {
        SmtpProviderBuilder { port, ..self }
    }

    /// Set authentication credentials.
    pub fn credentials(self, username: &str, password: &str) -> (b: SmtpProviderBuilder)
        ensures
            b.spec_host() == self.spec_host(),
            b.spec_port() == self.spec_port(),
            b.spec_username() == Some(username@),
            b.spec_password() == Some(password@),
            b.spec_auth_plain() == self.spec_auth_plain(),
            b.spec_starttls() == self.spec_starttls(),
    {
        SmtpProviderBuilder {
            username: Some(string_of(username)),
            password: Some(string_of(password)),
            ..self
        }
    }

    /// Use AUTH PLAIN (default is AUTH LOGIN).
    pub fn auth_plain(self) -> (b: SmtpProviderBuilder)
        ensures
            b.spec_host() == self.spec_host(),
            b.spec_port() == self.spec_port(),
            b.spec_username() == self.spec_username(),
            b.spec_password() == self.spec_password(),
            b.spec_auth_plain(),
            b.spec_starttls() == self.spec_starttls(),
    {
        SmtpProviderBuilder { auth_method: AuthMethod::Plain, ..self }
    }

    /// Use AUTH LOGIN (default).
    pub fn auth_login(self) -> (b: SmtpProviderBuilder)
        ensures
            b.spec_host() == self.spec_host(),
            b.spec_port() == self.spec_port(),
            b.spec_username() == self.spec_username(),
            b.spec_password() == self.spec_password(),
            !b.spec_auth_plain(),
            b.spec_starttls() == self.spec_starttls(),
    {
        SmtpProviderBuilder { auth_method: AuthMethod::Login, ..self }
    }

    /// Enable or disable STARTTLS (default: true).
    pub fn starttls(self, enabled: bool) -> (b: SmtpProviderBuilder)
        ensures
            b.spec_host() == self.spec_host(),
            b.spec_port() == self.spec_port(),
            b.spec_username() == self.spec_username(),
            b.spec_password() == self.spec_password(),
            b.spec_auth_plain() == self.spec_auth_plain(),
            b.spec_starttls() == enabled,
    {
        SmtpProviderBuilder { starttls: enabled, ..self }
    }

    /// Build the SMTP provider.
    ///
    /// Fails with `MissingField` when no host was set. Credentials are used
    /// only when both a user name and a password were given.
    pub fn build(self) -> (r: Result<SmtpProvider, EmailError>)
        ensures
            self.spec_host() is None <==> r is Err,
            r matches Err(e) ==> e matches EmailError::MissingField(m) && m@ == "SMTP host is required"@,
            r matches Ok(p) ==> Some(p.spec_host()) == self.spec_host() && p.spec_port() == self.spec_port()
                && p.spec_auth() == builder_auth(self.spec_username(), self.spec_password(), self.spec_auth_plain())
                && p.spec_starttls() == self.spec_starttls(),
    {
        let host = match self.host {
            Some(h) => h,
            None => {
                return Err(EmailError::MissingField(string_of("SMTP host is required")));
            },
        };
        let auth = match (self.username, self.password) {
            (Some(username), Some(password)) => Some(
                match self.auth_method {
                    AuthMethod::Plain => SmtpAuth::Plain { username, password },
                    AuthMethod::Login => SmtpAuth::Login { username, password },
                },
            ),
            _ => None,
        };
        Ok(SmtpProvider { host, port: self.port, auth, starttls: self.starttls, tls_config: web_pki_tls_config() })
    }
}

/// The authentication a builder configures: AUTH PLAIN or AUTH LOGIN with
/// the credentials, when both a user name and a password are set.
pub open spec fn builder_auth(username: Option<Seq<char>>, password: Option<Seq<char>>, plain: bool) -> Option<(bool, Seq<char>, Seq<char>)> {
    match (username, password) {
        (Some(u), Some(p)) => Some((plain, u, p)),
        _ => None,
    }
}

/// The view of an authentication setting: whether it is AUTH PLAIN, the
/// user name and the password.
pub open spec fn auth_view(a: Option<SmtpAuth>) -> Option<(bool, Seq<char>, Seq<char>)> {
    match a {
        Some(SmtpAuth::Plain { username, password }) => Some((true, username@, password@)),
        Some(SmtpAuth::Login { username, password }) => Some((false, username@, password@)),
        None => None,
    }
}

impl SmtpProvider {
    /// Create a new SMTP provider builder: port 587, AUTH LOGIN, STARTTLS,
    /// no host and no credentials.
    pub fn builder() -> (b: SmtpProviderBuilder)
        ensures
            b.spec_host() is None,
            b.spec_port() == 587,
            b.spec_username() is None,
            b.spec_password() is None,
            !b.spec_auth_plain(),
            b.spec_starttls(),
    {
        SmtpProviderBuilder {
            host: None,
            port: 587,
            username: None,
            password: None,
            auth_method: AuthMethod::Login,
            starttls: true,
        }
    }

    /// The server host name.
    pub closed spec fn spec_host(&self) -> Seq<char> {
        self.host@
    }

    /// The server port.
    pub closed spec fn spec_port(&self) -> u16 {
        self.port
    }

    /// The authentication setting.
    pub closed spec fn spec_auth(&self) -> Option<(bool, Seq<char>, Seq<char>)> {
        auth_view(self.auth)
    }

    /// The authentication value itself.
    pub closed spec fn spec_auth_value(&self) -> Option<SmtpAuth> {
        self.auth
    }

    /// Whether the connection is upgraded with STARTTLS.
    pub closed spec fn spec_starttls(&self) -> bool {
        self.starttls
    }

    /// Whether the connection is upgraded with STARTTLS.
    pub fn starttls(&self) -> (b: bool)
        ensures
            b == self.spec_starttls(),
    {
        self.starttls
    }

    /// The server host name.
    pub fn host(&self) -> (h: &str)
        ensures
            h@ == self.spec_host(),
    {
        self.host.as_str()
    }

    /// The server port.
    pub fn port(&self) -> (p: u16)
        ensures
            p == self.spec_port(),
    {
        self.port
    }

    /// The authentication setting.
    pub fn auth(&self) -> (a: &Option<SmtpAuth>)
        ensures
            *a == self.spec_auth_value(),
            auth_view(*a) == self.spec_auth(),
    {
        &self.auth
    }

    /// The TLS client configuration.
    pub fn tls_config(&self) -> Arc<rustls::ClientConfig> {
        self.tls_config.clone()
    }

    /// Build a MIME message from an EmailMessage, with fresh pseudo-random
    /// boundaries.
    pub fn build_mime(message: &EmailMessage) -> (s: String)
        requires
            attachments_encodable(*message),
        ensures
            exists|b: u64, rel: u64, alt: u64| s@ == mime_text(*message, b, rel, alt),
    {
        let b = rand_u64();
        let rel = rand_u64();
        let alt = rand_u64();
        build_mime_with(message, b, rel, alt)
    }
}

// ---------------------------------------------------------------------------
// The SMTP dialogue
// ---------------------------------------------------------------------------

/// What a step of the dialogue does.
#[derive(Debug, Clone, Copy, PartialEq, Eq, Structural)]
pub enum StepKind {
    /// Read a reply without sending anything (the greeting).
    Read,
    /// Send a command and read the reply.
    Command,
    /// Write the message body; no reply.
    Body,
    /// Upgrade the connection to TLS; no reply.
    Tls,
}

/// One step of the dialogue: what is done, the status digit the reply must
/// begin with (if it is checked), and the label of the error otherwise.
#[derive(Debug)]
pub struct SmtpStep {
    pub kind: StepKind,
    pub text: String,
    pub expect: Option<char>,
    pub label: String,
}

/// The value of a step.
pub struct StepView {
    pub kind: StepKind,
    pub text: Seq<char>,
    pub expect: Option<char>,
    pub label: Seq<char>,
}

impl View for SmtpStep {
    type V = StepView;

    open spec fn view(&self) -> StepView {
        StepView { kind: self.kind, text: self.text@, expect: self.expect, label: self.label@ }
    }
}

/// The step with the given parts.
pub open spec fn step(kind: StepKind, text: Seq<char>, expect: Option<char>, label: Seq<char>) -> StepView {
    StepView { kind, text, expect, label }
}

/// The values of a sequence of steps.
pub open spec fn steps_view(s: Seq<SmtpStep>) -> Seq<StepView> {
    s.map_values(|x: SmtpStep| x@)
}

/// The base64 text of the UTF-8 bytes of `s`.
pub open spec fn b64_text(s: Seq<char>) -> Seq<char> {
    base64_standard(vstd::utf8::encode_utf8(s))
}

/// The AUTH PLAIN payload: NUL, user name, NUL, password.
pub open spec fn plain_credentials(u: Seq<char>, p: Seq<char>) -> Seq<char> {
    seq!['\0'] + u + seq!['\0'] + p
}

/// The authentication steps.
pub open spec fn auth_steps(auth: Option<(bool, Seq<char>, Seq<char>)>) -> Seq<StepView> {
    match auth {
        None => seq![],
        Some((true, u, p)) => seq![
            step(StepKind::Command, "AUTH PLAIN "@ + b64_text(plain_credentials(u, p)) + crlf(), Some('2'), "AUTH PLAIN failed: "@)
        ],
        Some((false, u, p)) => seq![]
            .push(step(StepKind::Command, "AUTH LOGIN\r\n"@, Some('3'), "AUTH LOGIN rejected: "@))
            .push(step(StepKind::Command, b64_text(u) + crlf(), Some('3'), "AUTH LOGIN username rejected: "@))
            .push(step(StepKind::Command, b64_text(p) + crlf(), Some('2'), "AUTH LOGIN failed: "@)),
    }
}

/// One RCPT TO step per recipient address.
pub open spec fn rcpt_steps(rs: Seq<Seq<char>>) -> Seq<StepView>
    decreases rs.len(),
{
    if rs.len() == 0 {
        seq![]
    } else {
        rcpt_steps(rs.drop_last()).push(
            step(StepKind::Command, "RCPT TO:<"@ + rs.last() + ">\r\n"@, Some('2'), "RCPT TO <"@ + rs.last() + "> rejected: "@),
        )
    }
}

proof fn lemma_rcpt_steps_concat(a: Seq<Seq<char>>, b: Seq<Seq<char>>)
    ensures
        rcpt_steps(a + b) == rcpt_steps(a) + rcpt_steps(b),
    decreases b.len(),
{
    if b.len() == 0 {
        assert(a + b == a);
    } else {
        lemma_rcpt_steps_concat(a, b.drop_last());
        assert((a + b).drop_last() == a + b.drop_last());
    }
}

/// The addresses of some mailboxes.
pub open spec fn emails(ms: Seq<Mailbox>) -> Seq<Seq<char>> {
    Seq::new(ms.len(), |i: int| ms[i].email@)
}

/// Every recipient address of a message: To, then Cc, then Bcc.
pub open spec fn recipient_emails(m: EmailMessage) -> Seq<Seq<char>> {
    emails(m.to@) + emails(m.cc@) + emails(m.bcc@)
}

/// The opening of the dialogue: greeting and EHLO, then, with STARTTLS,
/// the STARTTLS command, the TLS upgrade and EHLO again (reply not
/// checked).
pub open spec fn opening_steps(starttls: bool) -> Seq<StepView> {
    let greet = seq![]
        .push(step(StepKind::Read, seq![], Some('2'), "SMTP greeting rejected: "@))
        .push(step(StepKind::Command, "EHLO ferrum-email\r\n"@, Some('2'), "EHLO rejected: "@));
    if starttls {
        greet
            .push(step(StepKind::Command, "STARTTLS\r\n"@, Some('2'), "STARTTLS rejected: "@))
            .push(step(StepKind::Tls, seq![], None, seq![]))
            .push(step(StepKind::Command, "EHLO ferrum-email\r\n"@, None, seq![]))
    } else {
        greet
    }
}

/// A text ends where a new line starts: it is empty or ends with `\n`.
pub open spec fn line_start(p: Seq<char>) -> bool {
    p.len() == 0 || p.last() == '\n'
}

/// A message text made safe for DATA (RFC 5321, 4.5.2): one more `.`
/// before every line that starts with `.`, so that no line of the text is
/// the lone dot that ends the message.
pub open spec fn dot_stuffed(s: Seq<char>) -> Seq<char>
    decreases s.len(),
{
    if s.len() == 0 {
        seq![]
    } else {
        let p = s.drop_last();
        let lead = if s.last() == '.' && line_start(p) { seq!['.'] } else { seq![] };
        dot_stuffed(p) + lead + seq![s.last()]
    }
}

/// The text with one more `.` before every line that starts with `.` (see
/// `dot_stuffed`).
pub fn dot_stuff(s: &str) -> (r: String)
    ensures
        r@ == dot_stuffed(s@),
{
    let v = crate::text::chars_of(s);
    let mut out = String::new();
    let mut at_start = true;
    let mut i: usize = 0;
    while i < v.len()
        invariant
            v@ == s@,
            i <= v@.len(),
            out@ == dot_stuffed(s@.take(i as int)),
            at_start == line_start(s@.take(i as int)),
        decreases v@.len() - i,
    {
        let c = v[i];
        proof {
            assert(s@.take(i + 1).drop_last() == s@.take(i as int));
            assert(s@.take(i + 1).last() == c);
        }
        if at_start && c == '.' {
            crate::text::push_char(&mut out, '.');
        }
        crate::text::push_char(&mut out, c);
        at_start = c == '\n';
        proof {
            assert(out@ == dot_stuffed(s@.take(i + 1)));
        }
        i = i + 1;
    }
    proof {
        assert(s@.take(v@.len() as int) == s@);
    }
    out
}

/// The whole dialogue for sending a message: the opening (see
/// `opening_steps`), authentication, MAIL FROM, one RCPT TO per recipient,
/// DATA, the dot-stuffed body, and the final dot.
pub open spec fn smtp_script(starttls: bool, auth: Option<(bool, Seq<char>, Seq<char>)>, from: Seq<char>, rcpts: Seq<Seq<char>>, mime: Seq<char>) -> Seq<StepView> {
    opening_steps(starttls)
        + auth_steps(auth)
        + seq![step(StepKind::Command, "MAIL FROM:<"@ + from + ">\r\n"@, Some('2'), "MAIL FROM rejected: "@)]
        + rcpt_steps(rcpts)
        + seq![]
            .push(step(StepKind::Command, "DATA\r\n"@, Some('3'), "DATA rejected: "@))
            .push(step(StepKind::Body, dot_stuffed(mime), None, seq![]))
            .push(step(StepKind::Command, "\r\n.\r\n"@, Some('2'), "message rejected: "@))
}

/// A message is only sent once the server accepts it: the last step of
/// every dialogue sends the final dot and takes exactly the replies that
/// begin with `2`; any other reply ends the dialogue with
/// `message rejected: ` and the reply (see `SmtpSession::on_reply`).
pub proof fn lemma_final_dot_needs_acceptance(
    starttls: bool,
    auth: Option<(bool, Seq<char>, Seq<char>)>,
    from: Seq<char>,
    rcpts: Seq<Seq<char>>,
    mime: Seq<char>,
    reply: Seq<char>,
)
    ensures
        ({
            let s = smtp_script(starttls, auth, from, rcpts, mime);
            &&& s.len() > 0
            &&& s.last().kind == StepKind::Command
            &&& s.last().text == "\r\n.\r\n"@
            &&& s.last().label == "message rejected: "@
            &&& reply_accepted(s.last(), reply) <==> (reply.len() > 0 && reply[0] == '2')
        }),
{
}

/// One RCPT TO step per address, in order.
proof fn lemma_rcpt_steps_at(rs: Seq<Seq<char>>)
    ensures
        rcpt_steps(rs).len() == rs.len(),
        forall|k: int| 0 <= k < rs.len() ==> #[trigger] rcpt_steps(rs)[k] == step(
            StepKind::Command,
            "RCPT TO:<"@ + rs[k] + ">\r\n"@,
            Some('2'),
            "RCPT TO <"@ + rs[k] + "> rejected: "@,
        ),
    decreases rs.len(),
{
    if rs.len() > 0 {
        lemma_rcpt_steps_at(rs.drop_last());
        assert forall|k: int| 0 <= k < rs.len() implies #[trigger] rcpt_steps(rs)[k] == step(
            StepKind::Command,
            "RCPT TO:<"@ + rs[k] + ">\r\n"@,
            Some('2'),
            "RCPT TO <"@ + rs[k] + "> rejected: "@,
        ) by {
            if k < rs.len() - 1 {
                assert(rs.drop_last()[k] == rs[k]);
            }
        }
    }
}

/// The dialogue for a message names every recipient to the server: it
/// holds a `RCPT TO:<address>` command, whose reply must begin with `2`,
/// for each To, Cc and Bcc address.
pub proof fn lemma_every_recipient_named(
    starttls: bool,
    auth: Option<(bool, Seq<char>, Seq<char>)>,
    m: EmailMessage,
    mime: Seq<char>,
    a: Seq<char>,
)
    requires
        exists|k: int| 0 <= k < m.to@.len() && m.to@[k].email@ == a
            || 0 <= k < m.cc@.len() && m.cc@[k].email@ == a
            || 0 <= k < m.bcc@.len() && m.bcc@[k].email@ == a,
    ensures
        exists|i: int| 0 <= i < smtp_script(starttls, auth, m.from.email@, recipient_emails(m), mime).len()
            && #[trigger] smtp_script(starttls, auth, m.from.email@, recipient_emails(m), mime)[i] == step(
                StepKind::Command,
                "RCPT TO:<"@ + a + ">\r\n"@,
                Some('2'),
                "RCPT TO <"@ + a + "> rejected: "@,
            ),
{
    let rs = recipient_emails(m);
    let sc = smtp_script(starttls, auth, m.from.email@, rs, mime);
    let k = choose|k: int| 0 <= k < m.to@.len() && m.to@[k].email@ == a
        || 0 <= k < m.cc@.len() && m.cc@[k].email@ == a
        || 0 <= k < m.bcc@.len() && m.bcc@[k].email@ == a;
    let t = m.to@.len() as int;
    let c = m.cc@.len() as int;
    let j = if 0 <= k < t && m.to@[k].email@ == a {
        k
    } else if 0 <= k < c && m.cc@[k].email@ == a {
        t + k
    } else {
        t + c + k
    };
    assert(rs[j] == a);
    lemma_rcpt_steps_at(rs);
    let head = opening_steps(starttls) + auth_steps(auth)
        + seq![step(StepKind::Command, "MAIL FROM:<"@ + m.from.email@ + ">\r\n"@, Some('2'), "MAIL FROM rejected: "@)];
    let tail = seq![]
        .push(step(StepKind::Command, "DATA\r\n"@, Some('3'), "DATA rejected: "@))
        .push(step(StepKind::Body, dot_stuffed(mime), None, seq![]))
        .push(step(StepKind::Command, "\r\n.\r\n"@, Some('2'), "message rejected: "@));
    assert(sc =~= head + rcpt_steps(rs) + tail);
    assert(sc[head.len() + j] == rcpt_steps(rs)[j]);
}

/// Every reply is checked except where nothing can go wrong: a step that
/// accepts any reply is the TLS upgrade, the writing of the body, or the
/// EHLO sent again right after the upgrade.
pub proof fn lemma_replies_checked(
    starttls: bool,
    auth: Option<(bool, Seq<char>, Seq<char>)>,
    from: Seq<char>,
    rcpts: Seq<Seq<char>>,
    mime: Seq<char>,
)
    ensures
        forall|i: int| 0 <= i < smtp_script(starttls, auth, from, rcpts, mime).len()
            && (#[trigger] smtp_script(starttls, auth, from, rcpts, mime)[i]).expect is None ==> {
                let sc = smtp_script(starttls, auth, from, rcpts, mime);
                ||| sc[i].kind == StepKind::Tls
                ||| sc[i].kind == StepKind::Body
                ||| (i > 0 && sc[i - 1].kind == StepKind::Tls)
            },
{
    let sc = smtp_script(starttls, auth, from, rcpts, mime);
    let o = opening_steps(starttls);
    let au = auth_steps(auth);
    let mail = seq![step(StepKind::Command, "MAIL FROM:<"@ + from + ">\r\n"@, Some('2'), "MAIL FROM rejected: "@)];
    let r = rcpt_steps(rcpts);
    let tail = seq![]
        .push(step(StepKind::Command, "DATA\r\n"@, Some('3'), "DATA rejected: "@))
        .push(step(StepKind::Body, dot_stuffed(mime), None, seq![]))
        .push(step(StepKind::Command, "\r\n.\r\n"@, Some('2'), "message rejected: "@));
    lemma_rcpt_steps_at(rcpts);
    assert(sc =~= o + au + mail + r + tail);
    assert forall|i: int| 0 <= i < sc.len() && (#[trigger] sc[i]).expect is None implies {
        ||| sc[i].kind == StepKind::Tls
        ||| sc[i].kind == StepKind::Body
        ||| (i > 0 && sc[i - 1].kind == StepKind::Tls)
    } by {
        let n1 = o.len() as int;
        let n2 = n1 + au.len();
        let n3 = n2 + 1;
        let n4 = n3 + r.len();
        if i < n1 {
            assert(sc[i] == o[i]);
            if i > 0 {
                assert(sc[i - 1] == o[i - 1]);
            }
        } else if i < n2 {
            assert(sc[i] == au[i - n1]);
        } else if i < n3 {
            assert(sc[i] == mail[i - n2]);
        } else if i < n4 {
            assert(sc[i] == r[i - n3]);
        } else {
            assert(sc[i] == tail[i - n4]);
        }
    }
}

/// The base64 text of a string's UTF-8 bytes can be computed without
/// overflow.
pub open spec fn encodable_text(s: Seq<char>) -> bool {
    vstd::utf8::encode_utf8(s).len() / 3 * 4 + 4 <= usize::MAX
}

/// The credentials of an authentication setting can be base64-encoded.
pub open spec fn auth_encodable(auth: Option<(bool, Seq<char>, Seq<char>)>) -> bool {
    match auth {
        Some((true, u, p)) => encodable_text(plain_credentials(u, p)),
        Some((false, u, p)) => encodable_text(u) && encodable_text(p),
        None => true,
    }
}

fn push_step(v: &mut Vec<SmtpStep>, kind: StepKind, text: String, expect: Option<char>, label: &str)
    ensures
        steps_view(final(v)@) == steps_view(old(v)@).push(step(kind, text@, expect, label@)),
{
    let ghost before = v@;
    v.push(SmtpStep { kind, text, expect, label: string_of(label) });
    proof {
        assert(steps_view(v@) =~= steps_view(before).push(step(kind, text@, expect, label@)));
    }
}

fn encode_text(s: &str) -> (r: String)
    requires
        encodable_text(s@),
    ensures
        r@ == b64_text(s@),
{
    encode_base64(s.as_bytes())
}

fn command_line(prefix: &str, middle: &str, suffix: &str) -> (r: String)
    ensures
        r@ == prefix@ + middle@ + suffix@,
{
    let mut s = String::from_str(prefix);
    s.append(middle);
    s.append(suffix);
    s
}

fn push_auth_steps(v: &mut Vec<SmtpStep>, auth: &Option<SmtpAuth>)
    requires
        auth_encodable(auth_view(*auth)),
    ensures
        steps_view(final(v)@) == steps_view(old(v)@) + auth_steps(auth_view(*auth)),
{
    let ghost before = steps_view(v@);
    match auth {
        None => {
            assert(before + auth_steps(auth_view(*auth)) == before);
        },
        Some(SmtpAuth::Plain { username, password }) => {
            let mut plain = String::new();
            crate::text::push_char(&mut plain, '\0');
            plain.append(username.as_str());
            crate::text::push_char(&mut plain, '\0');
            plain.append(password.as_str());
            assert(plain@ == plain_credentials(username@, password@));
            let encoded = encode_text(plain.as_str());
            push_step(v, StepKind::Command, command_line("AUTH PLAIN ", encoded.as_str(), "\r\n"), Some('2'), "AUTH PLAIN failed: ");
            assert(steps_view(v@) == before + auth_steps(auth_view(*auth)));
        },
        Some(SmtpAuth::Login { username, password }) => {
            push_step(v, StepKind::Command, string_of("AUTH LOGIN\r\n"), Some('3'), "AUTH LOGIN rejected: ");
            let user = encode_text(username.as_str());
            push_step(v, StepKind::Command, command_line("", user.as_str(), "\r\n"), Some('3'), "AUTH LOGIN username rejected: ");
            let pass = encode_text(password.as_str());
            push_step(v, StepKind::Command, command_line("", pass.as_str(), "\r\n"), Some('2'), "AUTH LOGIN failed: ");
            proof {
                reveal_strlit("");
            }
            assert(steps_view(v@) == before + auth_steps(auth_view(*auth)));
        },
    }
}

fn push_rcpt_steps(v: &mut Vec<SmtpStep>, ms: &Vec<Mailbox>)
    ensures
        steps_view(final(v)@) == steps_view(old(v)@) + rcpt_steps(emails(ms@)),
{
    let mut i: usize = 0;
    while i < ms.len()
        invariant
            i <= ms@.len(),
            steps_view(v@) == steps_view(old(v)@) + rcpt_steps(emails(ms@.take(i as int))),
        decreases ms@.len() - i,
    {
        let ghost prev = steps_view(v@);
        let addr = ms[i].email.as_str();
        let mut label = String::from_str("RCPT TO <");
        label.append(addr);
        label.append("> rejected: ");
        push_step(v, StepKind::Command, command_line("RCPT TO:<", addr, ">\r\n"), Some('2'), label.as_str());
        proof {
            assert(emails(ms@.take(i + 1)).drop_last() == emails(ms@.take(i as int)));
            assert(emails(ms@.take(i + 1)).last() == ms@[i as int].email@);
            assert(steps_view(v@) == steps_view(old(v)@) + rcpt_steps(emails(ms@.take(i + 1))));
        }
        i = i + 1;
    }
    proof {
        assert(ms@.take(ms@.len() as int) == ms@);
    }
}

/// The steps of sending `message` (whose MIME text is `mime`) with the
/// given authentication.
pub fn smtp_script_for(message: &EmailMessage, auth: &Option<SmtpAuth>, mime: &str, starttls: bool) -> (r: Vec<SmtpStep>)
    requires
        auth_encodable(auth_view(*auth)),
    ensures
        steps_view(r@) == smtp_script(starttls, auth_view(*auth), message.from.email@, recipient_emails(*message), mime@),
{
    let mut v: Vec<SmtpStep> = Vec::new();
    proof {
        assert(steps_view(v@) =~= Seq::<StepView>::empty());
    }
    push_step(&mut v, StepKind::Read, String::new(), Some('2'), "SMTP greeting rejected: ");
    push_step(&mut v, StepKind::Command, string_of("EHLO ferrum-email\r\n"), Some('2'), "EHLO rejected: ");
    if starttls {
        push_step(&mut v, StepKind::Command, string_of("STARTTLS\r\n"), Some('2'), "STARTTLS rejected: ");
        push_step(&mut v, StepKind::Tls, String::new(), None, "");
        push_step(&mut v, StepKind::Command, string_of("EHLO ferrum-email\r\n"), None, "");
    }
    let ghost opening = steps_view(v@);
    push_auth_steps(&mut v, auth);
    push_step(&mut v, StepKind::Command, command_line("MAIL FROM:<", message.from.email.as_str(), ">\r\n"), Some('2'), "MAIL FROM rejected: ");
    let ghost through_from = steps_view(v@);
    push_rcpt_steps(&mut v, &message.to);
    push_rcpt_steps(&mut v, &message.cc);
    push_rcpt_steps(&mut v, &message.bcc);
    proof {
        lemma_rcpt_steps_concat(emails(message.to@), emails(message.cc@));
        lemma_rcpt_steps_concat(emails(message.to@) + emails(message.cc@), emails(message.bcc@));
    }
    let ghost through_rcpt = steps_view(v@);
    push_step(&mut v, StepKind::Command, string_of("DATA\r\n"), Some('3'), "DATA rejected: ");
    push_step(&mut v, StepKind::Body, dot_stuff(mime), None, "");
    push_step(&mut v, StepKind::Command, string_of("\r\n.\r\n"), Some('2'), "message rejected: ");
    proof {
        reveal_strlit("");
        let a = auth_view(*auth);
        let from = message.from.email@;
        let opening_spec = opening_steps(starttls);
        assert(""@ =~= Seq::<char>::empty());
        assert(opening[0] == step(StepKind::Read, seq![], Some('2'), "SMTP greeting rejected: "@));
        if starttls {
            assert(opening.len() == 5);
            assert(opening[3] == step(StepKind::Tls, seq![], None, seq![]));
            assert(opening[4] == step(StepKind::Command, "EHLO ferrum-email\r\n"@, None, seq![]));
        } else {
            assert(opening.len() == 2);
        }
        assert(opening =~~= opening_spec);
        let mail = seq![step(StepKind::Command, "MAIL FROM:<"@ + from + ">\r\n"@, Some('2'), "MAIL FROM rejected: "@)];
        assert(through_from =~~= opening_spec + auth_steps(a) + mail);
        let d_to = rcpt_steps(emails(message.to@));
        let d_cc = rcpt_steps(emails(message.cc@));
        let d_bcc = rcpt_steps(emails(message.bcc@));
        assert(through_rcpt =~~= through_from + d_to + d_cc + d_bcc);
        assert(rcpt_steps(recipient_emails(*message)) == d_to + d_cc + d_bcc);
        assert(through_rcpt =~~= through_from + rcpt_steps(recipient_emails(*message)));
        let tail = seq![]
            .push(step(StepKind::Command, "DATA\r\n"@, Some('3'), "DATA rejected: "@))
            .push(step(StepKind::Body, dot_stuffed(mime@), None, seq![]))
            .push(step(StepKind::Command, "\r\n.\r\n"@, Some('2'), "message rejected: "@));
        assert(steps_view(v@) =~~= through_rcpt + tail);
        let s = smtp_script(starttls, a, from, recipient_emails(*message), mime@);
        assert(s =~~= opening_spec + auth_steps(a) + mail + rcpt_steps(recipient_emails(*message)) + tail);
        assert(steps_view(v@) =~~= s);
    }
    v
}

/// What the caller does next on the connection.
#[derive(Debug)]
pub enum SmtpAction {
    /// Read a reply.
    Read,
    /// Write and flush this command, then read a reply.
    Send(String),
    /// Write this message body; then report an empty reply.
    WriteBody(String),
    /// Upgrade the connection to TLS; then report an empty reply.
    StartTls,
    /// The dialogue is over with this outcome. On success the caller sends
    /// `QUIT` and ignores what follows.
    Done(Result<SendResult, EmailError>),
}

/// The action `a` carries out step `s`.
pub open spec fn performs(a: SmtpAction, s: StepView) -> bool {
    match s.kind {
        StepKind::Read => a is Read,
        StepKind::Command => a matches SmtpAction::Send(t) && t@ == s.text,
        StepKind::Body => a matches SmtpAction::WriteBody(t) && t@ == s.text,
        StepKind::Tls => a is StartTls,
    }
}

/// The reply satisfies the step's expected status digit, if it has one.
pub open spec fn reply_accepted(s: StepView, reply: Seq<char>) -> bool {
    match s.expect {
        Some(c) => reply.len() > 0 && reply[0] == c,
        None => true,
    }
}

/// The message ID of a successful send: the last word of the final reply,
/// or `smtp-` and sixteen hex digits of the fallback number.
pub open spec fn message_id_of(reply: Seq<char>, fallback: u64) -> Seq<char> {
    match last_word(reply) {
        Some(id) => id,
        None => "smtp-"@ + fixed_hex(fallback as nat, 16),
    }
}

/// A dialogue in progress: the script, the step whose reply is awaited,
/// and the number a fallback message ID is made from.
pub struct SmtpSession {
    steps: Vec<SmtpStep>,
    next: usize,
    fallback_id: u64,
}

impl SmtpSession {
    /// The script of the dialogue.
    pub closed spec fn script(&self) -> Seq<StepView> {
        steps_view(self.steps@)
    }

    /// The position of the step whose reply is awaited (the script's length
    /// once the dialogue is over).
    pub closed spec fn position(&self) -> nat {
        self.next as nat
    }

    /// The number a fallback message ID is made from.
    pub closed spec fn fallback(&self) -> u64 {
        self.fallback_id
    }

    /// Start a dialogue: the first action carries out the first step.
    pub fn start(steps: Vec<SmtpStep>, fallback_id: u64) -> (r: (SmtpSession, SmtpAction))
        requires
            steps@.len() > 0,
        ensures
            r.0.script() == steps_view(steps@),
            r.0.position() == 0,
            r.0.fallback() == fallback_id,
            performs(r.1, steps_view(steps@)[0]),
    {
        let a = action_for(&steps[0]);
        (SmtpSession { steps, next: 0, fallback_id }, a)
    }

    /// Whether the dialogue is over.
    pub fn finished(&self) -> (b: bool)
        ensures
            b == (self.position() >= self.script().len()),
    {
        self.next >= self.steps.len()
    }

    /// Take the reply to the current step and decide what to do next.
    ///
    /// A reply that does not begin with the step's status digit ends the
    /// dialogue with a provider error: the step's label followed by the
    /// reply. After the last step the dialogue ends in success, with the
    /// message ID taken from the last reply. Otherwise the next step is
    /// carried out.
    pub fn on_reply(&mut self, reply: &str) -> (a: SmtpAction)
        requires
            old(self).position() < old(self).script().len(),
        ensures
            final(self).script() == old(self).script(),
            final(self).fallback() == old(self).fallback(),
            ({
                let i = old(self).position() as int;
                let s = old(self).script()[i];
                &&& !reply_accepted(s, reply@) ==> (a matches SmtpAction::Done(Err(EmailError::Provider(m)))
                    && m@ == s.label + reply@ && final(self).position() == old(self).script().len())
                &&& reply_accepted(s, reply@) && i + 1 == old(self).script().len() ==> (a matches SmtpAction::Done(Ok(res))
                    && res.message_id@ == message_id_of(reply@, old(self).fallback()) && res.provider@ == "smtp"@
                    && final(self).position() == old(self).script().len())
                &&& reply_accepted(s, reply@) && i + 1 < old(self).script().len() ==> final(self).position() == i + 1
                    && performs(a, old(self).script()[i + 1])
            }),
    {
        let i = self.next;
        let len = self.steps.len();
        let accepted = match self.steps[i].expect {
            Some(c) => reply_starts_with(reply, c),
            None => true,
        };
        proof {
            assert(self.steps@[i as int]@ == self.script()[i as int]);
        }
        if !accepted {
            let mut m = self.steps[i].label.clone();
            m.append(reply);
            self.next = len;
            return SmtpAction::Done(Err(EmailError::Provider(m)));
        }
        if i + 1 == len {
            let id = match extract_message_id(reply) {
                Some(id) => id,
                None => {
                    let mut s = String::from_str("smtp-");
                    push_fixed_hex(&mut s, self.fallback_id, 16);
                    s
                },
            };
            self.next = len;
            return SmtpAction::Done(Ok(SendResult { message_id: id, provider: string_of("smtp") }));
        }
        self.next = i + 1;
        proof {
            assert(self.steps@[i + 1]@ == self.script()[i + 1]);
        }
        action_for(&self.steps[i + 1])
    }
}

fn action_for(s: &SmtpStep) -> (a: SmtpAction)
    ensures
        performs(a, s@),
{
    match s.kind {
        StepKind::Read => SmtpAction::Read,
        StepKind::Command => SmtpAction::Send(s.text.clone()),
        StepKind::Body => SmtpAction::WriteBody(s.text.clone()),
        StepKind::Tls => SmtpAction::StartTls,
    }
}

} // verus!
