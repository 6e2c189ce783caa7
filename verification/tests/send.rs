use ferrum_email::components::body::Body;
use ferrum_email::components::html::Html;
use ferrum_email::components::text::Text;
use ferrum_email::email_core::component::Component;
use ferrum_email::email_core::node::Node;
use ferrum_email::relay::{failure_note, group_by_domain, ipv4_from_dig, relay_error, relay_status};
use ferrum_email::relay_run::{RelayAction, RelayRun, RelayStage};
use ferrum_email::send::console::ConsoleProvider;
use ferrum_email::send::direct::{
    is_valid_mx_domain, parse_mx_hosts, recipient_domain, supports_starttls, DirectMxProvider,
};
use ferrum_email::send::error::EmailError;
use ferrum_email::send::message::{Attachment, EmailMessage, Mailbox};
use ferrum_email::send::mime::build_mime_with;
use ferrum_email::send::mx_delivery::{recipient_list, DeliveryAction, DeliveryStage, Lookup, MxDelivery};
use ferrum_email::send::mx_session::{MxAction, MxFlavor, MxSession};
use ferrum_email::send::sender::Sender;
use ferrum_email::send::shield::{message_checkable, shield_can_check, validate_outbound};
use ferrum_email::send::smtp::{
    dot_stuff, extract_message_id, is_final_reply_line, reply_starts_with, smtp_script_for, SmtpAction,
    SmtpAuth, SmtpProvider, SmtpSession,
};
use ferrum_email::send::vault::{custom_key, port_from_secret, vault_error, vault_key};

struct WelcomeEmail {
    name: String,
}

impl Component for WelcomeEmail {
    fn subject(&self) -> Option<&str> {
        Some("Welcome to AutomataNexus")
    }

    fn render(&self) -> Node {
        Html::new()
            .child(Body::new().child(Text::new(&format!("Welcome, {}!", self.name))))
            .into_node()
    }
}

struct SimpleEmail;

impl Component for SimpleEmail {
    fn subject(&self) -> Option<&str> {
        Some("Hello!")
    }

    fn render(&self) -> Node {
        Html::new().child(Body::new().child(Text::new("Hello, World!"))).into_node()
    }
}

fn message_to(to: &str) -> EmailMessage {
    let mut m = EmailMessage::default();
    m.from = Mailbox::address("sender@example.com");
    m.to = vec![Mailbox::address(to)];
    m.subject = "Hi".to_string();
    m.html = "<p>Hi</p>".to_string();
    m
}

// ---------------------------------------------------------------------------
// Sender and console provider
// ---------------------------------------------------------------------------

#[test]
fn send_via_console_provider() {
    let sender = Sender::new("AutomataNexus <no-reply@automatanexus.com>");
    let email = WelcomeEmail { name: "Andrew".into() };
    let message = sender.compose(&email, Mailbox::from_text("andrew@example.com")).unwrap();
    let (report, result) = ConsoleProvider::new().send(&message, 1);

    assert_eq!(result.provider, "console");
    assert!(result.message_id.starts_with("console-"));
    assert_eq!(result.message_id, "console-00000001");
    assert!(report.contains("andrew@example.com"));
    assert!(report.contains("Welcome to AutomataNexus"));
}

#[test]
fn send_batch_via_console_provider() {
    let sender = Sender::new("test@example.com");
    let email = SimpleEmail;
    let recipients = vec![Mailbox::address("user1@example.com"), Mailbox::address("user2@example.com")];
    let messages = sender.compose_batch(&email, recipients).unwrap();
    let provider = ConsoleProvider::new();
    let results: Vec<_> = messages.iter().enumerate().map(|(i, m)| provider.send(m, i as u64 + 1).1).collect();

    assert_eq!(results.len(), 2);
    for result in &results {
        assert_eq!(result.provider, "console");
    }
    assert_eq!(messages[1].to[0].email, "user2@example.com");
    assert_eq!(messages[0].html, messages[1].html);
}

#[test]
fn compose_fills_message_fields() {
    let sender = Sender::new("Team <team@example.com>");
    let message = sender.compose(&SimpleEmail, Mailbox::address("a@example.com")).unwrap();
    assert_eq!(message.from.name.as_deref(), Some("Team"));
    assert_eq!(message.from.email, "team@example.com");
    assert_eq!(message.subject, "Hello!");
    assert!(message.html.starts_with("<!DOCTYPE html>"));
    assert!(message.text.as_deref().unwrap().contains("Hello, World!"));
}

#[test]
fn console_report_truncates_long_html() {
    let mut m = message_to("a@example.com");
    m.html = "x".repeat(600);
    let (report, _) = ConsoleProvider::new().send(&m, 42);
    assert!(report.contains("console-00000042"));
    assert!(report.contains("(600 chars total)"));
    let (full, _) = ConsoleProvider::new().full_html().send(&m, 42);
    assert!(!full.contains("chars total"));
}

#[test]
fn console_preview_counts_characters() {
    let mut m = message_to("a@example.com");
    m.html = format!("a{}", "\u{e9}".repeat(600));
    let (report, r) = ConsoleProvider::new().send(&m, 7);
    assert_eq!(r.provider, "console");
    assert_eq!(r.message_id, "console-00000007");
    let shown = format!("a{}... \x1b[2m(601 chars total)\x1b[0m", "\u{e9}".repeat(499));
    assert!(report.contains(&shown));
}

#[test]
fn console_ids_differ_for_different_counters() {
    let m = message_to("a@example.com");
    let (_, a) = ConsoleProvider::new().send(&m, 1);
    let (_, b) = ConsoleProvider::new().send(&m, 2);
    let (_, c) = ConsoleProvider::new().send(&m, 123456789);
    assert_eq!(a.message_id, "console-00000001");
    assert_eq!(c.message_id, "console-123456789");
    assert_ne!(a.message_id, b.message_id);
}

// ---------------------------------------------------------------------------
// SMTP replies and dialogue
// ---------------------------------------------------------------------------

#[test]
fn reply_line_continuation() {
    assert!(!is_final_reply_line("250-PIPELINING\r\n"));
    assert!(is_final_reply_line("250 OK\r\n"));
    assert!(!is_final_reply_line("250"));
    assert!(reply_starts_with("250 OK", '2'));
    assert!(!reply_starts_with("", '2'));
}

#[test]
fn message_id_is_last_word() {
    assert_eq!(extract_message_id("250 2.0.0 Ok: queued as 4F2A1\r\n").as_deref(), Some("4F2A1"));
    assert_eq!(extract_message_id("   \r\n"), None);
}

#[test]
fn smtp_builder_requires_host() {
    match SmtpProvider::builder().port(25).build() {
        Err(EmailError::MissingField(m)) => assert_eq!(m, "SMTP host is required"),
        _ => panic!("expected a missing host"),
    }
    let p = SmtpProvider::builder().host("smtp.example.com").credentials("u", "p").auth_plain().build().unwrap();
    assert_eq!(p.host(), "smtp.example.com");
    assert_eq!(p.port(), 587);
    assert!(matches!(p.auth(), Some(SmtpAuth::Plain { .. })));
}

fn run_session(steps: Vec<ferrum_email::send::smtp::SmtpStep>, replies: &[&str]) -> Vec<SmtpAction> {
    let (mut s, first) = SmtpSession::start(steps, 0xab);
    let mut actions = vec![first];
    for r in replies {
        if s.finished() {
            break;
        }
        actions.push(s.on_reply(r));
    }
    actions
}

#[test]
fn smtp_session_success() {
    let m = message_to("rcpt@example.com");
    let auth = Some(SmtpAuth::Login { username: "user".into(), password: "pass".into() });
    let steps = smtp_script_for(&m, &auth, "MIME", true);
    let replies = [
        "220 ready", "250 hello", "220 go ahead", "", "250 hello again", "334 VXNlcm5hbWU6",
        "334 UGFzc3dvcmQ6", "235 ok", "250 sender ok", "250 rcpt ok", "354 go", "", "250 2.0.0 queued as XYZ",
    ];
    let actions = run_session(steps, &replies);
    assert!(matches!(&actions[0], SmtpAction::Read));
    assert!(matches!(&actions[1], SmtpAction::Send(t) if t == "EHLO ferrum-email\r\n"));
    assert!(matches!(&actions[3], SmtpAction::StartTls));
    assert!(matches!(&actions[5], SmtpAction::Send(t) if t == "AUTH LOGIN\r\n"));
    assert!(matches!(&actions[6], SmtpAction::Send(t) if t == "dXNlcg==\r\n"));
    assert!(matches!(&actions[7], SmtpAction::Send(t) if t == "cGFzcw==\r\n"));
    assert!(matches!(&actions[8], SmtpAction::Send(t) if t == "MAIL FROM:<sender@example.com>\r\n"));
    assert!(matches!(&actions[9], SmtpAction::Send(t) if t == "RCPT TO:<rcpt@example.com>\r\n"));
    assert!(matches!(&actions[11], SmtpAction::WriteBody(t) if t == "MIME"));
    match &actions[13] {
        SmtpAction::Done(Ok(r)) => {
            assert_eq!(r.message_id, "XYZ");
            assert_eq!(r.provider, "smtp");
        }
        other => panic!("unexpected {other:?}"),
    }
}

#[test]
fn smtp_session_auth_plain_payload() {
    let m = message_to("rcpt@example.com");
    let auth = Some(SmtpAuth::Plain { username: "user".into(), password: "pass".into() });
    let steps = smtp_script_for(&m, &auth, "MIME", true);
    let actions = run_session(steps, &["220 ready", "250 hello", "220 go", "", "250 again"]);
    assert!(matches!(&actions[5], SmtpAction::Send(t) if t == "AUTH PLAIN AHVzZXIAcGFzcw==\r\n"));
}

#[test]
fn smtp_session_stops_at_rejection() {
    let m = message_to("rcpt@example.com");
    let steps = smtp_script_for(&m, &None, "MIME", true);
    let (mut s, _) = SmtpSession::start(steps, 1);
    match s.on_reply("554 go away") {
        SmtpAction::Done(Err(EmailError::Provider(msg))) => assert_eq!(msg, "SMTP greeting rejected: 554 go away"),
        other => panic!("unexpected {other:?}"),
    }
    assert!(s.finished());
}

#[test]
fn smtp_session_fallback_message_id() {
    let m = message_to("rcpt@example.com");
    let steps = smtp_script_for(&m, &None, "MIME", true);
    let replies = ["220", "250", "220", "", "250", "250", "250", "354", "", "250"];
    let actions = run_session(steps, &replies);
    match actions.last().unwrap() {
        SmtpAction::Done(Ok(r)) => assert_eq!(r.message_id, "250"),
        other => panic!("unexpected {other:?}"),
    }
    let steps = smtp_script_for(&m, &None, "MIME", true);
    let replies = ["220", "250", "220", "", "250", "250", "250", "354", "", "2  "];
    let actions = run_session(steps, &replies);
    match actions.last().unwrap() {
        SmtpAction::Done(Ok(r)) => assert_eq!(r.message_id, "2"),
        other => panic!("unexpected {other:?}"),
    }
}

#[test]
fn smtp_body_is_dot_stuffed() {
    let mut m = message_to("rcpt@example.com");
    m.html = "a\r\n.\r\nb".to_string();
    let mime = SmtpProvider::build_mime(&m);
    assert!(mime.contains("\r\n.\r\n"));
    let steps = smtp_script_for(&m, &None, &mime, true);
    let replies = ["220", "250", "220", "", "250", "250", "250", "354"];
    let actions = run_session(steps, &replies);
    match &actions[8] {
        SmtpAction::WriteBody(t) => {
            assert_eq!(t, &dot_stuff(&mime));
            assert!(t.contains("\r\n..\r\n"));
            assert!(!t.contains("\r\n.\r\n"));
        }
        other => panic!("unexpected {other:?}"),
    }
}

#[test]
fn dot_stuff_lines() {
    assert_eq!(dot_stuff(".a\r\nb.\r\n..c\n."), "..a\r\nb.\r\n...c\n..");
    assert_eq!(dot_stuff("no dots"), "no dots");
    assert_eq!(dot_stuff(""), "");
}

#[test]
fn smtp_session_without_starttls() {
    let p = SmtpProvider::builder().host("smtp.example.com").starttls(false).build().unwrap();
    assert!(!p.starttls());
    assert!(SmtpProvider::builder().host("smtp.example.com").build().unwrap().starttls());
    let m = message_to("rcpt@example.com");
    let steps = smtp_script_for(&m, &None, "MIME", p.starttls());
    let replies = ["220 ready", "250 hello", "250 sender ok", "250 rcpt ok", "354 go", "", "250 queued as Q1"];
    let actions = run_session(steps, &replies);
    assert!(matches!(&actions[0], SmtpAction::Read));
    assert!(matches!(&actions[1], SmtpAction::Send(t) if t == "EHLO ferrum-email\r\n"));
    assert!(matches!(&actions[2], SmtpAction::Send(t) if t == "MAIL FROM:<sender@example.com>\r\n"));
    assert!(actions.iter().all(|a| !matches!(a, SmtpAction::StartTls)));
    assert!(actions.iter().all(|a| !matches!(a, SmtpAction::Send(t) if t == "STARTTLS\r\n")));
    match actions.last().unwrap() {
        SmtpAction::Done(Ok(r)) => assert_eq!(r.message_id, "Q1"),
        other => panic!("unexpected {other:?}"),
    }
}

// ---------------------------------------------------------------------------
// MIME
// ---------------------------------------------------------------------------

#[test]
fn mime_html_only() {
    let m = message_to("rcpt@example.com");
    let mime = build_mime_with(&m, 1, 2, 3);
    assert!(mime.starts_with("From: sender@example.com\r\nTo: rcpt@example.com\r\nSubject: Hi\r\nMIME-Version: 1.0\r\n"));
    assert!(mime.ends_with("Content-Type: text/html; charset=UTF-8\r\nContent-Transfer-Encoding: 7bit\r\n\r\n<p>Hi</p>\r\n"));
    assert!(!mime.contains("boundary"));
}

#[test]
fn mime_text_and_html() {
    let mut m = message_to("rcpt@example.com");
    m.text = Some("Hi".into());
    let mime = build_mime_with(&m, 0x1f, 2, 3);
    assert!(mime.contains("Content-Type: multipart/alternative; boundary=\"ferrum-000000000000001f\"\r\n\r\n"));
    assert!(mime.contains("--ferrum-000000000000001f\r\nContent-Type: text/plain; charset=UTF-8\r\n"));
    assert!(mime.ends_with("--ferrum-000000000000001f--\r\n"));
}

#[test]
fn mime_attachment_is_base64() {
    let mut m = message_to("rcpt@example.com");
    m.attachments.push(Attachment::from_bytes("hello.txt", b"hello".to_vec(), "text/plain"));
    let mime = build_mime_with(&m, 1, 2, 3);
    assert!(mime.contains("Content-Type: multipart/mixed; boundary=\"ferrum-0000000000000001\""));
    assert!(mime.contains("Content-Type: multipart/alternative; boundary=\"ferrum-alt-0000000000000003\""));
    assert!(mime.contains("Content-Disposition: attachment; filename=\"hello.txt\"\r\n\r\naGVsbG8=\r\n"));
}

#[test]
fn mime_inline_image_uses_related() {
    let mut m = message_to("rcpt@example.com");
    let mut img = Attachment::from_bytes("logo.png", vec![1, 2, 3], "image/png");
    img.content_id = Some("logo".into());
    m.attachments.push(img);
    let mime = build_mime_with(&m, 1, 2, 3);
    assert!(mime.contains("Content-Type: multipart/related; boundary=\"ferrum-0000000000000001\""));
    assert!(mime.contains("Content-ID: <logo>\r\n"));
    assert!(mime.contains("AQID\r\n"));
}

// ---------------------------------------------------------------------------
// Direct MX delivery
// ---------------------------------------------------------------------------

#[test]
fn mx_hosts_ordered_by_priority() {
    let out = "20 mx2.example.com.\n10 mx1.example.com.\n10 mx1b.example.com.\nbogus line here\n";
    assert_eq!(parse_mx_hosts("example.com", out), vec!["mx1.example.com", "mx1b.example.com", "mx2.example.com"]);
    assert_eq!(parse_mx_hosts("example.com", ""), vec!["example.com"]);
}

#[test]
fn mx_domain_rules() {
    assert!(is_valid_mx_domain("mail.example-1.com"));
    assert!(!is_valid_mx_domain(""));
    assert!(!is_valid_mx_domain("example.com; rm -rf /"));
    assert_eq!(recipient_domain("a@b@example.org"), "example.org");
    assert_eq!(recipient_domain("nodomain"), "nodomain");
    assert!(supports_starttls("250-mx.example.com\r\n250-starttls\r\n250 OK\r\n"));
    assert!(!supports_starttls("250 OK\r\n"));
}

#[test]
fn mx_session_with_starttls() {
    let (mut s, first) = MxSession::start(MxFlavor::Direct, "mail.ferrum.dev", "mx1.example.com", "a@ferrum.dev", vec!["b@example.com".into()], "MIME", 7);
    assert!(matches!(first, MxAction::Read));
    assert!(matches!(s.on_reply("220 hi"), MxAction::Send(t) if t == "EHLO mail.ferrum.dev\r\n"));
    assert!(matches!(s.on_reply("250-x\r\n250 STARTTLS\r\n"), MxAction::Send(t) if t == "STARTTLS\r\n"));
    assert!(matches!(s.on_reply("220 go"), MxAction::StartTls));
    assert!(matches!(s.on_reply(""), MxAction::Send(t) if t == "EHLO mail.ferrum.dev\r\n"));
    assert!(matches!(s.on_reply("whatever"), MxAction::Send(t) if t == "MAIL FROM:<a@ferrum.dev>\r\n"));
    assert!(matches!(s.on_reply("250 ok"), MxAction::Send(t) if t == "RCPT TO:<b@example.com>\r\n"));
    assert!(matches!(s.on_reply("250 ok"), MxAction::Send(t) if t == "DATA\r\n"));
    assert!(matches!(s.on_reply("354 go"), MxAction::WriteBody(t) if t == "MIME"));
    assert!(matches!(s.on_reply(""), MxAction::Send(t) if t == "\r\n.\r\n"));
    assert!(matches!(s.on_reply("250 queued as Q1"), MxAction::Delivered(id) if id == "Q1"));
    assert!(s.finished());
}

#[test]
fn mx_session_plaintext_fallback_and_rejection() {
    let (mut s, _) = MxSession::start(MxFlavor::Direct, "h", "mx", "a@x", vec!["b@y".into()], "M", 0x10);
    s.on_reply("220 hi");
    assert!(matches!(s.on_reply("250-x\r\n250 STARTTLS\r\n"), MxAction::Send(t) if t == "STARTTLS\r\n"));
    assert!(matches!(s.on_reply("454 not now"), MxAction::Send(t) if t == "MAIL FROM:<a@x>\r\n"));
    match s.on_reply("550 no relay") {
        MxAction::Failed(EmailError::Provider(m)) => assert_eq!(m, "MX mx MAIL FROM rejected: 550 no relay"),
        other => panic!("unexpected {other:?}"),
    }
    let (mut s, _) = MxSession::start(MxFlavor::Direct, "h", "mx", "a@x", vec!["b@y".into()], "M", 0x10);
    s.on_reply("220 hi");
    s.on_reply("250 OK");
    s.on_reply("250 ok");
    match s.on_reply("550 unknown user") {
        MxAction::Failed(EmailError::Provider(m)) => assert_eq!(m, "MX mx RCPT TO <b@y> rejected: 550 unknown user"),
        other => panic!("unexpected {other:?}"),
    }
}

#[test]
fn mx_session_fallback_id() {
    let (mut s, _) = MxSession::start(MxFlavor::Direct, "h", "mx", "a@x", vec!["b@y".into()], "M", 0x10);
    for r in ["220", "250", "250", "250", "354", ""] {
        s.on_reply(r);
    }
    assert!(matches!(s.on_reply("2 "), MxAction::Delivered(id) if id == "2"));
    let (mut s, _) = MxSession::start(MxFlavor::Direct, "h", "mx", "a@x", vec!["b@y".into()], "M", 0x10);
    for r in ["220 a", "250 b", "250 c", "250 d", "354 e", ""] {
        s.on_reply(r);
    }
    match s.on_reply("550 spam") {
        MxAction::Failed(EmailError::Provider(m)) => assert_eq!(m, "MX mx message rejected: 550 spam"),
        other => panic!("unexpected {other:?}"),
    }
}

#[test]
fn mx_delivery_tries_hosts_in_order() {
    let (mut plan, a) = MxDelivery::start(vec!["a@example.com".into()]);
    assert!(matches!(a, DeliveryAction::Resolve(d) if d == "example.com"));
    let a = plan.on_lookup(Lookup::Ran { success: true, output: "20 mx2.example.com.\n10 mx1.example.com.\n".into() });
    assert!(matches!(a, DeliveryAction::Deliver { ref host, ref recipient } if host == "mx1.example.com" && recipient == "a@example.com"));
    let a = plan.on_delivery(Err(EmailError::Provider("down".into())));
    assert!(matches!(a, DeliveryAction::Deliver { ref host, .. } if host == "mx2.example.com"));
    match plan.on_delivery(Err(EmailError::Provider("refused".into()))) {
        DeliveryAction::Finish(Err(EmailError::Provider(m))) => {
            assert_eq!(m, "delivery to <a@example.com> failed (tried 2 MX hosts): provider error: refused")
        }
        other => panic!("unexpected {other:?}"),
    }
    assert_eq!(plan.waiting_for(), DeliveryStage::Over);
}

#[test]
fn mx_delivery_reports_last_message_id() {
    let (mut plan, _) = MxDelivery::start(vec!["a@one.com".into(), "b@two.com".into()]);
    plan.on_lookup(Lookup::Ran { success: true, output: String::new() });
    let a = plan.on_delivery(Ok("ID1".into()));
    assert!(matches!(a, DeliveryAction::Resolve(d) if d == "two.com"));
    let a = plan.on_lookup(Lookup::Ran { success: true, output: String::new() });
    assert!(matches!(a, DeliveryAction::Deliver { ref host, .. } if host == "two.com"));
    match plan.on_delivery(Ok("ID2".into())) {
        DeliveryAction::Finish(Ok(r)) => {
            assert_eq!(r.message_id, "ID2");
            assert_eq!(r.provider, "nexus-relay");
        }
        other => panic!("unexpected {other:?}"),
    }
}

#[test]
fn mx_delivery_lookup_errors() {
    let (_, a) = MxDelivery::start(vec!["x@bad domain".into()]);
    assert!(matches!(a, DeliveryAction::Finish(Err(EmailError::Provider(ref m))) if m == "Invalid domain for MX lookup: bad domain"));
    let (mut plan, _) = MxDelivery::start(vec!["x@example.com".into()]);
    let a = plan.on_lookup(Lookup::Ran { success: false, output: String::new() });
    assert!(matches!(a, DeliveryAction::Finish(Err(EmailError::Provider(ref m))) if m == "DNS MX lookup failed for example.com"));
    let (mut plan, _) = MxDelivery::start(vec!["x@example.com".into()]);
    let a = plan.on_lookup(Lookup::NotRun("not found".into()));
    assert!(matches!(a, DeliveryAction::Finish(Err(EmailError::Provider(ref m))) if m == "DNS MX lookup failed for example.com: not found"));
    let (_, a) = MxDelivery::start(vec![]);
    assert!(matches!(a, DeliveryAction::Finish(Ok(ref r)) if r.message_id.is_empty()));
}

#[test]
fn direct_provider_plans_every_recipient() {
    let mut m = message_to("a@one.com");
    m.cc.push(Mailbox::address("b@two.com"));
    m.bcc.push(Mailbox::address("c@three.com"));
    assert_eq!(recipient_list(&m), vec!["a@one.com", "b@two.com", "c@three.com"]);
    let p = DirectMxProvider::new("mail.ferrum.dev");
    assert_eq!(p.ehlo_domain(), "mail.ferrum.dev");
    let (_, a) = p.plan(&m);
    assert!(matches!(a, DeliveryAction::Resolve(d) if d == "one.com"));
    let (_, a) = p.dialogue("mx", "a@x", "b@y", "M");
    assert!(matches!(a, MxAction::Read));
}

// ---------------------------------------------------------------------------
// Vault helpers
// ---------------------------------------------------------------------------

#[test]
fn vault_keys_and_port() {
    assert_eq!(vault_key("smtp/host"), "ferrum-email/smtp/host");
    assert_eq!(custom_key("x"), "custom/x");
    assert_eq!(port_from_secret("587").unwrap(), 587);
    match port_from_secret("70000") {
        Err(EmailError::Provider(m)) => assert_eq!(m, "invalid SMTP port in vault: 70000"),
        other => panic!("unexpected {other:?}"),
    }
    match vault_error("vault open failed", "bad key") {
        EmailError::Provider(m) => assert_eq!(m, "vault open failed: bad key"),
        other => panic!("unexpected {other:?}"),
    }
}

// ---------------------------------------------------------------------------
// Relay helpers
// ---------------------------------------------------------------------------

#[test]
fn relay_groups_recipients_by_domain() {
    let to = vec!["a@Example.com".to_string(), "b@other.org".to_string(), "c@example.COM".to_string()];
    let groups = group_by_domain(&to);
    assert_eq!(groups.len(), 2);
    assert_eq!(groups[0].domain, "example.com");
    assert_eq!(groups[0].recipients, vec!["a@Example.com", "c@example.COM"]);
    assert_eq!(groups[1].domain, "other.org");
}

#[test]
fn relay_outcome_texts() {
    assert_eq!(ipv4_from_dig("mx", "some.cname.\n93.184.216.34\n").unwrap(), "93.184.216.34");
    assert_eq!(ipv4_from_dig("mx", "").unwrap_err(), "no A record for mx");
    assert_eq!(relay_status(true), "sent");
    assert_eq!(relay_status(false), "partial");
    assert_eq!(failure_note("a@x", "boom"), "a@x: boom");
    assert_eq!(relay_error(0, &vec!["a: x".into(), "b: y".into()]).unwrap(), "a: x; b: y");
    assert_eq!(relay_error(1, &vec!["a: x".into()]), None);
    assert_eq!(relay_error(0, &vec![]), None);
}

#[test]
fn relay_session_several_recipients() {
    let rcpts = vec!["a@x.com".to_string(), "b@x.com".to_string()];
    let (mut s, _) = MxSession::start(MxFlavor::Relay, "relay.ferrum-mail.com", "mx.x.com", "f@y", rcpts, "M", 0);
    s.on_reply("220 hi");
    assert!(matches!(s.on_reply("250 OK"), MxAction::Send(t) if t == "MAIL FROM:<f@y>\r\n"));
    assert!(matches!(s.on_reply("250 ok"), MxAction::Send(t) if t == "RCPT TO:<a@x.com>\r\n"));
    assert!(matches!(s.on_reply("250 ok"), MxAction::Send(t) if t == "RCPT TO:<b@x.com>\r\n"));
    match s.on_reply("550 no such user") {
        MxAction::Failed(EmailError::Provider(m)) => assert_eq!(m, "RCPT TO <b@x.com>: 550 no such user"),
        other => panic!("unexpected {other:?}"),
    }
    let (mut s, _) = MxSession::start(MxFlavor::Relay, "r", "mx", "f@y", vec![], "M", 0);
    for r in ["220", "250", "250"] {
        s.on_reply(r);
    }
    assert!(matches!(s.on_reply("354"), MxAction::WriteBody(_)));
    s.on_reply("");
    assert!(matches!(s.on_reply("250   "), MxAction::Delivered(id) if id == "250"));
    let (mut s, _) = MxSession::start(MxFlavor::Relay, "r", "mx", "f@y", vec![], "M", 0);
    match s.on_reply("421 busy") {
        MxAction::Failed(EmailError::Provider(m)) => assert_eq!(m, "greeting: 421 busy"),
        other => panic!("unexpected {other:?}"),
    }
}

#[test]
fn relay_run_partial_delivery() {
    let to = vec!["a@one.com".to_string(), "b@Two.com".to_string(), "c@one.com".to_string()];
    let (mut run, a) = RelayRun::start(&to);
    assert!(matches!(a, RelayAction::LookupMx(ref d) if d == "one.com"));
    let a = run.on_mx(Lookup::Ran { success: true, output: "10 mx.one.com.\n".into() });
    assert!(matches!(a, RelayAction::LookupA(ref h) if h == "mx.one.com"));
    let a = run.on_address(Lookup::Ran { success: true, output: "1.2.3.4\n".into() });
    match a {
        RelayAction::Deliver { ip, host, recipients } => {
            assert_eq!(ip, "1.2.3.4");
            assert_eq!(host, "mx.one.com");
            assert_eq!(recipients, vec!["a@one.com", "c@one.com"]);
        }
        other => panic!("unexpected {other:?}"),
    }
    let a = run.on_delivery(Ok("MID1".into()));
    assert!(matches!(a, RelayAction::LookupMx(ref d) if d == "two.com"));
    let a = run.on_mx(Lookup::Ran { success: false, output: String::new() });
    match a {
        RelayAction::Finish(Ok(reply)) => {
            assert_eq!(reply.message_id, "MID1");
            assert_eq!(reply.status, "partial");
            assert_eq!(reply.delivered, 2);
            assert_eq!(reply.failed, vec!["b@Two.com: dig failed for two.com"]);
        }
        other => panic!("unexpected {other:?}"),
    }
    assert_eq!(run.waiting_for(), RelayStage::Over);
}

#[test]
fn relay_run_everything_failed() {
    let to = vec!["a@bad domain".to_string(), "b@x.org".to_string()];
    let (mut run, a) = RelayRun::start(&to);
    assert!(matches!(a, RelayAction::LookupMx(ref d) if d == "x.org"));
    let a = run.on_mx(Lookup::Ran { success: true, output: String::new() });
    assert!(matches!(a, RelayAction::LookupA(ref h) if h == "x.org"));
    let a = run.on_address(Lookup::Ran { success: true, output: "alias.x.org.\n".into() });
    match a {
        RelayAction::Finish(Err(e)) => assert_eq!(
            e,
            "a@bad domain: invalid domain: bad domain; b@x.org: all MX hosts failed: no A record for x.org"
        ),
        other => panic!("unexpected {other:?}"),
    }
}

#[test]
fn relay_run_next_host_after_failure() {
    let (mut run, _) = RelayRun::start(&vec!["a@x.org".to_string()]);
    run.on_mx(Lookup::Ran { success: true, output: "5 a.x.org.\n9 b.x.org.\n".into() });
    run.on_address(Lookup::Ran { success: true, output: "1.1.1.1".into() });
    let a = run.on_delivery(Err("connect a.x.org: refused".into()));
    assert!(matches!(a, RelayAction::LookupA(ref h) if h == "b.x.org"));
    let a = run.on_address(Lookup::NotRun("no dig".into()));
    match a {
        RelayAction::Finish(Err(e)) => assert_eq!(e, "a@x.org: all MX hosts failed: dig A b.x.org: no dig"),
        other => panic!("unexpected {other:?}"),
    }
    let (_, a) = RelayRun::start(&vec![]);
    match a {
        RelayAction::Finish(Ok(reply)) => {
            assert_eq!(reply.status, "sent");
            assert_eq!(reply.delivered, 0);
        }
        other => panic!("unexpected {other:?}"),
    }
}

#[test]
fn shield_validation() {
    assert!(validate_outbound(&message_to("rcpt@example.com")).is_ok());
    match validate_outbound(&message_to("x@localhost")) {
        Err(EmailError::Provider(m)) => assert!(m.starts_with("Shield: recipient <x@localhost> rejected: Email security violation: ")),
        other => panic!("unexpected {other:?}"),
    }
    let mut m = message_to("rcpt@example.com");
    m.subject = "Hi\r\nBcc: victim@example.com".into();
    match validate_outbound(&m) {
        Err(EmailError::Provider(msg)) => assert!(msg.starts_with("Shield: subject rejected: ")),
        other => panic!("unexpected {other:?}"),
    }
    let mut m = message_to("bad-address");
    m.subject = "Hi\r\n".into();
    match validate_outbound(&m) {
        Err(EmailError::Provider(msg)) => assert!(msg.starts_with("Shield: recipient <bad-address> rejected: ")),
        other => panic!("unexpected {other:?}"),
    }
}

struct InjectedEmail;

impl Component for InjectedEmail {
    fn subject(&self) -> Option<&str> {
        Some("Hi\r\nBcc: x@evil.com")
    }

    fn render(&self) -> Node {
        Html::new().child(Body::new().child(Text::new("Hello"))).into_node()
    }
}

#[test]
fn prepare_checks_through_the_shield() {
    let sender = Sender::new("AutomataNexus <no-reply@automatanexus.com>");
    match sender.prepare(&InjectedEmail, Mailbox::address("andrew@example.com")) {
        Err(EmailError::Provider(msg)) => assert!(msg.starts_with("Shield: subject rejected: ")),
        other => panic!("unexpected {other:?}"),
    }
    let m = sender.prepare(&SimpleEmail, Mailbox::address("andrew@example.com")).unwrap();
    assert_eq!(m.subject, "Hello!");
    assert_eq!(m.to.len(), 1);
    assert_eq!(m.to[0].email, "andrew@example.com");
    assert_eq!(m.text.as_deref(), Some("Hello, World!"));
}

#[test]
fn shield_checkability() {
    assert!(shield_can_check("andrew@example.com"));
    let long = format!("a{}", "\u{e9}".repeat(30));
    assert!(!shield_can_check(&long));
    assert!(shield_can_check(&format!("{long}@example.com")));
    assert!(message_checkable(&message_to("rcpt@example.com")));
    assert!(!message_checkable(&message_to(&long)));
}

#[test]
fn shield_rate_limits_each_recipient() {
    let mut m = message_to("rcpt@example.com");
    for _ in 0..4 {
        m.to.push(Mailbox::address("rcpt@example.com"));
    }
    m.to.push(Mailbox::address("other@example.com"));
    assert!(validate_outbound(&m).is_ok());
    m.to.push(Mailbox::address("RCPT@example.com"));
    match validate_outbound(&m) {
        Err(EmailError::Provider(msg)) => assert!(msg.starts_with("Shield: rate limit for <RCPT@example.com>: ")),
        other => panic!("unexpected {other:?}"),
    }
}
