use ferrum_email::send::error::EmailError;
use ferrum_email::send::message::{Attachment, EmailMessage, EmailTag, Mailbox};

#[test]
fn test_mailbox_parse_name_and_email() {
    let mb: Mailbox = "Andrew <andrew@example.com>".parse().unwrap();
    assert_eq!(mb.name, Some("Andrew".to_string()));
    assert_eq!(mb.email, "andrew@example.com");
}

#[test]
fn test_mailbox_parse_email_only() {
    let mb: Mailbox = "andrew@example.com".parse().unwrap();
    assert_eq!(mb.name, None);
    assert_eq!(mb.email, "andrew@example.com");
}

#[test]
fn test_mailbox_display_with_name() {
    let mb = Mailbox::new("Andrew", "andrew@example.com");
    assert_eq!(mb.to_string(), "Andrew <andrew@example.com>");
}

#[test]
fn test_mailbox_display_email_only() {
    let mb = Mailbox::address("andrew@example.com");
    assert_eq!(mb.to_string(), "andrew@example.com");
}

#[test]
fn test_mailbox_from_str() {
    let mb = Mailbox::from("AutomataNexus <no-reply@automatanexus.com>");
    assert_eq!(mb.name, Some("AutomataNexus".to_string()));
    assert_eq!(mb.email, "no-reply@automatanexus.com");
}

#[test]
fn mailbox_quoted_name_and_spaces() {
    let mb = Mailbox::parse("  \"Jane Doe\"  <  jane@example.com >  ").unwrap();
    assert_eq!(mb.name.as_deref(), Some("Jane Doe"));
    assert_eq!(mb.email, "jane@example.com");
}

#[test]
fn mailbox_angle_form_without_name() {
    let mb = Mailbox::parse("<jane@example.com>").unwrap();
    assert_eq!(mb.name, None);
    assert_eq!(mb.email, "jane@example.com");
}

#[test]
fn mailbox_rejects_address_without_at() {
    match Mailbox::parse(" Jane <jane.example.com> ") {
        Err(EmailError::InvalidAddress(t)) => assert_eq!(t, "Jane <jane.example.com>"),
        other => panic!("unexpected: {:?}", other),
    }
    match Mailbox::parse("jane doe@example.com") {
        Err(EmailError::InvalidAddress(t)) => assert_eq!(t, "jane doe@example.com"),
        other => panic!("unexpected: {:?}", other),
    }
}

#[test]
fn mailbox_from_falls_back_to_the_whole_text() {
    let mb = Mailbox::from(" not an address ");
    assert_eq!(mb.name, None);
    assert_eq!(mb.email, " not an address ");
}

#[test]
fn mailbox_display_parses_back() {
    for mb in [Mailbox::new("Andrew Smith", "a@b.com"), Mailbox::address("x@y.org")] {
        let back = Mailbox::parse(&mb.to_string()).unwrap();
        assert_eq!(back.name, mb.name);
        assert_eq!(back.email, mb.email);
    }
}

#[test]
fn error_messages() {
    assert_eq!(EmailError::Render("x".into()).to_string(), "render error: x");
    assert_eq!(EmailError::Provider("x".into()).to_string(), "provider error: x");
    assert_eq!(EmailError::InvalidAddress("x".into()).to_string(), "invalid address: x");
    assert_eq!(EmailError::MissingField("x".into()).to_string(), "missing required field: x");
}

#[test]
fn message_defaults_and_parts() {
    let m = EmailMessage::default();
    assert_eq!(m.from.email, "noreply@example.com");
    assert!(m.to.is_empty() && m.subject.is_empty() && m.text.is_none());
    let tag = EmailTag::new("category", "welcome");
    assert_eq!((tag.name.as_str(), tag.value.as_str()), ("category", "welcome"));
    let a = Attachment::from_bytes("a.txt", vec![1, 2, 3], "text/plain");
    assert_eq!(a.filename, "a.txt");
    assert_eq!(a.content, vec![1, 2, 3]);
    assert!(a.content_id.is_none());
}
