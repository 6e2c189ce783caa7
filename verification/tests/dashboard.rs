use ferrum_email::cli::{folder_line, history_line, inbox_line, key_line, readable_body, replace_text, send_html};
use ferrum_email::email_core::component::Component;
use ferrum_email::render::renderer::Renderer;
use ferrum_email::tui::app::{App, ComposeField, Mode, Session, Tab};
use ferrum_email::tui::clock::{days_to_date, format_utc};
use ferrum_email::tui::keys::{dashboard_action, Action, Key, LoginForm, LoginStep};
use ferrum_email::tui::templates::{
    compose_to_html, render_template, template_count, template_for, template_meta, Template,
};

fn session() -> Session {
    Session {
        token: "t".into(),
        username: "andrew".into(),
        email: "andrew@example.com".into(),
        display_name: "Andrew".into(),
        api_key: Some("key".into()),
    }
}

// ---------------------------------------------------------------------------
// Dates
// ---------------------------------------------------------------------------

#[test]
fn civil_dates() {
    assert_eq!(days_to_date(0), (1970, 1, 1));
    assert_eq!(days_to_date(31), (1970, 2, 1));
    assert_eq!(days_to_date(19723), (2024, 1, 1));
    assert_eq!(days_to_date(19782), (2024, 2, 29));
    assert_eq!(days_to_date(19783), (2024, 3, 1));
    assert_eq!(days_to_date(10957), (2000, 1, 1));
}

#[test]
fn utc_timestamps() {
    assert_eq!(format_utc(0), "1970-01-01 00:00:00 UTC");
    assert_eq!(format_utc(1_709_208_000 + 3_723), "2024-02-29 13:02:03 UTC");
}

// ---------------------------------------------------------------------------
// Templates
// ---------------------------------------------------------------------------

#[test]
fn template_catalogue() {
    assert_eq!(template_count(), 4);
    assert_eq!(template_meta(0).name, "Welcome Email");
    assert_eq!(template_meta(3).subject, "Ferrum Email \u{2014} Test Send");
}

#[test]
fn templates_render_for_recipient() {
    let t = template_for(0, "andrew@example.com", "now");
    assert!(matches!(t, Template::Welcome(ref w) if w.name == "andrew"));
    assert_eq!(t.subject(), Some("Welcome to AutomataNexus"));
    let html = Renderer::default().render_html(&t).unwrap();
    assert!(html.contains("Welcome, andrew!"));
    assert!(html.contains("https://automatanexus.com/verify/demo"));

    let alert = template_for(2, "jo@example.com", "2024-01-01 00:00:00 UTC");
    let html = Renderer::default().render_html(&alert).unwrap();
    assert!(html.contains("2024-01-01 00:00:00 UTC"));
    assert!(html.contains("Warsaw, IN"));

    let test = render_template(3, "x@example.com");
    assert_eq!(test.subject(), Some("Ferrum Email \u{2014} Test Send"));
}

#[test]
fn composed_html_has_paragraphs() {
    let html = compose_to_html("Hello", "First line\nSecond line");
    assert!(html.starts_with("<!DOCTYPE html>\n"));
    assert!(html.contains("Hello"));
    assert!(html.contains("First line"));
    assert!(html.contains("Second line"));
}

// ---------------------------------------------------------------------------
// Keys
// ---------------------------------------------------------------------------

#[test]
fn dashboard_keys() {
    assert_eq!(dashboard_action(Mode::Normal, Tab::Dashboard, Key::Char('q'), false), Action::Quit);
    assert_eq!(dashboard_action(Mode::Compose, Tab::Compose, Key::Char('c'), true), Action::Quit);
    assert_eq!(dashboard_action(Mode::Normal, Tab::Compose, Key::Enter, false), Action::EnterCompose);
    assert_eq!(dashboard_action(Mode::Normal, Tab::Templates, Key::Enter, false), Action::Preview);
    assert_eq!(dashboard_action(Mode::Compose, Tab::Compose, Key::Char('s'), true), Action::ComposeSend);
    assert_eq!(dashboard_action(Mode::Compose, Tab::Compose, Key::Char('s'), false), Action::TypeChar('s'));
    assert_eq!(dashboard_action(Mode::Compose, Tab::Compose, Key::Enter, false), Action::Newline);
    assert_eq!(dashboard_action(Mode::Preview, Tab::Templates, Key::Char('j'), false), Action::ScrollDown);
    assert_eq!(dashboard_action(Mode::Sending, Tab::Templates, Key::Char('q'), false), Action::Nothing);
}

#[test]
fn login_form_flow() {
    let mut f = LoginForm::new();
    assert_eq!(f.email_shown(), "you@example.com");
    assert_eq!(f.on_key(Key::Enter, false), LoginStep::Continue);
    assert_eq!(f.status_line(), "  Enter email and password");
    for c in "a@b".chars() {
        f.on_key(Key::Char(c), false);
    }
    f.on_key(Key::Backspace, false);
    assert_eq!(f.email, "a@");
    f.on_key(Key::Tab, false);
    for c in "pw".chars() {
        f.on_key(Key::Char(c), false);
    }
    assert_eq!(f.password_shown(), "**");
    assert_eq!(f.on_key(Key::Enter, false), LoginStep::Submit);
    assert_eq!(f.status_line(), "  Signing in...");
    f.on_login_failed("bad password".into());
    assert_eq!(f.status_line(), "  bad password");
    assert_eq!(f.on_key(Key::Esc, false), LoginStep::Cancel);
}

// ---------------------------------------------------------------------------
// Dashboard state
// ---------------------------------------------------------------------------

#[test]
fn tabs_cycle() {
    let mut app = App::new(session(), Renderer::default());
    assert_eq!(app.tab, Tab::Dashboard);
    for _ in 0..5 {
        app.next_tab();
    }
    assert_eq!(app.tab, Tab::Dashboard);
    app.prev_tab();
    app.next_tab();
    assert_eq!(app.tab, Tab::Dashboard);
    assert!(app.preview_html.contains("Welcome, andrew!"));
}

#[test]
fn compose_typing_and_sending() {
    let mut app = App::new(session(), Renderer::default());
    app.enter_compose();
    assert_eq!(app.mode, Mode::Compose);
    assert!(app.begin_compose_send().is_none());
    assert_eq!(app.message.as_ref().unwrap().0, "To and Subject are required");
    for c in "bob@example.com".chars() {
        app.compose_type_char(c);
    }
    app.compose_next_field();
    assert_eq!(app.compose_field, ComposeField::Subject);
    for c in "Hi!".chars() {
        app.compose_type_char(c);
    }
    app.compose_backspace();
    app.compose_newline();
    assert_eq!(app.compose_subject, "Hi");
    app.compose_next_field();
    app.compose_type_char('x');
    app.compose_newline();
    app.compose_type_char('y');
    let out = app.begin_compose_send().unwrap();
    assert_eq!(app.mode, Mode::Sending);
    assert_eq!(out.to, "bob@example.com");
    assert_eq!(out.subject, "Hi");
    assert_eq!(out.text.as_deref(), Some("x\ny"));
    app.finish_compose_send(Ok("M1".into()));
    assert_eq!(app.mode, Mode::Normal);
    assert_eq!(app.message.as_ref().unwrap().0, "Sent to bob@example.com (ID: M1)");
    assert_eq!(app.compose_subject, "");
    assert_eq!(app.compose_to, "bob@example.com");
    assert_eq!(app.send_history.last().unwrap().template, "Composed");
}

#[test]
fn send_selected_template() {
    let mut app = App::new(session(), Renderer::default());
    app.next_item();
    assert_eq!(app.selected_template, 0);
    app.next_tab();
    app.next_tab();
    assert_eq!(app.tab, Tab::Templates);
    app.next_item();
    assert_eq!(app.selected_template, 1);
    let out = app.begin_send_selected();
    assert_eq!(out.to, "andrew@example.com");
    assert_eq!(out.subject, "Reset your password");
    app.finish_send_selected(Err("offline".into()));
    assert_eq!(app.message.as_ref().unwrap(), &("Send failed: offline".to_string(), true));
    app.begin_send_selected();
    app.finish_send_selected(Ok("ID9".into()));
    assert_eq!(app.message.as_ref().unwrap().0, "Sent \"Password Reset\" to andrew@example.com (ID: ID9)");
    assert_eq!(app.send_history.len(), 1);
}

// ---------------------------------------------------------------------------
// Command line helpers
// ---------------------------------------------------------------------------

#[test]
fn cli_text_helpers() {
    assert_eq!(replace_text("a-b-c", "-", "+"), "a+b+c");
    assert_eq!(
        send_html("one\ntwo"),
        "<div style=\"font-family:-apple-system,sans-serif;color:#2D2A26;font-size:15px;line-height:1.6\">one<br>two</div>"
    );
    assert_eq!(readable_body("plain text"), "plain text");
    assert_eq!(readable_body("<p>Hello</p><p>World<br>again</p>"), "Hello\n\nWorld\nagain");
    assert_eq!(key_line("fe_live_abc", false, "2024-01-01"), "fe_live_abc          active       2024-01-01");
    assert_eq!(
        history_line("2024-01-01T10:00:00Z", "a@b.c", "sent", "ID"),
        format!("{:<12} {:<30} {:<10} {}", "2024-01-01", "a@b.c", "sent", "ID")
    );
}

#[test]
fn cli_mailbox_lines() {
    assert_eq!(
        inbox_line(false, "2024-05-06T07:08:09Z", "Ann", "Hello", "0123456789abcdef"),
        format!("* 2024-05-06  {:<20}  {:<40}  {}", "Ann", "Hello", "01234567")
    );
    assert_eq!(inbox_line(true, "", "a", "b", "xy"), format!("  {}  {:<20}  {:<40}  xy", "", "a", "b"));
    assert_eq!(folder_line("inbox", 12, 3), format!("{:<12} {:>6} {:>6}", "inbox", 12, 3));
    assert_eq!(folder_line("a-very-long-folder-name", 1234567, 0), "a-very-long-folder-name 1234567      0");
}
