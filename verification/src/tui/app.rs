//! Application state of the dashboard and the decisions taken on each key.
//!
//! Talking to the mail service (sending, fetching statistics) is the
//! caller's part: the state says what to send and takes the answers back.

use vstd::prelude::*;
use crate::text::{chars_of, push_chars, push_char, string_of};
use crate::email_core::component::Component;
use crate::render::renderer::{Renderer, document};
use crate::render::text_extractor::{extract_text, plain_text_of};
use crate::tui::templates::{Template, render_template, template_is, template_count, template_meta, meta_text, spec_template_count, template_subject};

verus! {

broadcast use vstd::string::group_string_axioms;

/// The dashboard's tabs.
#[derive(Debug, Clone, Copy, PartialEq, Eq, Structural)]
pub enum Tab {
    Dashboard,
    Compose,
    Templates,
    Preview,
    SendHistory,
}

/// The tab at position `i` of the tab bar.
pub open spec fn tab_at(i: int) -> Tab {
    if i == 0 {
        Tab::Dashboard
    } else if i == 1 {
        Tab::Compose
    } else if i == 2 {
        Tab::Templates
    } else if i == 3 {
        Tab::Preview
    } else {
        Tab::SendHistory
    }
}

/// The number of tabs.
pub open spec fn tab_count() -> int {
    5
}

/// The position of the tab after position `i` (wrapping).
pub open spec fn next_tab_index(i: int) -> int {
    (i + 1) % tab_count()
}

/// The position of the tab before position `i` (wrapping).
pub open spec fn prev_tab_index(i: int) -> int {
    if i == 0 { tab_count() - 1 } else { i - 1 }
}

/// Law: going to the next tab and then to the previous one (or the other
/// way round) comes back to the same tab.
pub proof fn lemma_tab_round_trip(i: int)
    requires
        0 <= i < tab_count(),
    ensures
        prev_tab_index(next_tab_index(i)) == i,
        next_tab_index(prev_tab_index(i)) == i,
        tab_at(prev_tab_index(next_tab_index(i))) == tab_at(i),
{
}

/// Law: five steps to the next tab come back to the same tab.
pub proof fn lemma_tab_cycle(i: int)
    requires
        0 <= i < tab_count(),
    ensures
        next_tab_index(next_tab_index(next_tab_index(next_tab_index(next_tab_index(i))))) == i,
{
}

fn tab_at_exec(i: usize) -> (t: Tab)
    ensures
        t == tab_at(i as int),
{
    if i == 0 {
        Tab::Dashboard
    } else if i == 1 {
        Tab::Compose
    } else if i == 2 {
        Tab::Templates
    } else if i == 3 {
        Tab::Preview
    } else {
        Tab::SendHistory
    }
}

impl Tab {
    /// The tab's label in the tab bar.
    pub open spec fn spec_label(self) -> Seq<char> {
        match self {
            Tab::Dashboard => " Dashboard "@,
            Tab::Compose => " Compose "@,
            Tab::Templates => " Templates "@,
            Tab::Preview => " Preview "@,
            Tab::SendHistory => " Send History "@,
        }
    }

    /// The tab's label in the tab bar.
    pub fn label(&self) -> (s: &'static str)
        ensures
            s@ == self.spec_label(),
    {
        match self {
            Tab::Dashboard => " Dashboard ",
            Tab::Compose => " Compose ",
            Tab::Templates => " Templates ",
            Tab::Preview => " Preview ",
            Tab::SendHistory => " Send History ",
        }
    }
}

/// What the keyboard currently drives.
#[derive(Debug, Clone, Copy, PartialEq, Eq, Structural)]
pub enum Mode {
    Normal,
    Preview,
    Sending,
    Compose,
}

/// The field of the compose form being edited.
#[derive(Debug, Clone, Copy, PartialEq, Eq, Structural)]
pub enum ComposeField {
    To,
    Subject,
    Body,
}

/// The field after `f` in the compose form (wrapping).
pub open spec fn next_field(f: ComposeField) -> ComposeField {
    match f {
        ComposeField::To => ComposeField::Subject,
        ComposeField::Subject => ComposeField::Body,
        ComposeField::Body => ComposeField::To,
    }
}

/// The field before `f` in the compose form (wrapping).
pub open spec fn prev_field(f: ComposeField) -> ComposeField {
    match f {
        ComposeField::To => ComposeField::Body,
        ComposeField::Subject => ComposeField::To,
        ComposeField::Body => ComposeField::Subject,
    }
}

/// Law: the next and the previous compose field undo each other, and
/// three steps come back to the same field.
pub proof fn lemma_field_round_trip(f: ComposeField)
    ensures
        prev_field(next_field(f)) == f,
        next_field(prev_field(f)) == f,
        next_field(next_field(next_field(f))) == f,
{
}

/// Law: typing a character and then deleting one leaves the field as it
/// was (`compose_type_char`, then `compose_backspace`).
pub proof fn lemma_type_then_backspace(text: Seq<char>, ch: char)
    ensures
        ({
            let typed = text.push(ch);
            (if typed.len() > 0 { typed.drop_last() } else { typed }) == text
        }),
{
    assert(text.push(ch).drop_last() =~= text);
}

/// One line of the send history.
#[derive(Debug)]
pub struct SendRecord {
    pub template: String,
    pub to: String,
    pub message_id: String,
    pub timestamp: String,
    pub success: bool,
}

/// The dashboard's figures.
#[derive(Debug)]
pub struct DashboardStats {
    pub emails_sent: u64,
    pub emails_today: u64,
    pub plan: String,
    pub quota: String,
}

impl Default for DashboardStats {
    fn default() -> (s: DashboardStats)
        ensures
            s.emails_sent == 0,
            s.emails_today == 0,
            s.plan@.len() == 0,
            s.quota@.len() == 0,
    {
        DashboardStats { emails_sent: 0, emails_today: 0, plan: String::new(), quota: String::new() }
    }
}

/// A signed-in session.
#[derive(Debug)]
pub struct Session {
    pub token: String,
    pub username: String,
    pub email: String,
    pub display_name: String,
    /// The API key to send with, if the account has one.
    pub api_key: Option<String>,
}

impl Clone for Session {
    fn clone(&self) -> (r: Self)
        ensures
            r.token@ == self.token@,
            r.username@ == self.username@,
            r.email@ == self.email@,
            r.display_name@ == self.display_name@,
            crate::email_core::style::opt_text(r.api_key) == crate::email_core::style::opt_text(self.api_key),
    {
        Session {
            token: self.token.clone(),
            username: self.username.clone(),
            email: self.email.clone(),
            display_name: self.display_name.clone(),
            api_key: match &self.api_key {
                Some(k) => Some(k.clone()),
                None => None,
            },
        }
    }
}

/// The dashboard's state.
pub struct App {
    pub tab: Tab,
    pub tab_index: usize,
    pub mode: Mode,
    pub selected_template: usize,
    pub preview_html: String,
    pub preview_text: String,
    pub preview_scroll: u16,
    pub message: Option<(String, bool)>,
    pub compose_to: String,
    pub compose_subject: String,
    pub compose_body: String,
    pub compose_field: ComposeField,
    pub send_history: Vec<SendRecord>,
    pub dashboard_stats: DashboardStats,
    pub api_keys: Vec<String>,
    pub renderer: Renderer,
    pub session: Session,
}

impl App {
    /// The state is coherent: the tab shown is the one at the tab index,
    /// and the selected template exists.
    pub open spec fn inv(&self) -> bool {
        &&& self.tab_index < tab_count()
        &&& self.tab == tab_at(self.tab_index as int)
        &&& self.selected_template < spec_template_count()
    }

    /// The compose field being edited, as text.
    pub open spec fn field_text(&self, f: ComposeField) -> Seq<char> {
        match f {
            ComposeField::To => self.compose_to@,
            ComposeField::Subject => self.compose_subject@,
            ComposeField::Body => self.compose_body@,
        }
    }

    /// The preview shows template `index`, rendered for the signed-in
    /// address at some time.
    pub open spec fn previews(&self, index: int) -> bool {
        exists|t: Template, time: Seq<char>|
            template_is(t, index, self.session.email@, time) && #[trigger] self.preview_html@ == document(
                self.renderer.config,
                t.spec_render(),
            ) && self.preview_text@ == plain_text_of(t.spec_render())
    }

    /// A new dashboard for a session: the first tab, no message, the first
    /// template previewed.
    pub fn new(session: Session, renderer: Renderer) -> (app: App)
        ensures
            app.inv(),
            app.tab == Tab::Dashboard,
            app.mode == Mode::Normal,
            app.selected_template == 0,
            app.preview_scroll == 0,
            app.message is None,
            app.compose_to@.len() == 0,
            app.compose_subject@.len() == 0,
            app.compose_body@.len() == 0,
            app.compose_field == ComposeField::To,
            app.send_history@.len() == 0,
            app.api_keys@.len() == 0,
            app.session == session,
            app.renderer == renderer,
            app.previews(0),
    {
        let mut app = App {
            tab: Tab::Dashboard,
            tab_index: 0,
            mode: Mode::Normal,
            selected_template: 0,
            preview_html: String::new(),
            preview_text: String::new(),
            preview_scroll: 0,
            message: None,
            compose_to: String::new(),
            compose_subject: String::new(),
            compose_body: String::new(),
            compose_field: ComposeField::To,
            send_history: Vec::new(),
            dashboard_stats: DashboardStats::default(),
            api_keys: Vec::new(),
            renderer,
            session,
        };
        app.render_preview();
        app
    }

    fn render_preview(&mut self)
        requires
            old(self).selected_template < spec_template_count(),
        ensures
            *final(self) == (App { preview_html: final(self).preview_html, preview_text: final(self).preview_text, ..*old(self) }),
            final(self).previews(old(self).selected_template as int),
    {
        let t = render_template(self.selected_template, self.session.email.as_str());
        let html = match self.renderer.render_html(&t) {
            Ok(h) => h,
            Err(e) => e.to_string(),
        };
        let node = t.render();
        let text = extract_text(&node);
        self.preview_html = html;
        self.preview_text = text;
        proof {
            let tm = choose|time: Seq<char>| template_is(t, old(self).selected_template as int, self.session.email@, time);
            assert(template_is(t, self.selected_template as int, self.session.email@, tm));
            assert(self.preview_html@ == document(self.renderer.config, t.spec_render()));
        }
    }

    /// Switch to the next tab (wrapping).
    pub fn next_tab(&mut self)
        requires
            old(self).inv(),
        ensures
            final(self).inv(),
            final(self).tab_index == next_tab_index(old(self).tab_index as int),
            *final(self) == (App { tab: final(self).tab, tab_index: final(self).tab_index, ..*old(self) }),
    {
        self.tab_index = (self.tab_index + 1) % 5;
        self.tab = tab_at_exec(self.tab_index);
    }

    /// Switch to the previous tab (wrapping).
    pub fn prev_tab(&mut self)
        requires
            old(self).inv(),
        ensures
            final(self).inv(),
            final(self).tab_index == prev_tab_index(old(self).tab_index as int),
            *final(self) == (App { tab: final(self).tab, tab_index: final(self).tab_index, ..*old(self) }),
    {
        self.tab_index = if self.tab_index == 0 { 4 } else { self.tab_index - 1 };
        self.tab = tab_at_exec(self.tab_index);
    }

    /// On the Templates tab, select the next template (wrapping).
    pub fn next_item(&mut self)
        requires
            old(self).inv(),
        ensures
            final(self).inv(),
            final(self).selected_template == if old(self).tab == Tab::Templates {
                (old(self).selected_template + 1) % (spec_template_count() as int)
            } else {
                old(self).selected_template as int
            },
            *final(self) == (App { selected_template: final(self).selected_template, ..*old(self) }),
    {
        if self.tab == Tab::Templates {
            self.selected_template = (self.selected_template + 1) % template_count();
        }
    }

    /// On the Templates tab, select the previous template (wrapping).
    pub fn prev_item(&mut self)
        requires
            old(self).inv(),
        ensures
            final(self).inv(),
            final(self).selected_template == if old(self).tab == Tab::Templates {
                if old(self).selected_template == 0 {
                    spec_template_count() as int - 1
                } else {
                    old(self).selected_template - 1
                }
            } else {
                old(self).selected_template as int
            },
            *final(self) == (App { selected_template: final(self).selected_template, ..*old(self) }),
    {
        if self.tab == Tab::Templates {
            self.selected_template = if self.selected_template == 0 {
                template_count() - 1
            } else {
                self.selected_template - 1
            };
        }
    }

    /// Render the selected template into the preview and show it from the
    /// top.
    pub fn preview_selected(&mut self)
        requires
            old(self).inv(),
        ensures
            final(self).inv(),
            final(self).previews(old(self).selected_template as int),
            *final(self) == (App {
                preview_html: final(self).preview_html,
                preview_text: final(self).preview_text,
                preview_scroll: 0,
                mode: Mode::Preview,
                ..*old(self)
            }),
    {
        self.render_preview();
        self.preview_scroll = 0;
        self.mode = Mode::Preview;
    }

    /// Dismiss the status message, and leave the preview.
    pub fn dismiss_message(&mut self)
        ensures
            *final(self) == (App {
                message: None,
                mode: if old(self).mode == Mode::Preview { Mode::Normal } else { old(self).mode },
                ..*old(self)
            }),
    {
        self.message = None;
        if self.mode == Mode::Preview {
            self.mode = Mode::Normal;
        }
    }

    /// Scroll the preview down one line (stopping at the largest offset).
    pub fn scroll_down(&mut self)
        ensures
            *final(self) == (App {
                preview_scroll: if old(self).preview_scroll < u16::MAX { (old(self).preview_scroll + 1) as u16 } else { u16::MAX },
                ..*old(self)
            }),
    {
        self.preview_scroll = self.preview_scroll.saturating_add(1);
    }

    /// Scroll the preview up one line (stopping at the top).
    pub fn scroll_up(&mut self)
        ensures
            *final(self) == (App {
                preview_scroll: if old(self).preview_scroll > 0 { (old(self).preview_scroll - 1) as u16 } else { 0 },
                ..*old(self)
            }),
    {
        self.preview_scroll = self.preview_scroll.saturating_sub(1);
    }

    /// Start composing, in the To field.
    pub fn enter_compose(&mut self)
        ensures
            *final(self) == (App { mode: Mode::Compose, compose_field: ComposeField::To, ..*old(self) }),
    {
        self.mode = Mode::Compose;
        self.compose_field = ComposeField::To;
    }

    /// Move to the next compose field (wrapping).
    pub fn compose_next_field(&mut self)
        ensures
            *final(self) == (App { compose_field: next_field(old(self).compose_field), ..*old(self) }),
    {
        self.compose_field = match self.compose_field {
            ComposeField::To => ComposeField::Subject,
            ComposeField::Subject => ComposeField::Body,
            ComposeField::Body => ComposeField::To,
        };
    }

    /// Move to the previous compose field (wrapping).
    pub fn compose_prev_field(&mut self)
        ensures
            *final(self) == (App { compose_field: prev_field(old(self).compose_field), ..*old(self) }),
    {
        self.compose_field = match self.compose_field {
            ComposeField::To => ComposeField::Body,
            ComposeField::Subject => ComposeField::To,
            ComposeField::Body => ComposeField::Subject,
        };
    }

    /// Type a character into the current compose field.
    pub fn compose_type_char(&mut self, ch: char)
        ensures
            final(self).field_text(old(self).compose_field) == old(self).field_text(old(self).compose_field).push(ch),
            same_except_field(*old(self), *final(self), old(self).compose_field),
    {
        match self.compose_field {
            ComposeField::To => push_char(&mut self.compose_to, ch),
            ComposeField::Subject => push_char(&mut self.compose_subject, ch),
            ComposeField::Body => push_char(&mut self.compose_body, ch),
        }
    }

    /// Delete the last character of the current compose field, if any.
    pub fn compose_backspace(&mut self)
        ensures
            final(self).field_text(old(self).compose_field) == if old(self).field_text(old(self).compose_field).len() > 0 {
                old(self).field_text(old(self).compose_field).drop_last()
            } else {
                old(self).field_text(old(self).compose_field)
            },
            same_except_field(*old(self), *final(self), old(self).compose_field),
    {
        match self.compose_field {
            ComposeField::To => {
                self.compose_to = without_last_char(&self.compose_to);
            },
            ComposeField::Subject => {
                self.compose_subject = without_last_char(&self.compose_subject);
            },
            ComposeField::Body => {
                self.compose_body = without_last_char(&self.compose_body);
            },
        }
    }

    /// In the Body field, start a new line.
    pub fn compose_newline(&mut self)
        ensures
            old(self).compose_field == ComposeField::Body ==> final(self).compose_body@ == old(self).compose_body@.push('\n')
                && same_except_field(*old(self), *final(self), ComposeField::Body),
            old(self).compose_field != ComposeField::Body ==> *final(self) == *old(self),
    {
        if self.compose_field == ComposeField::Body {
            push_char(&mut self.compose_body, '\n');
        }
    }
}

/// A message the dashboard asks the mail service to send.
#[derive(Debug)]
pub struct OutgoingEmail {
    pub to: String,
    pub subject: String,
    pub html: String,
    pub text: Option<String>,
}

/// One entry of the send history as the mail service reports it (fields
/// it left out are `None`).
#[derive(Debug)]
pub struct HistoryEntry {
    pub subject: Option<String>,
    pub to: Option<String>,
    pub message_id: Option<String>,
    pub sent_at: Option<String>,
    pub status: Option<String>,
}

/// The status message `o` is `text`, flagged as an error or not.
pub open spec fn shows(o: Option<(String, bool)>, text: Seq<char>, error: bool) -> bool {
    o matches Some((m, e)) && m@ == text && e == error
}

/// `o` holds a text, and it is `text`.
pub open spec fn has_text(o: Option<String>, text: Seq<char>) -> bool {
    o matches Some(x) && x@ == text
}

/// `o`'s text, or `default` when it is `None`.
pub open spec fn text_or(o: Option<String>, default: Seq<char>) -> Seq<char> {
    match o {
        Some(s) => s@,
        None => default,
    }
}

fn string_or(o: &Option<String>, default: &str) -> (r: String)
    ensures
        r@ == text_or(*o, default@),
{
    match o {
        Some(s) => s.clone(),
        None => string_of(default),
    }
}

/// The history line a service entry gives: defaults for missing fields,
/// success when the status is `sent`.
pub open spec fn record_for(e: HistoryEntry, r: SendRecord) -> bool {
    &&& r.template@ == text_or(e.subject, "email"@)
    &&& r.to@ == text_or(e.to, "?"@)
    &&& r.message_id@ == text_or(e.message_id, "?"@)
    &&& r.timestamp@ == text_or(e.sent_at, seq![])
    &&& r.success == (e.status matches Some(st) && st@ == "sent"@)
}

impl App {
    /// Start sending the selected template to the signed-in address: the
    /// mode becomes Sending and the message to send is returned.
    pub fn begin_send_selected(&mut self) -> (m: OutgoingEmail)
        requires
            old(self).inv(),
        ensures
            *final(self) == (App { mode: Mode::Sending, ..*old(self) }),
            m.to@ == old(self).session.email@,
            m.subject@ == meta_text(old(self).selected_template as int).2,
            exists|t: Template, time: Seq<char>|
                template_is(t, old(self).selected_template as int, old(self).session.email@, time) && #[trigger] m.html@
                    == document(old(self).renderer.config, t.spec_render()) && has_text(m.text, plain_text_of(t.spec_render())),
    {
        self.mode = Mode::Sending;
        let t = render_template(self.selected_template, self.session.email.as_str());
        let html = match self.renderer.render_html(&t) {
            Ok(h) => h,
            Err(e) => e.to_string(),
        };
        let node = t.render();
        let text = extract_text(&node);
        let subject = match t.subject() {
            Some(s) => string_of(s),
            None => string_of("(no subject)"),
        };
        proof {
            let tm = choose|time: Seq<char>| template_is(t, self.selected_template as int, self.session.email@, time);
            assert(template_is(t, self.selected_template as int, self.session.email@, tm));
        }
        OutgoingEmail { to: self.session.email.clone(), subject, html, text: Some(text) }
    }

    /// Take the outcome of sending the selected template: on success a
    /// history line and a confirmation, otherwise an error message; back to
    /// Normal mode.
    pub fn finish_send_selected(&mut self, result: Result<String, String>)
        requires
            old(self).inv(),
        ensures
            final(self).inv(),
            final(self).mode == Mode::Normal,
            match result {
                Ok(mid) => final(self).send_history@.len() == old(self).send_history@.len() + 1
                    && final(self).send_history@.drop_last() == old(self).send_history@
                    && final(self).send_history@.last().template@ == meta_text(old(self).selected_template as int).0
                    && final(self).send_history@.last().to@ == old(self).session.email@
                    && final(self).send_history@.last().message_id@ == mid@
                    && final(self).send_history@.last().timestamp@ == "just now"@
                    && final(self).send_history@.last().success
                    && shows(final(self).message, "Sent \""@ + meta_text(old(self).selected_template as int).0
                        + "\" to "@ + old(self).session.email@ + " (ID: "@ + mid@ + ")"@, false),
                Err(e) => final(self).send_history@ == old(self).send_history@
                    && shows(final(self).message, "Send failed: "@ + e@, true),
            },
            *final(self) == (App {
                mode: Mode::Normal,
                message: final(self).message,
                send_history: final(self).send_history,
                ..*old(self)
            }),
    {
        let meta = template_meta(self.selected_template);
        match result {
            Ok(mid) => {
                let mut m = String::from_str("Sent \"");
                m.append(meta.name);
                m.append("\" to ");
                m.append(self.session.email.as_str());
                m.append(" (ID: ");
                m.append(mid.as_str());
                m.append(")");
                self.send_history.push(SendRecord {
                    template: string_of(meta.name),
                    to: self.session.email.clone(),
                    message_id: mid,
                    timestamp: string_of("just now"),
                    success: true,
                });
                self.message = Some((m, false));
            },
            Err(e) => {
                let mut m = String::from_str("Send failed: ");
                m.append(e.as_str());
                self.message = Some((m, true));
            },
        }
        self.mode = Mode::Normal;
    }

    /// Start sending the composed message. Without a recipient or a subject
    /// nothing is sent and an error message is shown; otherwise the mode
    /// becomes Sending and the message is returned, with the composed HTML
    /// and the body as plain text.
    pub fn begin_compose_send(&mut self) -> (m: Option<OutgoingEmail>)
        ensures
            (old(self).compose_to@.len() == 0 || old(self).compose_subject@.len() == 0) ==> m is None
                && *final(self) == (App { message: final(self).message, ..*old(self) })
                && shows(final(self).message, "To and Subject are required"@, true),
            (old(self).compose_to@.len() > 0 && old(self).compose_subject@.len() > 0) ==> *final(self) == (App {
                mode: Mode::Sending,
                ..*old(self)
            }) && (m matches Some(e) && e.to@ == old(self).compose_to@ && e.subject@ == old(self).compose_subject@
                && e.html@ == "<!DOCTYPE html>"@ + "\n"@ + crate::render::html::html_of(
                crate::render::css_inliner::inlined_view(
                    crate::tui::templates::compose_view(old(self).compose_subject@, old(self).compose_body@),
                ),
            ) && has_text(e.text, old(self).compose_body@)),
    {
        if self.compose_to.as_str().is_empty() || self.compose_subject.as_str().is_empty() {
            self.message = Some((string_of("To and Subject are required"), true));
            return None;
        }
        self.mode = Mode::Sending;
        let html = crate::tui::templates::compose_to_html(self.compose_subject.as_str(), self.compose_body.as_str());
        Some(OutgoingEmail {
            to: self.compose_to.clone(),
            subject: self.compose_subject.clone(),
            html,
            text: Some(self.compose_body.clone()),
        })
    }

    /// Take the outcome of sending the composed message: on success a
    /// history line, a confirmation, and the subject and body cleared;
    /// otherwise an error message; back to Normal mode.
    pub fn finish_compose_send(&mut self, result: Result<String, String>)
        ensures
            final(self).mode == Mode::Normal,
            match result {
                Ok(mid) => final(self).send_history@.len() == old(self).send_history@.len() + 1
                    && final(self).send_history@.drop_last() == old(self).send_history@
                    && final(self).send_history@.last().template@ == "Composed"@
                    && final(self).send_history@.last().to@ == old(self).compose_to@
                    && final(self).send_history@.last().message_id@ == mid@
                    && final(self).send_history@.last().timestamp@ == "just now"@
                    && final(self).send_history@.last().success
                    && shows(final(self).message, "Sent to "@ + old(self).compose_to@ + " (ID: "@
                        + mid@ + ")"@, false)
                    && final(self).compose_subject@.len() == 0 && final(self).compose_body@.len() == 0
                    && *final(self) == (App {
                        mode: Mode::Normal,
                        message: final(self).message,
                        send_history: final(self).send_history,
                        compose_subject: final(self).compose_subject,
                        compose_body: final(self).compose_body,
                        ..*old(self)
                    }),
                Err(e) => shows(final(self).message, "Send failed: "@ + e@, true)
                    && *final(self) == (App { mode: Mode::Normal, message: final(self).message, ..*old(self) }),
            },
    {
        match result {
            Ok(mid) => {
                let mut m = String::from_str("Sent to ");
                m.append(self.compose_to.as_str());
                m.append(" (ID: ");
                m.append(mid.as_str());
                m.append(")");
                self.send_history.push(SendRecord {
                    template: string_of("Composed"),
                    to: self.compose_to.clone(),
                    message_id: mid,
                    timestamp: string_of("just now"),
                    success: true,
                });
                self.message = Some((m, false));
                self.compose_subject = String::new();
                self.compose_body = String::new();
            },
            Err(e) => {
                let mut m = String::from_str("Send failed: ");
                m.append(e.as_str());
                self.message = Some((m, true));
            },
        }
        self.mode = Mode::Normal;
    }

    /// Take the dashboard figures the service reported: missing counts are
    /// 0, a missing plan is `Free`, the quota is `quota` or else
    /// `monthly_quota` or else a dash.
    pub fn apply_dashboard(
        &mut self,
        total: Option<u64>,
        today: Option<u64>,
        plan: Option<String>,
        quota: Option<String>,
        monthly_quota: Option<String>,
    )
        ensures
            final(self).dashboard_stats.emails_sent == match total { Some(n) => n, None => 0 },
            final(self).dashboard_stats.emails_today == match today { Some(n) => n, None => 0 },
            final(self).dashboard_stats.plan@ == text_or(plan, "Free"@),
            final(self).dashboard_stats.quota@ == match quota {
                Some(q) => q@,
                None => text_or(monthly_quota, "\u{2014}"@),
            },
            *final(self) == (App { dashboard_stats: final(self).dashboard_stats, ..*old(self) }),
    {
        let q = match quota {
            Some(q) => q,
            None => string_or(&monthly_quota, "\u{2014}"),
        };
        self.dashboard_stats = DashboardStats {
            emails_sent: match total { Some(n) => n, None => 0 },
            emails_today: match today { Some(n) => n, None => 0 },
            plan: string_or(&plan, "Free"),
            quota: q,
        };
    }

    /// Take the API keys the service reported: each key with a prefix
    /// shows as the prefix and `...`; keys without one are left out.
    pub fn apply_api_keys(&mut self, prefixes: Vec<Option<String>>)
        ensures
            final(self).api_keys@.len() == key_labels(prefixes@).len(),
            forall|i: int| 0 <= i < final(self).api_keys@.len() ==> #[trigger] final(self).api_keys@[i]@ == key_labels(prefixes@)[i],
            *final(self) == (App { api_keys: final(self).api_keys, ..*old(self) }),
    {
        let mut keys: Vec<String> = Vec::new();
        let mut i: usize = 0;
        while i < prefixes.len()
            invariant
                i <= prefixes@.len(),
                keys@.len() == key_labels(prefixes@.take(i as int)).len(),
                forall|k: int| 0 <= k < keys@.len() ==> #[trigger] keys@[k]@ == key_labels(prefixes@.take(i as int))[k],
            decreases prefixes@.len() - i,
        {
            proof {
                assert(prefixes@.take(i + 1).drop_last() == prefixes@.take(i as int));
            }
            match &prefixes[i] {
                Some(p) => {
                    let mut k = p.clone();
                    k.append("...");
                    keys.push(k);
                },
                None => {},
            }
            i = i + 1;
        }
        proof {
            assert(prefixes@.take(prefixes@.len() as int) == prefixes@);
        }
        self.api_keys = keys;
    }

    /// Replace the send history with the entries the service reported.
    pub fn apply_history(&mut self, entries: Vec<HistoryEntry>)
        ensures
            final(self).send_history@.len() == entries@.len(),
            forall|i: int| 0 <= i < entries@.len() ==> record_for(entries@[i], #[trigger] final(self).send_history@[i]),
            *final(self) == (App { send_history: final(self).send_history, ..*old(self) }),
    {
        let mut records: Vec<SendRecord> = Vec::new();
        let mut i: usize = 0;
        while i < entries.len()
            invariant
                i <= entries@.len(),
                records@.len() == i,
                forall|k: int| 0 <= k < i ==> record_for(entries@[k], #[trigger] records@[k]),
            decreases entries@.len() - i,
        {
            let e = &entries[i];
            let success = match &e.status {
                Some(st) => crate::text::str_eq(st.as_str(), "sent"),
                None => false,
            };
            records.push(SendRecord {
                template: string_or(&e.subject, "email"),
                to: string_or(&e.to, "?"),
                message_id: string_or(&e.message_id, "?"),
                timestamp: string_or(&e.sent_at, ""),
                success,
            });
            proof {
                reveal_strlit("");
                assert(""@ =~= Seq::<char>::empty());
            }
            i = i + 1;
        }
        self.send_history = records;
    }

    /// Finish a refresh: the status message says so.
    pub fn finish_refresh(&mut self)
        ensures
            shows(final(self).message, "Refreshed"@, false),
            *final(self) == (App { message: final(self).message, ..*old(self) }),
    {
        self.message = Some((string_of("Refreshed"), false));
    }
}

/// The labels of the API keys with a prefix.
pub open spec fn key_labels(prefixes: Seq<Option<String>>) -> Seq<Seq<char>>
    decreases prefixes.len(),
{
    if prefixes.len() == 0 {
        seq![]
    } else {
        let prev = key_labels(prefixes.drop_last());
        match prefixes.last() {
            Some(p) => prev.push(p@ + "..."@),
            None => prev,
        }
    }
}

/// `b` is `a` with at most the text of compose field `f` changed.
pub open spec fn same_except_field(a: App, b: App, f: ComposeField) -> bool {
    match f {
        ComposeField::To => b == (App { compose_to: b.compose_to, ..a }),
        ComposeField::Subject => b == (App { compose_subject: b.compose_subject, ..a }),
        ComposeField::Body => b == (App { compose_body: b.compose_body, ..a }),
    }
}

/// A copy of `s` without its last character (unchanged when empty).
fn without_last_char(s: &String) -> (r: String)
    ensures
        r@ == if s@.len() > 0 { s@.drop_last() } else { s@ },
{
    let v = chars_of(s.as_str());
    let mut r = String::new();
    if v.len() > 0 {
        push_chars(&mut r, &v, 0, v.len() - 1);
        proof {
            assert(v@.subrange(0, v@.len() - 1) == v@.drop_last());
        }
    } else {
        push_chars(&mut r, &v, 0, 0);
        proof {
            assert(v@.subrange(0, 0) == v@);
        }
    }
    r
}

} // verus!
