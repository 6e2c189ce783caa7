//! What each key does: on the dashboard, in each mode, and on the sign-in
//! screen.

use vstd::prelude::*;
use crate::text::{push_char, string_of};
use crate::tui::app::{Mode, Tab};

verus! {

broadcast use vstd::string::group_string_axioms;

/// A key press, as far as the dashboard tells keys apart.
#[derive(Debug, Clone, Copy, PartialEq, Eq, Structural)]
pub enum Key {
    Char(char),
    Tab,
    BackTab,
    Enter,
    Esc,
    Backspace,
    Left,
    Right,
    Up,
    Down,
    Other,
}

/// What the dashboard does on a key.
#[derive(Debug, Clone, Copy, PartialEq, Eq, Structural)]
pub enum Action {
    Nothing,
    Quit,
    NextTab,
    PrevTab,
    NextItem,
    PrevItem,
    EnterCompose,
    Preview,
    SendSelected,
    Refresh,
    DismissMessage,
    LeaveMode,
    ComposeNextField,
    ComposePrevField,
    ComposeSend,
    TypeChar(char),
    Backspace,
    Newline,
    ScrollDown,
    ScrollUp,
}

/// The dashboard's response to a key (with Ctrl held or not), in a mode,
/// on a tab. Ctrl-C quits everywhere. In Normal mode: `q` quits; Tab, `l`
/// and Right go to the next tab, BackTab, `h` and Left to the previous;
/// `j`/Down and `k`/Up move in the list; Enter starts composing on the
/// Compose tab and previews elsewhere; `s` sends, `p` previews, `r`
/// refreshes, Esc dismisses the message. In Compose mode: Esc leaves,
/// Tab/BackTab change field, Ctrl-S and Ctrl-Enter send, Enter adds a line,
/// Backspace deletes, other characters are typed. In Preview mode: Esc and
/// `q` leave, `j`/Down and `k`/Up scroll. While sending, Esc leaves.
pub open spec fn key_action(mode: Mode, tab: Tab, key: Key, ctrl: bool) -> Action {
    if key == Key::Char('c') && ctrl {
        Action::Quit
    } else {
        match mode {
            Mode::Normal => match key {
                Key::Char('q') => Action::Quit,
                Key::Tab | Key::Char('l') | Key::Right => Action::NextTab,
                Key::BackTab | Key::Char('h') | Key::Left => Action::PrevTab,
                Key::Char('j') | Key::Down => Action::NextItem,
                Key::Char('k') | Key::Up => Action::PrevItem,
                Key::Enter => if tab == Tab::Compose { Action::EnterCompose } else { Action::Preview },
                Key::Char('s') => Action::SendSelected,
                Key::Char('p') => Action::Preview,
                Key::Char('r') => Action::Refresh,
                Key::Esc => Action::DismissMessage,
                _ => Action::Nothing,
            },
            Mode::Compose => match key {
                Key::Esc => Action::LeaveMode,
                Key::Tab => Action::ComposeNextField,
                Key::BackTab => Action::ComposePrevField,
                Key::Char(ch) => if ctrl && ch == 's' { Action::ComposeSend } else { Action::TypeChar(ch) },
                Key::Backspace => Action::Backspace,
                Key::Enter => if ctrl { Action::ComposeSend } else { Action::Newline },
                _ => Action::Nothing,
            },
            Mode::Preview => match key {
                Key::Esc | Key::Char('q') => Action::LeaveMode,
                Key::Char('j') | Key::Down => Action::ScrollDown,
                Key::Char('k') | Key::Up => Action::ScrollUp,
                _ => Action::Nothing,
            },
            Mode::Sending => if key == Key::Esc { Action::LeaveMode } else { Action::Nothing },
        }
    }
}

/// Decide what the dashboard does on a key.
pub fn dashboard_action(mode: Mode, tab: Tab, key: Key, ctrl: bool) -> (a: Action)
    ensures
        a == key_action(mode, tab, key, ctrl),
{
    if key == Key::Char('c') && ctrl {
        return Action::Quit;
    }
    match mode {
        Mode::Normal => match key {
            Key::Char('q') => Action::Quit,
            Key::Tab | Key::Char('l') | Key::Right => Action::NextTab,
            Key::BackTab | Key::Char('h') | Key::Left => Action::PrevTab,
            Key::Char('j') | Key::Down => Action::NextItem,
            Key::Char('k') | Key::Up => Action::PrevItem,
            Key::Enter => if tab == Tab::Compose { Action::EnterCompose } else { Action::Preview },
            Key::Char('s') => Action::SendSelected,
            Key::Char('p') => Action::Preview,
            Key::Char('r') => Action::Refresh,
            Key::Esc => Action::DismissMessage,
            _ => Action::Nothing,
        },
        Mode::Compose => match key {
            Key::Esc => Action::LeaveMode,
            Key::Tab => Action::ComposeNextField,
            Key::BackTab => Action::ComposePrevField,
            Key::Char(ch) => if ctrl && ch == 's' { Action::ComposeSend } else { Action::TypeChar(ch) },
            Key::Backspace => Action::Backspace,
            Key::Enter => if ctrl { Action::ComposeSend } else { Action::Newline },
            _ => Action::Nothing,
        },
        Mode::Preview => match key {
            Key::Esc | Key::Char('q') => Action::LeaveMode,
            Key::Char('j') | Key::Down => Action::ScrollDown,
            Key::Char('k') | Key::Up => Action::ScrollUp,
            _ => Action::Nothing,
        },
        Mode::Sending => if key == Key::Esc { Action::LeaveMode } else { Action::Nothing },
    }
}

// ---------------------------------------------------------------------------
// The sign-in screen
// ---------------------------------------------------------------------------

/// The sign-in form: the address and password typed so far, which of the
/// two has the focus (0 the address, 1 the password), the last error, and
/// whether a sign-in is under way.
#[derive(Debug)]
pub struct LoginForm {
    pub email: String,
    pub password: String,
    pub focused: u8,
    pub error: Option<String>,
    pub logging_in: bool,
}

/// What the sign-in screen does next.
#[derive(Debug, Clone, Copy, PartialEq, Eq, Structural)]
pub enum LoginStep {
    /// Keep reading keys.
    Continue,
    /// Give up: the sign-in was cancelled.
    Cancel,
    /// Try to sign in with the address and password of the form.
    Submit,
}

impl LoginForm {
    /// An empty form with the focus on the address.
    pub fn new() -> (f: LoginForm)
        ensures
            f.email@.len() == 0,
            f.password@.len() == 0,
            f.focused == 0,
            f.error is None,
            !f.logging_in,
    {
        LoginForm { email: String::new(), password: String::new(), focused: 0, error: None, logging_in: false }
    }

    /// Take a key. Esc and Ctrl-C cancel; Tab and BackTab move the focus;
    /// Enter submits when both fields are filled and otherwise asks for
    /// them; Backspace deletes from the focused field; other characters are
    /// typed into it. Any earlier error is cleared first.
    pub fn on_key(&mut self, key: Key, ctrl: bool) -> (step: LoginStep)
        requires
            old(self).focused < 2,
        ensures
            final(self).focused < 2,
            match key {
                Key::Esc => step == LoginStep::Cancel,
                Key::Char(ch) if ctrl && ch == 'c' => step == LoginStep::Cancel,
                Key::Tab | Key::BackTab => step == LoginStep::Continue && final(self).focused == 1 - old(self).focused
                    && final(self).email@ == old(self).email@ && final(self).password@ == old(self).password@
                    && final(self).error is None,
                Key::Enter => if old(self).email@.len() == 0 || old(self).password@.len() == 0 {
                    step == LoginStep::Continue && (final(self).error matches Some(e) && e@ == "Enter email and password"@)
                        && final(self).email@ == old(self).email@ && final(self).password@ == old(self).password@
                } else {
                    step == LoginStep::Submit && final(self).logging_in && final(self).error is None
                        && final(self).email@ == old(self).email@ && final(self).password@ == old(self).password@
                },
                Key::Char(ch) => step == LoginStep::Continue && final(self).error is None && final(self).focused == old(self).focused
                    && if old(self).focused == 0 {
                        final(self).email@ == old(self).email@.push(ch) && final(self).password@ == old(self).password@
                    } else {
                        final(self).password@ == old(self).password@.push(ch) && final(self).email@ == old(self).email@
                    },
                Key::Backspace => step == LoginStep::Continue && final(self).error is None && final(self).focused == old(self).focused
                    && if old(self).focused == 0 {
                        final(self).email@ == drop_last_char(old(self).email@) && final(self).password@ == old(self).password@
                    } else {
                        final(self).password@ == drop_last_char(old(self).password@) && final(self).email@ == old(self).email@
                    },
                _ => step == LoginStep::Continue && final(self).error is None && final(self).focused == old(self).focused
                    && final(self).email@ == old(self).email@ && final(self).password@ == old(self).password@,
            },
    {
        self.error = None;
        match key {
            Key::Esc => LoginStep::Cancel,
            Key::Tab | Key::BackTab => {
                self.focused = 1 - self.focused;
                LoginStep::Continue
            },
            Key::Enter => {
                if self.email.as_str().is_empty() || self.password.as_str().is_empty() {
                    self.error = Some(string_of("Enter email and password"));
                    LoginStep::Continue
                } else {
                    self.logging_in = true;
                    LoginStep::Submit
                }
            },
            Key::Char(ch) => {
                if ctrl && ch == 'c' {
                    return LoginStep::Cancel;
                }
                if self.focused == 0 {
                    push_char(&mut self.email, ch);
                } else {
                    push_char(&mut self.password, ch);
                }
                LoginStep::Continue
            },
            Key::Backspace => {
                if self.focused == 0 {
                    self.email = without_last(&self.email);
                } else {
                    self.password = without_last(&self.password);
                }
                LoginStep::Continue
            },
            _ => LoginStep::Continue,
        }
    }

    /// Take a failed sign-in: show its error, and stop signing in.
    pub fn on_login_failed(&mut self, error: String)
        ensures
            final(self).error matches Some(e) && e@ == error@,
            !final(self).logging_in,
            final(self).email@ == old(self).email@,
            final(self).password@ == old(self).password@,
            final(self).focused == old(self).focused,
    {
        self.error = Some(error);
        self.logging_in = false;
    }

    /// The address field as shown: the address, or a placeholder while it
    /// is empty.
    pub fn email_shown(&self) -> (s: String)
        ensures
            s@ == if self.email@.len() == 0 { "you@example.com"@ } else { self.email@ },
    {
        if self.email.as_str().is_empty() {
            string_of("you@example.com")
        } else {
            self.email.clone()
        }
    }

    /// The password field as shown: one `*` per byte of the password, or a
    /// row of dots while it is empty.
    pub fn password_shown(&self) -> (s: String)
        ensures
            s@ == if self.password@.len() == 0 {
                "\u{2022}\u{2022}\u{2022}\u{2022}\u{2022}\u{2022}\u{2022}\u{2022}"@
            } else {
                crate::render::html::repeat("*"@, vstd::utf8::encode_utf8(self.password@).len())
            },
    {
        if self.password.as_str().is_empty() {
            return string_of("\u{2022}\u{2022}\u{2022}\u{2022}\u{2022}\u{2022}\u{2022}\u{2022}");
        }
        let n = self.password.as_str().as_bytes().len();
        crate::render::html::repeat_str("*", n)
    }

    /// The status line under the form: the error, or a progress note while
    /// signing in, or the key help.
    pub fn status_line(&self) -> (s: String)
        ensures
            s@ == match self.error {
                Some(e) => "  "@ + e@,
                None => if self.logging_in { "  Signing in..."@ } else { "  [Tab] switch  [Enter] sign in  [Esc] quit"@ },
            },
    {
        match &self.error {
            Some(e) => {
                let mut s = String::from_str("  ");
                s.append(e.as_str());
                s
            },
            None => if self.logging_in {
                string_of("  Signing in...")
            } else {
                string_of("  [Tab] switch  [Enter] sign in  [Esc] quit")
            },
        }
    }
}

/// `s` without its last character (unchanged when empty).
pub open spec fn drop_last_char(s: Seq<char>) -> Seq<char> {
    if s.len() > 0 { s.drop_last() } else { s }
}

fn without_last(s: &String) -> (r: String)
    ensures
        r@ == drop_last_char(s@),
{
    let v = crate::text::chars_of(s.as_str());
    let mut r = String::new();
    if v.len() > 0 {
        crate::text::push_chars(&mut r, &v, 0, v.len() - 1);
        proof {
            assert(v@.subrange(0, v@.len() - 1) == v@.drop_last());
        }
    }
    r
}

} // verus!
