//! Credential storage in a secrets vault: the keys secrets are stored
//! under, and how stored values are read back.
//!
//! Reading and writing the vault itself is the caller's part.

use vstd::prelude::*;
use crate::text::{chars_of, string_of, u64_text, nat_text};
use crate::send::direct::{parse_u16};
use crate::send::error::EmailError;
use crate::send::message::{Mailbox, MailboxView};

verus! {

broadcast use vstd::string::group_string_axioms;

/// The vault component that owns the email secrets.
pub open spec fn vault_component() -> Seq<char> {
    "ferrum-email"@
}

/// The vault key of a secret: `ferrum-email/` and its suffix.
pub open spec fn vault_key_of(suffix: Seq<char>) -> Seq<char> {
    "ferrum-email/"@ + suffix
}

/// The vault component that owns the email secrets.
pub fn component_name() -> (s: &'static str)
    ensures
        s@ == vault_component(),
{
    "ferrum-email"
}

/// The vault key of a secret.
pub fn vault_key(suffix: &str) -> (k: String)
    ensures
        k@ == vault_key_of(suffix@),
{
    let mut k = String::from_str("ferrum-email/");
    k.append(suffix);
    k
}

/// The key suffix of a custom secret: `custom/` and its name.
pub fn custom_key(key: &str) -> (k: String)
    ensures
        k@ == "custom/"@ + key@,
{
    let mut k = String::from_str("custom/");
    k.append(key);
    k
}

/// The prefix every key of the store begins with.
pub fn list_prefix() -> (s: String)
    ensures
        s@ == vault_key_of(seq![]),
{
    let s = vault_key("");
    proof {
        reveal_strlit("");
        assert(""@ =~= Seq::<char>::empty());
    }
    s
}

/// The stored text of an SMTP port.
pub fn port_text(port: u16) -> (s: String)
    ensures
        s@ == nat_text(port as nat),
{
    u64_text(port as u64)
}

/// The port a stored text holds: the text read as `str::parse::<u16>`
/// reads it, or a provider error naming the text.
pub fn port_from_secret(s: &str) -> (r: Result<u16, EmailError>)
    ensures
        match parse_u16(s@) {
            Some(p) => r == Ok::<u16, EmailError>(p),
            None => r matches Err(EmailError::Provider(m)) && m@ == "invalid SMTP port in vault: "@ + s@,
        },
{
    let v = chars_of(s);
    match crate::send::direct::parse_priority_chars(&v) {
        Some(p) => Ok(p),
        None => {
            let mut m = String::from_str("invalid SMTP port in vault: ");
            m.append(s);
            Err(EmailError::Provider(m))
        },
    }
}

/// The default sender from the stored address and, if one is stored, the
/// stored name.
pub fn default_from_of(email: String, name: Option<String>) -> (m: Mailbox)
    ensures
        m@ == (MailboxView {
            name: match name { Some(n) => Some(n@), None => None },
            email: email@,
        }),
{
    Mailbox { name, email }
}

/// The error of an access to a sealed vault (`storing` for a write).
pub fn sealed_error(storing: bool) -> (e: EmailError)
    ensures
        e matches EmailError::Provider(m) && m@ == if storing {
            "vault is sealed \u{2014} unseal before storing credentials"@
        } else {
            "vault is sealed \u{2014} unseal before accessing credentials"@
        },
{
    if storing {
        EmailError::Provider(string_of("vault is sealed \u{2014} unseal before storing credentials"))
    } else {
        EmailError::Provider(string_of("vault is sealed \u{2014} unseal before accessing credentials"))
    }
}

/// The error of a failed vault operation: `what` (e.g. `vault error for
/// <key>` or `vault list error`), a colon, and the vault's message.
pub fn vault_error(what: &str, detail: &str) -> (e: EmailError)
    ensures
        e matches EmailError::Provider(m) && m@ == what@ + ": "@ + detail@,
{
    let mut m = String::from_str(what);
    m.append(": ");
    m.append(detail);
    EmailError::Provider(m)
}

} // verus!
