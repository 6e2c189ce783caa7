//! Error types for the email sending system.

use vstd::prelude::*;
use vstd::std_specs::convert::FromSpecImpl;
use crate::render::renderer::RenderError;

verus! {

/// Errors that can occur when sending emails.
#[derive(Debug)]
pub enum EmailError {
    /// The email could not be rendered to HTML/text.
    Render(String),
    /// The email provider returned an error.
    Provider(String),
    /// An email address could not be parsed.
    InvalidAddress(String),
    /// A required field was missing from the email message.
    MissingField(String),
}

impl EmailError {
    /// The message of this error.
    pub open spec fn message(self) -> Seq<char> {
        match self {
            EmailError::Render(m) => "render error: "@ + m@,
            EmailError::Provider(m) => "provider error: "@ + m@,
            EmailError::InvalidAddress(m) => "invalid address: "@ + m@,
            EmailError::MissingField(m) => "missing required field: "@ + m@,
        }
    }

    /// The text of this error.
    pub fn to_string(&self) -> (s: String)
        ensures
            s@ == self.message(),
    {
        let (prefix, m) = match self {
            EmailError::Render(m) => ("render error: ", m),
            EmailError::Provider(m) => ("provider error: ", m),
            EmailError::InvalidAddress(m) => ("invalid address: ", m),
            EmailError::MissingField(m) => ("missing required field: ", m),
        };
        let mut s = String::from_str(prefix);
        s.append(m.as_str());
        s
    }
}

/// The value of an error: its variant and its text.
pub enum EmailErrorView {
    Render(Seq<char>),
    Provider(Seq<char>),
    InvalidAddress(Seq<char>),
    MissingField(Seq<char>),
}

impl View for EmailError {
    type V = EmailErrorView;

    open spec fn view(&self) -> EmailErrorView {
        match self {
            EmailError::Render(m) => EmailErrorView::Render(m@),
            EmailError::Provider(m) => EmailErrorView::Provider(m@),
            EmailError::InvalidAddress(m) => EmailErrorView::InvalidAddress(m@),
            EmailError::MissingField(m) => EmailErrorView::MissingField(m@),
        }
    }
}

impl From<RenderError> for EmailError {
    /// A render error becomes `EmailError::Render` with the render error's
    /// text.
    fn from(err: RenderError) -> (e: EmailError)
        ensures
            e matches EmailError::Render(m) && m@ == err.message(),
    {
        EmailError::Render(err.to_string())
    }
}

impl FromSpecImpl<RenderError> for EmailError {
    /// The result is described by the `ensures` of `from` above, over the
    /// error's text; no spec function names the exact string value.
    open spec fn obeys_from_spec() -> bool {
        false
    }

    open spec fn from_spec(v: RenderError) -> EmailError {
        arbitrary()
    }
}

} // verus!
