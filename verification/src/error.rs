//! What can go wrong, in words.
use vstd::prelude::*;

use crate::text::owned;

verus! {

/// A failure of a run or of a session.
#[derive(Debug, PartialEq, Eq)]
pub enum Error {
    /// The provider's stream did not do what it should.
    Api(String),
    /// A provider refused or failed.
    Provider { provider: String, message: String },
    /// There is no usable credential.
    Auth(String),
    /// A request makes no sense.
    Validation(String),
    /// The session could not be read or written.
    Session(String),
    /// An extension failed or refused.
    Extension(String),
    /// A failure from outside, in its own words.
    Other(String),
}

/// The mathematical value of an [`Error`].
#[verifier::ext_equal]
pub enum ErrorView {
    Api(Seq<char>),
    Provider { provider: Seq<char>, message: Seq<char> },
    Auth(Seq<char>),
    Validation(Seq<char>),
    Session(Seq<char>),
    Extension(Seq<char>),
    Other(Seq<char>),
}

impl View for Error {
    type V = ErrorView;

    open spec fn view(&self) -> ErrorView {
        match *self {
            Error::Api(m) => ErrorView::Api(m@),
            Error::Provider { provider, message } => ErrorView::Provider {
                provider: provider@,
                message: message@,
            },
            Error::Auth(m) => ErrorView::Auth(m@),
            Error::Validation(m) => ErrorView::Validation(m@),
            Error::Session(m) => ErrorView::Session(m@),
            Error::Extension(m) => ErrorView::Extension(m@),
            Error::Other(m) => ErrorView::Other(m@),
        }
    }
}

impl ErrorView {
    /// The failure in words.
    pub open spec fn text(self) -> Seq<char> {
        match self {
            ErrorView::Api(m) => "API error: "@ + m,
            ErrorView::Provider { provider, message } => "Provider error: "@ + provider + ": "@
                + message,
            ErrorView::Auth(m) => "Authentication error: "@ + m,
            ErrorView::Validation(m) => "Validation error: "@ + m,
            ErrorView::Session(m) => "Session error: "@ + m,
            ErrorView::Extension(m) => "Extension error: "@ + m,
            ErrorView::Other(m) => m,
        }
    }
}

fn prefixed(prefix: &str, message: &str) -> (r: String)
    ensures
        r@ == prefix@ + message@,
{
    let mut r = owned(prefix);
    r.push_str(message);
    r
}

impl Error {
    /// The failure in words.
    pub fn message(&self) -> (r: String)
        ensures
            r@ == self@.text(),
    {
        match self {
            Error::Api(m) => prefixed("API error: ", m.as_str()),
            Error::Provider { provider, message } => {
                let mut r = prefixed("Provider error: ", provider.as_str());
                r.push_str(": ");
                r.push_str(message.as_str());
                r
            },
            Error::Auth(m) => prefixed("Authentication error: ", m.as_str()),
            Error::Validation(m) => prefixed("Validation error: ", m.as_str()),
            Error::Session(m) => prefixed("Session error: ", m.as_str()),
            Error::Extension(m) => prefixed("Extension error: ", m.as_str()),
            Error::Other(m) => m.clone(),
        }
    }

    /// A failure of the provider's stream.
    pub fn api(message: &str) -> (r: Self)
        ensures
            r@ == ErrorView::Api(message@),
    {
        Error::Api(owned(message))
    }
}

impl Clone for Error {
    fn clone(&self) -> (r: Self)
        ensures
            r@ == self@,
    {
        match self {
            Error::Api(m) => Error::Api(m.clone()),
            Error::Provider { provider, message } => Error::Provider {
                provider: provider.clone(),
                message: message.clone(),
            },
            Error::Auth(m) => Error::Auth(m.clone()),
            Error::Validation(m) => Error::Validation(m.clone()),
            Error::Session(m) => Error::Session(m.clone()),
            Error::Extension(m) => Error::Extension(m.clone()),
            Error::Other(m) => Error::Other(m.clone()),
        }
    }
}

} // verus!
