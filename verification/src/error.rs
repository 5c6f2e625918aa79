//! The failures that the broker reports.

use vstd::prelude::*;

verus! {

/// Why an operation of the broker failed.
#[derive(Debug, PartialEq, Eq)]
pub enum Error {
    /// The account name is not configured.
    UnknownAccount,
    /// The account holds no tokens yet: it has to be authorized first.
    NotAuthorized,
    /// A refresh was asked for an account that holds no tokens.
    NoTokensToRefresh,
    /// The redirect URL carries no `code` parameter.
    MissingAuthorizationCode,
    /// A text that should be a URL is none.
    UrlConstructionError,
    /// The token endpoint's answer could not be read. `status` is present
    /// when the answer came with a failure status.
    ResponseParseError { body: String, status: Option<u16> },
    /// The token endpoint refused the grant.
    OAuthServerError { error: String, description: String },
    /// No answer came from the token endpoint.
    TransportError,
    /// Configuration or cache could not be read or written.
    PersistenceError,
}

/// The mathematical value of an [`Error`].
pub enum ErrorView {
    UnknownAccount,
    NotAuthorized,
    NoTokensToRefresh,
    MissingAuthorizationCode,
    UrlConstructionError,
    ResponseParseError { body: Seq<char>, status: Option<u16> },
    OAuthServerError { error: Seq<char>, description: Seq<char> },
    TransportError,
    PersistenceError,
}

impl View for Error {
    type V = ErrorView;

    open spec fn view(&self) -> ErrorView {
        match *self {
            Error::UnknownAccount => ErrorView::UnknownAccount,
            Error::NotAuthorized => ErrorView::NotAuthorized,
            Error::NoTokensToRefresh => ErrorView::NoTokensToRefresh,
            Error::MissingAuthorizationCode => ErrorView::MissingAuthorizationCode,
            Error::UrlConstructionError => ErrorView::UrlConstructionError,
            Error::ResponseParseError { body, status } => ErrorView::ResponseParseError {
                body: body@,
                status,
            },
            Error::OAuthServerError { error, description } => ErrorView::OAuthServerError {
                error: error@,
                description: description@,
            },
            Error::TransportError => ErrorView::TransportError,
            Error::PersistenceError => ErrorView::PersistenceError,
        }
    }
}

} // verus!
