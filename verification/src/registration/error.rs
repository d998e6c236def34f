//! How a registration is refused.

use vstd::prelude::*;

verus! {

/// The answer to a registration that is refused.
#[derive(Debug, Clone, PartialEq, Eq)]
pub struct RegistrationError {
    /// The HTTP status.
    pub status: u16,
    /// The error code of the answer's body.
    pub error: String,
    /// The description of the answer's body.
    pub description: String,
}

pub struct ErrorView {
    pub status: u16,
    pub error: Seq<char>,
    pub description: Seq<char>,
}

impl View for RegistrationError {
    type V = ErrorView;

    open spec fn view(&self) -> ErrorView {
        ErrorView { status: self.status, error: self.error@, description: self.description@ }
    }
}

pub fn registration_error(status: u16, error: &str, description: &str) -> (result:
    RegistrationError)
    ensures
        result@ == (ErrorView { status, error: error@, description: description@ }),
{
    RegistrationError { status, error: error.to_owned(), description: description.to_owned() }
}

/// A request whose metadata is refused.
pub open spec fn invalid_metadata(description: Seq<char>) -> ErrorView {
    ErrorView { status: 400, error: "invalid_client_metadata"@, description }
}

/// A request whose redirect URIs are refused.
pub open spec fn invalid_redirect_uri() -> ErrorView {
    ErrorView {
        status: 400,
        error: "invalid_redirect_uri"@,
        description: "redirect_uris must contain unique absolute HTTPS or loopback callback URLs"@,
    }
}

/// A fault on the server's side.
pub open spec fn server_error(description: Seq<char>) -> ErrorView {
    ErrorView { status: 500, error: "server_error"@, description }
}

/// A registration that is not possible at the moment.
pub open spec fn temporarily_unavailable(status: u16, description: Seq<char>) -> ErrorView {
    ErrorView { status, error: "temporarily_unavailable"@, description }
}

pub fn metadata_error(description: &str) -> (result: RegistrationError)
    ensures
        result@ == invalid_metadata(description@),
{
    registration_error(400, "invalid_client_metadata", description)
}

pub fn redirect_uri_error() -> (result: RegistrationError)
    ensures
        result@ == invalid_redirect_uri(),
{
    registration_error(
        400,
        "invalid_redirect_uri",
        "redirect_uris must contain unique absolute HTTPS or loopback callback URLs",
    )
}

pub fn storage_error(description: &str) -> (result: RegistrationError)
    ensures
        result@ == server_error(description@),
{
    registration_error(500, "server_error", description)
}

/// `result` fails as `fault` describes.
pub open spec fn refused_as<T>(result: Result<T, RegistrationError>, fault: ErrorView) -> bool {
    result matches Err(error) && error@ == fault
}

}
