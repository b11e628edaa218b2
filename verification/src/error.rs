//! What can end a login attempt.

use vstd::prelude::*;

verus! {

/// A field of the stored credential that an operation cannot do without.
#[derive(Clone, Copy, Debug, PartialEq, Eq, Structural)]
pub enum MissingField {
    ClientSecret,
    RedirectUri,
}

/// Why an operation of the client failed. Every error ends the attempt.
#[derive(Clone, Debug, PartialEq, Eq)]
pub enum AuthError {
    /// Nothing is stored for the provider.
    CredentialMissing,
    /// The stored credential lacks a field that the operation needs.
    ConfigError(MissingField),
    /// The token endpoint answered without a usable access token.
    TokenExchangeError,
    /// The user-info endpoint answered with an error object; this is its message.
    ProviderError(String),
    /// The authorization endpoint did not survive URL parsing unchanged.
    MalformedUrl,
    /// An answer arrived that the attempt was not waiting for.
    OutOfSequence,
}

/// An [`AuthError`] with its text as a sequence of characters.
pub enum AuthErrorView {
    CredentialMissing,
    ConfigError(MissingField),
    TokenExchangeError,
    ProviderError(Seq<char>),
    MalformedUrl,
    OutOfSequence,
}

impl View for AuthError {
    type V = AuthErrorView;

    open spec fn view(&self) -> AuthErrorView {
        match *self {
            AuthError::CredentialMissing => AuthErrorView::CredentialMissing,
            AuthError::ConfigError(field) => AuthErrorView::ConfigError(field),
            AuthError::TokenExchangeError => AuthErrorView::TokenExchangeError,
            AuthError::ProviderError(message) => AuthErrorView::ProviderError(message@),
            AuthError::MalformedUrl => AuthErrorView::MalformedUrl,
            AuthError::OutOfSequence => AuthErrorView::OutOfSequence,
        }
    }
}

/// A result of the client with both sides as their views.
pub open spec fn outcome<T: View>(result: Result<T, AuthError>) -> Result<T::V, AuthErrorView> {
    match result {
        Ok(value) => Ok(value@),
        Err(error) => Err(error@),
    }
}

/// The text shown for an error. A provider's message is passed on verbatim.
pub open spec fn error_text(error: AuthErrorView) -> Seq<char> {
    match error {
        AuthErrorView::CredentialMissing => "No Google OAuth credential found"@,
        AuthErrorView::ConfigError(MissingField::ClientSecret) => "Missing client secret"@,
        AuthErrorView::ConfigError(MissingField::RedirectUri) => "Missing redirect uri"@,
        AuthErrorView::TokenExchangeError => "Empty access token from Google OAuth"@,
        AuthErrorView::ProviderError(message) => message,
        AuthErrorView::MalformedUrl => "Google OAuth authorization endpoint is not a plain URL"@,
        AuthErrorView::OutOfSequence => "Unexpected answer for this login attempt"@,
    }
}

impl AuthError {
    /// The text shown for this error.
    pub fn message(&self) -> (text: String)
        ensures
            text@ == error_text(self@),
    {
        match self {
            AuthError::CredentialMissing => "No Google OAuth credential found".to_owned(),
            AuthError::ConfigError(MissingField::ClientSecret) => "Missing client secret".to_owned(),
            AuthError::ConfigError(MissingField::RedirectUri) => "Missing redirect uri".to_owned(),
            AuthError::TokenExchangeError => "Empty access token from Google OAuth".to_owned(),
            AuthError::ProviderError(message) => message.clone(),
            AuthError::MalformedUrl => "Google OAuth authorization endpoint is not a plain URL".to_owned(),
            AuthError::OutOfSequence => "Unexpected answer for this login attempt".to_owned(),
        }
    }
}

} // verus!
