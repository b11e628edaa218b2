//! The client of the one provider.

use crate::credential::{optional_credential, CredentialView, ProviderCredential};
use crate::error::{outcome, AuthError, AuthErrorView, MissingField};
use crate::request::{token_request, TokenRequest, TokenRequestView, TOKEN_ENDPOINT};
use vstd::prelude::*;
use vstd::string::*;

verus! {

/// The client for Google sign-in. It keeps nothing between calls.
#[derive(Clone, Copy, Debug)]
pub struct GoogleClient {}

/// What a lookup in the credential store means for an operation: the credential,
/// or the error that nothing is stored.
pub open spec fn credential_or_missing(found: Option<CredentialView>) -> Result<
    CredentialView,
    AuthErrorView,
> {
    match found {
        Some(credential) => Ok(credential),
        None => Err(AuthErrorView::CredentialMissing),
    }
}

/// The token request for a code under a credential. The client secret is looked
/// for first, then the redirect URI; the first one missing is the error.
pub open spec fn token_exchange(code: Seq<char>, credential: CredentialView) -> Result<
    TokenRequestView,
    AuthErrorView,
> {
    match (credential.client_secret, credential.redirect_uri) {
        (None, _) => Err(AuthErrorView::ConfigError(MissingField::ClientSecret)),
        (Some(_), None) => Err(AuthErrorView::ConfigError(MissingField::RedirectUri)),
        (Some(client_secret), Some(redirect_uri)) => Ok(
            token_request(credential.client_id, client_secret, code, redirect_uri),
        ),
    }
}

impl GoogleClient {
    pub fn new() -> (client: GoogleClient) {
        GoogleClient {  }
    }

    /// Takes what the credential store returned for this provider.
    pub fn read_credential(&self, found: Option<ProviderCredential>) -> (result: Result<
        ProviderCredential,
        AuthError,
    >)
        ensures
            outcome(result) == credential_or_missing(optional_credential(found)),
    {
        match found {
            Some(credential) => Ok(credential),
            None => Err(AuthError::CredentialMissing),
        }
    }

    /// Builds the request that exchanges `code` for an access token.
    pub fn exchange_access_token(&self, code: String, credential: ProviderCredential) -> (result:
        Result<TokenRequest, AuthError>)
        ensures
            outcome(result) == token_exchange(code@, credential@),
    {
        let Some(client_secret) = credential.client_secret else {
            return Err(AuthError::ConfigError(MissingField::ClientSecret));
        };
        let Some(redirect_uri) = credential.redirect_uri else {
            return Err(AuthError::ConfigError(MissingField::RedirectUri));
        };
        let mut form: Vec<(String, String)> = Vec::new();
        form.push(("client_id".to_owned(), credential.client_id));
        form.push(("client_secret".to_owned(), client_secret));
        form.push(("code".to_owned(), code));
        form.push(("grant_type".to_owned(), "authorization_code".to_owned()));
        form.push(("redirect_uri".to_owned(), redirect_uri));
        let request = TokenRequest { url: TOKEN_ENDPOINT.to_owned(), form };
        assert(request@.form =~= token_request(
            credential.client_id@,
            client_secret@,
            code@,
            redirect_uri@,
        ).form);
        Ok(request)
    }
}

} // verus!
