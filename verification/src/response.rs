//! What the provider's endpoints answer, once decoded.
//!
//! Decoding is tolerant: a field that the answer lacks holds its default, the
//! empty text or zero, so every answer of the right shape gives a value here.

use vstd::prelude::*;

verus! {

/// The token endpoint's answer.
#[derive(Clone, Debug, PartialEq, Eq)]
pub struct TokenExchangeResult {
    pub access_token: String,
    pub expires_in: i32,
    pub token_type: String,
    pub scope: String,
}

/// A [`TokenExchangeResult`] with its texts as sequences of characters.
pub struct TokenExchangeView {
    pub access_token: Seq<char>,
    pub expires_in: i32,
    pub token_type: Seq<char>,
    pub scope: Seq<char>,
}

impl View for TokenExchangeResult {
    type V = TokenExchangeView;

    open spec fn view(&self) -> TokenExchangeView {
        TokenExchangeView {
            access_token: self.access_token@,
            expires_in: self.expires_in,
            token_type: self.token_type@,
            scope: self.scope@,
        }
    }
}

/// The error object that the user-info endpoint reports in place of an email.
#[derive(Clone, Debug, PartialEq, Eq)]
pub struct ProviderErrorPayload {
    pub code: i32,
    pub message: String,
    pub status: String,
}

/// A [`ProviderErrorPayload`] with its texts as sequences of characters.
pub struct ProviderErrorView {
    pub code: i32,
    pub message: Seq<char>,
    pub status: Seq<char>,
}

impl View for ProviderErrorPayload {
    type V = ProviderErrorView;

    open spec fn view(&self) -> ProviderErrorView {
        ProviderErrorView { code: self.code, message: self.message@, status: self.status@ }
    }
}

/// The user-info endpoint's answer: an email, or an error object beside it.
#[derive(Clone, Debug, PartialEq, Eq)]
pub struct UserEmailResult {
    pub email: String,
    pub error: Option<ProviderErrorPayload>,
}

/// A [`UserEmailResult`] with its texts as sequences of characters.
pub struct UserEmailView {
    pub email: Seq<char>,
    pub error: Option<ProviderErrorView>,
}

impl View for UserEmailResult {
    type V = UserEmailView;

    open spec fn view(&self) -> UserEmailView {
        UserEmailView {
            email: self.email@,
            error: match self.error {
                Some(error) => Some(error@),
                None => None,
            },
        }
    }
}

} // verus!
