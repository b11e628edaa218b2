//! One login attempt, step by step.
//!
//! An attempt is a short exchange: the stored credential is read, the code is
//! exchanged for a token, the token is used to read the email. The client does
//! none of this itself. It says what is to be done next, is handed the answer,
//! and says what follows from it.

use crate::client::{credential_or_missing, token_exchange, GoogleClient};
use crate::credential::{optional_credential, CredentialView, ProviderCredential};
use crate::error::{outcome, AuthError, AuthErrorView, MissingField};
use crate::request::{
    user_info_request, TokenRequest, TokenRequestView, UserInfoRequest, UserInfoRequestView,
    USER_INFO_ENDPOINT,
};
use crate::response::{TokenExchangeResult, TokenExchangeView, UserEmailResult, UserEmailView};
use vstd::prelude::*;
use vstd::string::*;

verus! {

/// How far an attempt has come: what it is waiting for.
#[derive(Clone, Debug, PartialEq, Eq)]
pub enum LoginState {
    AwaitingCredential { code: String },
    AwaitingToken,
    AwaitingUserInfo,
    Finished,
}

/// A [`LoginState`] with its text as a sequence of characters.
pub enum LoginStateView {
    AwaitingCredential { code: Seq<char> },
    AwaitingToken,
    AwaitingUserInfo,
    Finished,
}

impl View for LoginState {
    type V = LoginStateView;

    open spec fn view(&self) -> LoginStateView {
        match *self {
            LoginState::AwaitingCredential { code } => LoginStateView::AwaitingCredential {
                code: code@,
            },
            LoginState::AwaitingToken => LoginStateView::AwaitingToken,
            LoginState::AwaitingUserInfo => LoginStateView::AwaitingUserInfo,
            LoginState::Finished => LoginStateView::Finished,
        }
    }
}

/// An answer from outside: what the store holds, or what an endpoint said.
#[derive(Clone, Debug, PartialEq, Eq)]
pub enum LoginEvent {
    Credential(Option<ProviderCredential>),
    Token(TokenExchangeResult),
    UserInfo(UserEmailResult),
}

/// A [`LoginEvent`] with its texts as sequences of characters.
pub enum LoginEventView {
    Credential(Option<CredentialView>),
    Token(TokenExchangeView),
    UserInfo(UserEmailView),
}

impl View for LoginEvent {
    type V = LoginEventView;

    open spec fn view(&self) -> LoginEventView {
        match *self {
            LoginEvent::Credential(found) => LoginEventView::Credential(optional_credential(found)),
            LoginEvent::Token(token) => LoginEventView::Token(token@),
            LoginEvent::UserInfo(answer) => LoginEventView::UserInfo(answer@),
        }
    }
}

/// What is to be done next. The first three ask for an answer; the last two end
/// the attempt.
#[derive(Clone, Debug, PartialEq, Eq)]
pub enum LoginAction {
    ReadCredential,
    ExchangeToken(TokenRequest),
    FetchUserInfo(UserInfoRequest),
    Succeed(String),
    Fail(AuthError),
}

/// A [`LoginAction`] with its texts as sequences of characters.
pub enum LoginActionView {
    ReadCredential,
    ExchangeToken(TokenRequestView),
    FetchUserInfo(UserInfoRequestView),
    Succeed(Seq<char>),
    Fail(AuthErrorView),
}

impl View for LoginAction {
    type V = LoginActionView;

    open spec fn view(&self) -> LoginActionView {
        match *self {
            LoginAction::ReadCredential => LoginActionView::ReadCredential,
            LoginAction::ExchangeToken(request) => LoginActionView::ExchangeToken(request@),
            LoginAction::FetchUserInfo(request) => LoginActionView::FetchUserInfo(request@),
            LoginAction::Succeed(email) => LoginActionView::Succeed(email@),
            LoginAction::Fail(error) => LoginActionView::Fail(error@),
        }
    }
}

/// The user-info request for a token answer. An answer without an access token
/// is an error, whatever else it holds.
pub open spec fn user_info_for(token: TokenExchangeView) -> Result<
    UserInfoRequestView,
    AuthErrorView,
> {
    if token.access_token.len() == 0 {
        Err(AuthErrorView::TokenExchangeError)
    } else {
        Ok(user_info_request(token.access_token))
    }
}

/// The email of a user-info answer. An error object wins over the email and its
/// message is passed on as it is; without one the email is returned as it is,
/// empty or not.
pub open spec fn email_of(answer: UserEmailView) -> Result<Seq<char>, AuthErrorView> {
    match answer.error {
        Some(error) => Err(AuthErrorView::ProviderError(error.message)),
        None => Ok(answer.email),
    }
}

/// The state and the action with which an attempt begins.
pub open spec fn first_step(code: Seq<char>) -> (LoginStateView, LoginActionView) {
    (LoginStateView::AwaitingCredential { code }, LoginActionView::ReadCredential)
}

/// The attempt ends in failure.
pub open spec fn failed(error: AuthErrorView) -> (LoginStateView, LoginActionView) {
    (LoginStateView::Finished, LoginActionView::Fail(error))
}

/// The state after an answer, and the action that follows from it. An answer
/// that the state was not waiting for ends the attempt.
pub open spec fn next_step(state: LoginStateView, event: LoginEventView) -> (
    LoginStateView,
    LoginActionView,
) {
    match (state, event) {
        (LoginStateView::AwaitingCredential { code }, LoginEventView::Credential(found)) => {
            match credential_or_missing(found) {
                Ok(credential) => match token_exchange(code, credential) {
                    Ok(request) => (
                        LoginStateView::AwaitingToken,
                        LoginActionView::ExchangeToken(request),
                    ),
                    Err(error) => failed(error),
                },
                Err(error) => failed(error),
            }
        },
        (LoginStateView::AwaitingToken, LoginEventView::Token(token)) => {
            match user_info_for(token) {
                Ok(request) => (
                    LoginStateView::AwaitingUserInfo,
                    LoginActionView::FetchUserInfo(request),
                ),
                Err(error) => failed(error),
            }
        },
        (LoginStateView::AwaitingUserInfo, LoginEventView::UserInfo(answer)) => {
            match email_of(answer) {
                Ok(email) => (LoginStateView::Finished, LoginActionView::Succeed(email)),
                Err(error) => failed(error),
            }
        },
        _ => failed(AuthErrorView::OutOfSequence),
    }
}

/// How an attempt ends, given what the store holds and what the two endpoints
/// answer: with the email, or with the first error on the way to it.
pub open spec fn attempt_outcome(
    code: Seq<char>,
    found: Option<CredentialView>,
    token: TokenExchangeView,
    answer: UserEmailView,
) -> Result<Seq<char>, AuthErrorView> {
    match credential_or_missing(found) {
        Err(error) => Err(error),
        Ok(credential) => match token_exchange(code, credential) {
            Err(error) => Err(error),
            Ok(_) => match user_info_for(token) {
                Err(error) => Err(error),
                Ok(_) => email_of(answer),
            },
        },
    }
}

/// Whether an action asks for something to be sent to the provider.
pub open spec fn is_request(action: LoginActionView) -> bool {
    action is ExchangeToken || action is FetchUserInfo
}

/// Whether an action ends the attempt.
pub open spec fn is_final(action: LoginActionView) -> bool {
    action is Succeed || action is Fail
}

/// With a credential that lacks the client secret or the redirect URI, an attempt
/// fails on the credential, whatever the code is, and nothing is sent.
pub proof fn lemma_incomplete_credential_fails(code: Seq<char>, credential: CredentialView)
    requires
        credential.client_secret is None || credential.redirect_uri is None,
    ensures
        next_step(first_step(code).0, LoginEventView::Credential(Some(credential))) == failed(
            AuthErrorView::ConfigError(
                if credential.client_secret is None {
                    MissingField::ClientSecret
                } else {
                    MissingField::RedirectUri
                },
            ),
        ),
        next_step(first_step(code).0, LoginEventView::Credential(None)) == failed(
            AuthErrorView::CredentialMissing,
        ),
{
}

/// A token answer without an access token ends the attempt with a token-exchange
/// error: the user-info endpoint is not called.
pub proof fn lemma_empty_token_fails(token: TokenExchangeView)
    requires
        token.access_token.len() == 0,
    ensures
        next_step(LoginStateView::AwaitingToken, LoginEventView::Token(token)) == failed(
            AuthErrorView::TokenExchangeError,
        ),
{
}

/// An attempt, from its first step on, asks for at most three answers, in their
/// order: the credential, the token, the email. It succeeds with the email where
/// all three are good and the user-info request presented the token it got. It
/// fails with the first error, at the step where that error shows.
pub proof fn lemma_attempt(
    code: Seq<char>,
    found: Option<CredentialView>,
    token: TokenExchangeView,
    answer: UserEmailView,
)
    ensures
        ({
            let (state0, action0) = first_step(code);
            let (state1, action1) = next_step(state0, LoginEventView::Credential(found));
            let (state2, action2) = next_step(state1, LoginEventView::Token(token));
            let (state3, action3) = next_step(state2, LoginEventView::UserInfo(answer));
            &&& action0 is ReadCredential
            &&& match attempt_outcome(code, found, token, answer) {
                Ok(email) => {
                    &&& action1 == LoginActionView::ExchangeToken(
                        token_exchange(code, found->0)->Ok_0,
                    )
                    &&& action2 == LoginActionView::FetchUserInfo(
                        user_info_request(token.access_token),
                    )
                    &&& action3 == LoginActionView::Succeed(email)
                    &&& email == answer.email
                },
                Err(error) => {
                    ||| action1 == LoginActionView::Fail(error)
                    ||| action1 is ExchangeToken && action2 == LoginActionView::Fail(error)
                    ||| action1 is ExchangeToken && action2 is FetchUserInfo && action3
                        == LoginActionView::Fail(error)
                },
            }
        }),
{
}

/// An action that ends the attempt leaves it finished, and only then is it
/// finished; a finished attempt sends nothing, whatever arrives.
pub proof fn lemma_finished_is_final(state: LoginStateView, event: LoginEventView)
    ensures
        is_final(next_step(state, event).1) <==> next_step(state, event).0 is Finished,
        is_final(next_step(state, event).1) || is_request(next_step(state, event).1),
        state is Finished ==> next_step(state, event) == failed(AuthErrorView::OutOfSequence),
{
}

/// What the client sends depends on what it is given and on nothing else: two
/// attempts in the same state that get the same answer go on in the same way,
/// with the same request.
pub proof fn lemma_same_answer_same_step(
    state: LoginState,
    event: LoginEvent,
    step: (LoginState, LoginAction),
    other_state: LoginState,
    other_event: LoginEvent,
    other_step: (LoginState, LoginAction),
)
    requires
        state@ == other_state@,
        event@ == other_event@,
        step@ == next_step(state@, event@),
        other_step@ == next_step(other_state@, other_event@),
    ensures
        step@ == other_step@,
{
}

impl GoogleClient {
    /// Builds the request that reads the email with the token just received.
    pub fn user_info_request(&self, token: TokenExchangeResult) -> (result: Result<
        UserInfoRequest,
        AuthError,
    >)
        ensures
            outcome(result) == user_info_for(token@),
    {
        if token.access_token.as_str().is_empty() {
            return Err(AuthError::TokenExchangeError);
        }
        let authorization = "Bearer ".to_owned().concat(token.access_token.as_str());
        Ok(UserInfoRequest { url: USER_INFO_ENDPOINT.to_owned(), authorization })
    }

    /// Reads the email, or the provider's error, out of a user-info answer.
    pub fn user_email(&self, answer: UserEmailResult) -> (result: Result<String, AuthError>)
        ensures
            outcome(result) == email_of(answer@),
    {
        if let Some(error) = answer.error {
            return Err(AuthError::ProviderError(error.message));
        }
        Ok(answer.email)
    }

    /// Begins an attempt with the code that the provider's redirect brought. The
    /// code is passed on to the provider as it is.
    pub fn fetch_user_email(&self, code: String) -> (step: (LoginState, LoginAction))
        ensures
            step@ == first_step(code@),
    {
        (LoginState::AwaitingCredential { code }, LoginAction::ReadCredential)
    }

    /// Takes the answer to the last action and gives the next state and action.
    pub fn advance(&self, state: LoginState, event: LoginEvent) -> (step: (
        LoginState,
        LoginAction,
    ))
        ensures
            step@ == next_step(state@, event@),
    {
        match (state, event) {
            (LoginState::AwaitingCredential { code }, LoginEvent::Credential(found)) => {
                match self.read_credential(found) {
                    Ok(credential) => match self.exchange_access_token(code, credential) {
                        Ok(request) => (LoginState::AwaitingToken, LoginAction::ExchangeToken(request)),
                        Err(error) => (LoginState::Finished, LoginAction::Fail(error)),
                    },
                    Err(error) => (LoginState::Finished, LoginAction::Fail(error)),
                }
            },
            (LoginState::AwaitingToken, LoginEvent::Token(token)) => {
                match self.user_info_request(token) {
                    Ok(request) => (
                        LoginState::AwaitingUserInfo,
                        LoginAction::FetchUserInfo(request),
                    ),
                    Err(error) => (LoginState::Finished, LoginAction::Fail(error)),
                }
            },
            (LoginState::AwaitingUserInfo, LoginEvent::UserInfo(answer)) => {
                match self.user_email(answer) {
                    Ok(email) => (LoginState::Finished, LoginAction::Succeed(email)),
                    Err(error) => (LoginState::Finished, LoginAction::Fail(error)),
                }
            },
            _ => (LoginState::Finished, LoginAction::Fail(AuthError::OutOfSequence)),
        }
    }
}

} // verus!
