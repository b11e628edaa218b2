//! The two requests that a login attempt sends to the provider.

use vstd::prelude::*;

verus! {

/// Where an authorization code is exchanged for an access token.
pub const TOKEN_ENDPOINT: &'static str = "https://oauth2.googleapis.com/token";

/// Where the email address of a token's owner is read, and nothing but the email.
pub const USER_INFO_ENDPOINT: &'static str =
    "https://www.googleapis.com/oauth2/v2/userinfo?alt=json&fields=email";

/// A form-encoded POST to the token endpoint. The fields are sent in this order.
#[derive(Clone, Debug, PartialEq, Eq)]
pub struct TokenRequest {
    pub url: String,
    pub form: Vec<(String, String)>,
}

/// A [`TokenRequest`] with its texts as sequences of characters.
pub struct TokenRequestView {
    pub url: Seq<char>,
    pub form: Seq<(Seq<char>, Seq<char>)>,
}

impl View for TokenRequest {
    type V = TokenRequestView;

    open spec fn view(&self) -> TokenRequestView {
        TokenRequestView { url: self.url@, form: self.form.deep_view() }
    }
}

/// A GET to the user-info endpoint. `authorization` is the value of the
/// `Authorization` header.
#[derive(Clone, Debug, PartialEq, Eq)]
pub struct UserInfoRequest {
    pub url: String,
    pub authorization: String,
}

/// A [`UserInfoRequest`] with its texts as sequences of characters.
pub struct UserInfoRequestView {
    pub url: Seq<char>,
    pub authorization: Seq<char>,
}

impl View for UserInfoRequest {
    type V = UserInfoRequestView;

    open spec fn view(&self) -> UserInfoRequestView {
        UserInfoRequestView { url: self.url@, authorization: self.authorization@ }
    }
}

/// The token request for an authorization code: the five fields of the exchange,
/// with the grant type fixed to the authorization-code flow.
pub open spec fn token_request(
    client_id: Seq<char>,
    client_secret: Seq<char>,
    code: Seq<char>,
    redirect_uri: Seq<char>,
) -> TokenRequestView {
    TokenRequestView {
        url: TOKEN_ENDPOINT@,
        form: seq![
            ("client_id"@, client_id),
            ("client_secret"@, client_secret),
            ("code"@, code),
            ("grant_type"@, "authorization_code"@),
            ("redirect_uri"@, redirect_uri),
        ],
    }
}

/// The user-info request that presents an access token as a bearer credential.
pub open spec fn user_info_request(access_token: Seq<char>) -> UserInfoRequestView {
    UserInfoRequestView { url: USER_INFO_ENDPOINT@, authorization: "Bearer "@ + access_token }
}

} // verus!
