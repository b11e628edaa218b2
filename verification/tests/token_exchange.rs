use google_oauth::client::GoogleClient;
use google_oauth::credential::ProviderCredential;
use google_oauth::error::{AuthError, MissingField};
use google_oauth::request::{TokenRequest, UserInfoRequest, TOKEN_ENDPOINT, USER_INFO_ENDPOINT};
use google_oauth::response::{ProviderErrorPayload, TokenExchangeResult, UserEmailResult};

fn full_credential() -> ProviderCredential {
    ProviderCredential {
        client_id: "abc123".to_string(),
        client_secret: Some("s3cret".to_string()),
        redirect_uri: Some("https://app.example.com/cb".to_string()),
    }
}

fn token(access_token: &str) -> TokenExchangeResult {
    TokenExchangeResult {
        access_token: access_token.to_string(),
        expires_in: 3599,
        token_type: "Bearer".to_string(),
        scope: "email".to_string(),
    }
}

#[test]
fn stored_credential_is_handed_on() {
    let client = GoogleClient::new();
    assert_eq!(client.read_credential(Some(full_credential())), Ok(full_credential()));
}

#[test]
fn missing_credential_is_an_error() {
    let client = GoogleClient::new();
    assert_eq!(client.read_credential(None), Err(AuthError::CredentialMissing));
}

#[test]
fn token_request_holds_the_five_fields_in_order() {
    let client = GoogleClient::new();
    let request = client.exchange_access_token("4/0AX4XfWh".to_string(), full_credential());
    assert_eq!(
        request,
        Ok(TokenRequest {
            url: "https://oauth2.googleapis.com/token".to_string(),
            form: vec![
                ("client_id".to_string(), "abc123".to_string()),
                ("client_secret".to_string(), "s3cret".to_string()),
                ("code".to_string(), "4/0AX4XfWh".to_string()),
                ("grant_type".to_string(), "authorization_code".to_string()),
                ("redirect_uri".to_string(), "https://app.example.com/cb".to_string()),
            ],
        })
    );
    assert_eq!(TOKEN_ENDPOINT, "https://oauth2.googleapis.com/token");
}

#[test]
fn token_request_passes_the_code_on_as_it_is() {
    let client = GoogleClient::new();
    for code in ["", " ", "a&b=c", "\u{e9}"] {
        let request = client.exchange_access_token(code.to_string(), full_credential()).unwrap();
        assert_eq!(request.form[2], ("code".to_string(), code.to_string()));
    }
}

#[test]
fn token_request_needs_the_client_secret() {
    let client = GoogleClient::new();
    let mut credential = full_credential();
    credential.client_secret = None;
    assert_eq!(
        client.exchange_access_token("code".to_string(), credential),
        Err(AuthError::ConfigError(MissingField::ClientSecret))
    );
}

#[test]
fn token_request_needs_the_redirect_uri() {
    let client = GoogleClient::new();
    let mut credential = full_credential();
    credential.redirect_uri = None;
    assert_eq!(
        client.exchange_access_token("code".to_string(), credential),
        Err(AuthError::ConfigError(MissingField::RedirectUri))
    );
}

#[test]
fn missing_client_secret_is_reported_first() {
    let client = GoogleClient::new();
    let credential = ProviderCredential {
        client_id: "abc123".to_string(),
        client_secret: None,
        redirect_uri: None,
    };
    assert_eq!(
        client.exchange_access_token("code".to_string(), credential),
        Err(AuthError::ConfigError(MissingField::ClientSecret))
    );
}

#[test]
fn empty_client_secret_is_a_client_secret() {
    let client = GoogleClient::new();
    let credential = ProviderCredential {
        client_id: "".to_string(),
        client_secret: Some("".to_string()),
        redirect_uri: Some("".to_string()),
    };
    let request = client.exchange_access_token("code".to_string(), credential).unwrap();
    assert_eq!(request.form[0], ("client_id".to_string(), "".to_string()));
    assert_eq!(request.form[1], ("client_secret".to_string(), "".to_string()));
    assert_eq!(request.form[4], ("redirect_uri".to_string(), "".to_string()));
}

#[test]
fn user_info_request_presents_the_token_as_bearer() {
    let client = GoogleClient::new();
    assert_eq!(
        client.user_info_request(token("T")),
        Ok(UserInfoRequest {
            url: "https://www.googleapis.com/oauth2/v2/userinfo?alt=json&fields=email".to_string(),
            authorization: "Bearer T".to_string(),
        })
    );
    assert_eq!(
        USER_INFO_ENDPOINT,
        "https://www.googleapis.com/oauth2/v2/userinfo?alt=json&fields=email"
    );
}

#[test]
fn user_info_request_reads_nothing_but_the_access_token() {
    let client = GoogleClient::new();
    let bare = TokenExchangeResult {
        access_token: "ya29.a0Af".to_string(),
        expires_in: 0,
        token_type: String::new(),
        scope: String::new(),
    };
    assert_eq!(client.user_info_request(bare), client.user_info_request(token("ya29.a0Af")));
    assert_eq!(client.user_info_request(token(" ")).unwrap().authorization, "Bearer  ");
}

#[test]
fn empty_access_token_is_a_token_exchange_error() {
    let client = GoogleClient::new();
    assert_eq!(client.user_info_request(token("")), Err(AuthError::TokenExchangeError));
}

#[test]
fn email_is_returned_as_it_is() {
    let client = GoogleClient::new();
    for email in ["a@b.com", "", "not an email"] {
        let answer = UserEmailResult { email: email.to_string(), error: None };
        assert_eq!(client.user_email(answer), Ok(email.to_string()));
    }
}

#[test]
fn provider_error_wins_over_the_email() {
    let client = GoogleClient::new();
    let answer = UserEmailResult {
        email: "a@b.com".to_string(),
        error: Some(ProviderErrorPayload {
            code: 401,
            message: "invalid_token".to_string(),
            status: "UNAUTHENTICATED".to_string(),
        }),
    };
    assert_eq!(client.user_email(answer), Err(AuthError::ProviderError("invalid_token".to_string())));
}

#[test]
fn error_messages() {
    assert_eq!(AuthError::CredentialMissing.message(), "No Google OAuth credential found");
    assert_eq!(
        AuthError::ConfigError(MissingField::ClientSecret).message(),
        "Missing client secret"
    );
    assert_eq!(AuthError::ConfigError(MissingField::RedirectUri).message(), "Missing redirect uri");
    assert_eq!(AuthError::TokenExchangeError.message(), "Empty access token from Google OAuth");
    assert_eq!(AuthError::ProviderError("invalid_token".to_string()).message(), "invalid_token");
    assert_eq!(AuthError::ProviderError(String::new()).message(), "");
    assert_eq!(
        AuthError::MalformedUrl.message(),
        "Google OAuth authorization endpoint is not a plain URL"
    );
    assert_eq!(AuthError::OutOfSequence.message(), "Unexpected answer for this login attempt");
}
