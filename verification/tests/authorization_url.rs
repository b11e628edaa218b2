use google_oauth::authorization::{AUTHORIZATION_ENDPOINT, EMAIL_SCOPE};
use google_oauth::client::GoogleClient;
use google_oauth::credential::ProviderCredential;
use google_oauth::error::{AuthError, MissingField};
use google_oauth::query::append_pairs;

fn credential(client_id: &str, redirect_uri: Option<&str>) -> ProviderCredential {
    ProviderCredential {
        client_id: client_id.to_string(),
        client_secret: None,
        redirect_uri: redirect_uri.map(|uri| uri.to_string()),
    }
}

#[test]
fn authorization_url_is_the_endpoint_with_five_parameters() {
    let client = GoogleClient::new();
    let url = client
        .get_authorization_url(Some(credential("abc123", Some("https://app.example.com/oauth/callback"))))
        .unwrap();
    assert_eq!(
        url,
        "https://accounts.google.com/o/oauth2/v2/auth?client_id=abc123\
         &redirect_uri=https%3A%2F%2Fapp.example.com%2Foauth%2Fcallback\
         &response_type=code\
         &scope=https%3A%2F%2Fwww.googleapis.com%2Fauth%2Fuserinfo.email\
         &access_type=offline"
    );
}

#[test]
fn authorization_url_parses_back_to_its_parameters() {
    let client = GoogleClient::new();
    let url = client
        .get_authorization_url(Some(credential("my client&id=1", Some("https://h/cb?next=/a b#top"))))
        .unwrap();
    let parsed = reqwest::Url::parse(&url).unwrap();
    assert_eq!(parsed.scheme(), "https");
    assert_eq!(parsed.host_str(), Some("accounts.google.com"));
    assert_eq!(parsed.path(), "/o/oauth2/v2/auth");
    assert_eq!(parsed.fragment(), None);
    let pairs: Vec<(String, String)> = parsed.query_pairs().into_owned().collect();
    assert_eq!(
        pairs,
        vec![
            ("client_id".to_string(), "my client&id=1".to_string()),
            ("redirect_uri".to_string(), "https://h/cb?next=/a b#top".to_string()),
            ("response_type".to_string(), "code".to_string()),
            ("scope".to_string(), EMAIL_SCOPE.to_string()),
            ("access_type".to_string(), "offline".to_string()),
        ]
    );
}

#[test]
fn authorization_url_escapes_what_is_not_kept() {
    let client = GoogleClient::new();
    let url = client
        .get_authorization_url(Some(credential("A-z_0.9*~", Some("caf\u{e9} \u{20ac}+%"))))
        .unwrap();
    assert_eq!(
        url,
        format!(
            "{}?client_id=A-z_0.9*%7E&redirect_uri=caf%C3%A9+%E2%82%AC%2B%25\
             &response_type=code\
             &scope=https%3A%2F%2Fwww.googleapis.com%2Fauth%2Fuserinfo.email\
             &access_type=offline",
            AUTHORIZATION_ENDPOINT
        )
    );
}

#[test]
fn authorization_url_takes_empty_texts() {
    let client = GoogleClient::new();
    let url = client.get_authorization_url(Some(credential("", Some("")))).unwrap();
    assert_eq!(
        url,
        format!(
            "{}?client_id=&redirect_uri=&response_type=code\
             &scope=https%3A%2F%2Fwww.googleapis.com%2Fauth%2Fuserinfo.email\
             &access_type=offline",
            AUTHORIZATION_ENDPOINT
        )
    );
}

#[test]
fn authorization_url_needs_a_credential() {
    let client = GoogleClient::new();
    assert_eq!(client.get_authorization_url(None), Err(AuthError::CredentialMissing));
}

#[test]
fn authorization_url_needs_a_redirect_uri() {
    let client = GoogleClient::new();
    assert_eq!(
        client.get_authorization_url(Some(credential("abc123", None))),
        Err(AuthError::ConfigError(MissingField::RedirectUri))
    );
    let with_secret = ProviderCredential {
        client_id: "abc123".to_string(),
        client_secret: Some("s3cret".to_string()),
        redirect_uri: None,
    };
    assert_eq!(
        client.get_authorization_url(Some(with_secret)),
        Err(AuthError::ConfigError(MissingField::RedirectUri))
    );
}

#[test]
fn authorization_url_does_not_need_a_client_secret() {
    let client = GoogleClient::new();
    let with_secret = ProviderCredential {
        client_id: "abc123".to_string(),
        client_secret: Some("s3cret".to_string()),
        redirect_uri: Some("https://app.example.com/cb".to_string()),
    };
    let without = credential("abc123", Some("https://app.example.com/cb"));
    let url = client.get_authorization_url(Some(with_secret)).unwrap();
    assert_eq!(Ok(url.clone()), client.get_authorization_url(Some(without)));
    assert!(!url.contains("s3cret"));
}

#[test]
fn authorization_url_is_the_same_on_every_call() {
    let first = GoogleClient::new()
        .get_authorization_url(Some(credential("abc123", Some("https://app.example.com/cb"))));
    let second = GoogleClient::new()
        .get_authorization_url(Some(credential("abc123", Some("https://app.example.com/cb"))));
    assert!(first.is_ok());
    assert_eq!(first, second);
}

#[test]
fn parsed_endpoint_is_written_to() {
    let client = GoogleClient::new();
    let endpoint = reqwest::Url::parse(AUTHORIZATION_ENDPOINT).unwrap();
    assert_eq!(endpoint.as_str(), AUTHORIZATION_ENDPOINT);
    let url = client.authorization_url_on(endpoint, "id", "uri").unwrap();
    assert_eq!(
        url,
        format!(
            "{}?client_id=id&redirect_uri=uri&response_type=code\
             &scope=https%3A%2F%2Fwww.googleapis.com%2Fauth%2Fuserinfo.email\
             &access_type=offline",
            AUTHORIZATION_ENDPOINT
        )
    );
}

#[test]
fn another_url_is_not_written_to() {
    let client = GoogleClient::new();
    for text in [
        "https://accounts.google.com/o/oauth2/v2/auth?prompt=consent",
        "https://accounts.google.com/o/oauth2/v2/auth#top",
        "https://accounts.google.com/o/oauth2/v2/auth/",
        "https://example.com/",
    ] {
        let other = reqwest::Url::parse(text).unwrap();
        assert_eq!(client.authorization_url_on(other, "id", "uri"), Err(AuthError::MalformedUrl));
    }
}

#[test]
fn pairs_are_appended_in_order() {
    let mut url = reqwest::Url::parse("https://example.net/search").unwrap();
    let pairs = vec![
        ("foo".to_string(), "bar & baz".to_string()),
        ("saison".to_string(), "\u{c9}t\u{e9}+hiver".to_string()),
        ("".to_string(), "".to_string()),
        ("a=b".to_string(), "c?d#e".to_string()),
    ];
    append_pairs(&mut url, &pairs);
    assert_eq!(
        url.as_str(),
        "https://example.net/search?foo=bar+%26+baz&saison=%C3%89t%C3%A9%2Bhiver&=&a%3Db=c%3Fd%23e"
    );
    let read: Vec<(String, String)> = url.query_pairs().into_owned().collect();
    assert_eq!(read, pairs);
}

#[test]
fn no_pairs_leave_the_url_as_it_is() {
    let mut url = reqwest::Url::parse("https://example.net/search").unwrap();
    append_pairs(&mut url, &Vec::new());
    assert_eq!(url.as_str(), "https://example.net/search");
    assert_eq!(url.query(), None);
}

#[test]
fn every_byte_is_kept_or_escaped() {
    let mut all = String::new();
    for byte in 0u8..128 {
        all.push(byte as char);
    }
    let mut url = reqwest::Url::parse("https://example.net/").unwrap();
    append_pairs(&mut url, &vec![("k".to_string(), all)]);
    let mut expected = String::from("https://example.net/?k=");
    for byte in 0u8..128 {
        let kept = byte.is_ascii_alphanumeric() || matches!(byte, b'*' | b'-' | b'.' | b'_');
        if kept {
            expected.push(byte as char);
        } else if byte == b' ' {
            expected.push('+');
        } else {
            expected.push_str(&format!("%{:02X}", byte));
        }
    }
    assert_eq!(url.as_str(), expected);
}
