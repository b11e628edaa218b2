//! The URL that sends a user to the provider to sign in.

use crate::client::{credential_or_missing, GoogleClient};
use crate::credential::{optional_credential, CredentialView, ProviderCredential};
use crate::error::{outcome, AuthError, AuthErrorView, MissingField};
use crate::form::{
    form_encoded, lemma_form_encoded_ascii_first, lemma_form_encoded_concat,
    lemma_form_encoded_plain,
};
use crate::query::{
    append_pairs, is_bare, lemma_query_separators, occurrences, pair_text, query_text, with_query,
};
use crate::query_url::{parse_url, parsed_url, url_text, url_to_string};
use vstd::prelude::*;
use vstd::string::*;

verus! {

/// Where the user signs in and grants the application its scope.
pub const AUTHORIZATION_ENDPOINT: &'static str = "https://accounts.google.com/o/oauth2/v2/auth";

/// The scope that lets the application read the user's email address.
pub const EMAIL_SCOPE: &'static str = "https://www.googleapis.com/auth/userinfo.email";

/// The five query parameters of an authorization request, in their order: the
/// application and where to come back to, then the code flow, the email scope
/// and a grant that can be refreshed.
pub open spec fn authorization_pairs(client_id: Seq<char>, redirect_uri: Seq<char>) -> Seq<
    (Seq<char>, Seq<char>),
> {
    seq![
        ("client_id"@, client_id),
        ("redirect_uri"@, redirect_uri),
        ("response_type"@, "code"@),
        ("scope"@, EMAIL_SCOPE@),
        ("access_type"@, "offline"@),
    ]
}

/// The authorization URL of an application: the endpoint and the five parameters.
pub open spec fn authorization_url(client_id: Seq<char>, redirect_uri: Seq<char>) -> Seq<char> {
    with_query(AUTHORIZATION_ENDPOINT@, authorization_pairs(client_id, redirect_uri))
}

/// What becomes of the endpoint once parsed: the authorization URL where parsing
/// left the endpoint's text as it is, an error where it did not.
pub open spec fn endpoint_outcome(
    endpoint: Seq<char>,
    client_id: Seq<char>,
    redirect_uri: Seq<char>,
) -> Result<Seq<char>, AuthErrorView> {
    if endpoint == AUTHORIZATION_ENDPOINT@ {
        Ok(authorization_url(client_id, redirect_uri))
    } else {
        Err(AuthErrorView::MalformedUrl)
    }
}

/// The authorization URL for what the credential store holds. A missing
/// credential is the first error, a missing redirect URI the second. After that
/// the URL is owed wherever URL parsing accepts the endpoint unchanged.
pub open spec fn authorization_outcome(found: Option<CredentialView>) -> Result<
    Seq<char>,
    AuthErrorView,
> {
    match credential_or_missing(found) {
        Err(error) => Err(error),
        Ok(credential) => match credential.redirect_uri {
            None => Err(AuthErrorView::ConfigError(MissingField::RedirectUri)),
            Some(redirect_uri) => match parsed_url(AUTHORIZATION_ENDPOINT@) {
                Some(endpoint) => endpoint_outcome(endpoint, credential.client_id, redirect_uri),
                None => Err(AuthErrorView::MalformedUrl),
            },
        },
    }
}

/// Without a stored credential there is no URL, and none without a redirect URI
/// in it: the first is a missing credential, the second a configuration error.
pub proof fn lemma_authorization_needs_redirect_uri(found: Option<CredentialView>)
    requires
        found matches Some(credential) ==> credential.redirect_uri is None,
    ensures
        authorization_outcome(found) == Err::<Seq<char>, AuthErrorView>(
            match found {
                None => AuthErrorView::CredentialMissing,
                Some(_) => AuthErrorView::ConfigError(MissingField::RedirectUri),
            },
        ),
{
}

/// With a redirect URI in the credential, the outcome rests on URL parsing alone:
/// where it leaves the endpoint as it is, the outcome is the authorization URL of
/// the credential's application, and an error where it does not.
pub proof fn lemma_authorization_url_owed(credential: CredentialView)
    requires
        credential.redirect_uri is Some,
    ensures
        authorization_outcome(Some(credential)) == if parsed_url(AUTHORIZATION_ENDPOINT@) == Some(
            AUTHORIZATION_ENDPOINT@,
        ) {
            Ok::<Seq<char>, AuthErrorView>(
                authorization_url(credential.client_id, credential.redirect_uri->0),
            )
        } else {
            Err::<Seq<char>, AuthErrorView>(AuthErrorView::MalformedUrl)
        },
{
}

/// The URL depends on the stored credential and on nothing else: for the same
/// credential it is the same URL, or the same error.
pub proof fn lemma_same_credential_same_url(
    found: Option<ProviderCredential>,
    result: Result<String, AuthError>,
    other_found: Option<ProviderCredential>,
    other_result: Result<String, AuthError>,
)
    requires
        optional_credential(found) == optional_credential(other_found),
        outcome(result) == authorization_outcome(optional_credential(found)),
        outcome(other_result) == authorization_outcome(optional_credential(other_found)),
    ensures
        outcome(result) == outcome(other_result),
{
}

/// The endpoint has neither query nor fragment.
proof fn lemma_endpoint_is_bare()
    ensures
        is_bare(AUTHORIZATION_ENDPOINT@),
{
    reveal_strlit("https://accounts.google.com/o/oauth2/v2/auth");
}

/// The authorization URL is the endpoint, a `?` and a query of exactly five
/// parameters, the first two of which carry the application's identifier and
/// its redirect URI. The query has five `=` and four `&` and opens no fragment,
/// whatever the two texts hold.
pub proof fn lemma_authorization_url_parameters(client_id: Seq<char>, redirect_uri: Seq<char>)
    ensures
        ({
            let pairs = authorization_pairs(client_id, redirect_uri);
            let query = query_text(pairs);
            &&& authorization_url(client_id, redirect_uri) == AUTHORIZATION_ENDPOINT@ + seq!['?']
                + query
            &&& pairs.len() == 5
            &&& pairs[0] == ("client_id"@, client_id)
            &&& pairs[1] == ("redirect_uri"@, redirect_uri)
            &&& occurrences(query, '=') == 5
            &&& occurrences(query, '&') == 4
            &&& occurrences(query, '?') == 0
            &&& occurrences(query, '#') == 0
        }),
{
    lemma_query_separators(authorization_pairs(client_id, redirect_uri));
}

/// The scope as it stands in the query: its colon and slashes escaped.
proof fn lemma_scope_encoded()
    ensures
        form_encoded(EMAIL_SCOPE@) == "https%3A%2F%2Fwww.googleapis.com%2Fauth%2Fuserinfo.email"@,
{
    let parts = seq!["https"@, "://"@, "www.googleapis.com"@, "/"@, "auth"@, "/"@, "userinfo.email"@];
    reveal_strlit("https://www.googleapis.com/auth/userinfo.email");
    reveal_strlit("https%3A%2F%2Fwww.googleapis.com%2Fauth%2Fuserinfo.email");
    reveal_strlit("https");
    reveal_strlit("://");
    reveal_strlit("www.googleapis.com");
    reveal_strlit("/");
    reveal_strlit("auth");
    reveal_strlit("userinfo.email");
    reveal_strlit("%3A%2F%2F");
    reveal_strlit("%2F");
    let tail1 = parts[6];
    let tail2 = parts[5] + tail1;
    let tail3 = parts[4] + tail2;
    let tail4 = parts[3] + tail3;
    let tail5 = parts[2] + tail4;
    let tail6 = parts[1] + tail5;
    assert(EMAIL_SCOPE@ =~= parts[0] + tail6);
    lemma_form_encoded_concat(parts[0], tail6);
    lemma_form_encoded_concat(parts[1], tail5);
    lemma_form_encoded_concat(parts[2], tail4);
    lemma_form_encoded_concat(parts[3], tail3);
    lemma_form_encoded_concat(parts[4], tail2);
    lemma_form_encoded_concat(parts[5], tail1);
    lemma_form_encoded_plain(parts[0]);
    lemma_form_encoded_plain(parts[2]);
    lemma_form_encoded_plain(parts[4]);
    lemma_form_encoded_plain(parts[6]);
    assert(form_encoded("/"@) =~= "%2F"@) by {
        lemma_form_encoded_ascii_first("/"@);
        assert("/"@.drop_first() =~= Seq::<char>::empty());
        assert(form_encoded(Seq::<char>::empty()) =~= Seq::<char>::empty());
    }
    assert(form_encoded("://"@) =~= "%3A%2F%2F"@) by {
        let colon = "://"@;
        lemma_form_encoded_ascii_first(colon);
        lemma_form_encoded_ascii_first(colon.drop_first());
        assert(colon.drop_first().drop_first() =~= "/"@);
    }
    assert(form_encoded(EMAIL_SCOPE@) =~= "https%3A%2F%2Fwww.googleapis.com%2Fauth%2Fuserinfo.email"@);
}

/// The names and the fixed values of the parameters as they stand in the query.
proof fn lemma_fixed_texts_encoded()
    ensures
        form_encoded("client_id"@) == "client_id"@,
        form_encoded("redirect_uri"@) == "redirect_uri"@,
        form_encoded("response_type"@) == "response_type"@,
        form_encoded("code"@) == "code"@,
        form_encoded("scope"@) == "scope"@,
        form_encoded("access_type"@) == "access_type"@,
        form_encoded("offline"@) == "offline"@,
{
    reveal_strlit("client_id");
    reveal_strlit("redirect_uri");
    reveal_strlit("response_type");
    reveal_strlit("code");
    reveal_strlit("scope");
    reveal_strlit("access_type");
    reveal_strlit("offline");
    lemma_form_encoded_plain("client_id"@);
    lemma_form_encoded_plain("redirect_uri"@);
    lemma_form_encoded_plain("response_type"@);
    lemma_form_encoded_plain("code"@);
    lemma_form_encoded_plain("scope"@);
    lemma_form_encoded_plain("access_type"@);
    lemma_form_encoded_plain("offline"@);
}

/// The fixed parts of the authorization URL, put together.
proof fn lemma_fixed_parts()
    ensures
        AUTHORIZATION_ENDPOINT@ + seq!['?'] + "client_id"@ + seq!['=']
            == "https://accounts.google.com/o/oauth2/v2/auth?client_id="@,
        seq!['&'] + "redirect_uri"@ + seq!['='] == "&redirect_uri="@,
        seq!['&'] + "response_type"@ + seq!['='] + "code"@ + seq!['&'] + "scope"@ + seq!['=']
            + "https%3A%2F%2Fwww.googleapis.com%2Fauth%2Fuserinfo.email"@ + seq!['&']
            + "access_type"@ + seq!['='] + "offline"@
            == "&response_type=code&scope=https%3A%2F%2Fwww.googleapis.com%2Fauth%2Fuserinfo.email&access_type=offline"@,
{
    reveal_strlit("client_id");
    reveal_strlit("redirect_uri");
    reveal_strlit("response_type");
    reveal_strlit("code");
    reveal_strlit("scope");
    reveal_strlit("access_type");
    reveal_strlit("offline");
    reveal_strlit("https://accounts.google.com/o/oauth2/v2/auth");
    reveal_strlit("https://accounts.google.com/o/oauth2/v2/auth?client_id=");
    reveal_strlit("&redirect_uri=");
    reveal_strlit("https%3A%2F%2Fwww.googleapis.com%2Fauth%2Fuserinfo.email");
    reveal_strlit(
        "&response_type=code&scope=https%3A%2F%2Fwww.googleapis.com%2Fauth%2Fuserinfo.email&access_type=offline",
    );
    assert(AUTHORIZATION_ENDPOINT@ + seq!['?'] + "client_id"@ + seq!['=']
        =~= "https://accounts.google.com/o/oauth2/v2/auth?client_id="@);
    assert(seq!['&'] + "redirect_uri"@ + seq!['='] =~= "&redirect_uri="@);
    assert(seq!['&'] + "response_type"@ + seq!['='] + "code"@ + seq!['&'] + "scope"@ + seq!['=']
        + "https%3A%2F%2Fwww.googleapis.com%2Fauth%2Fuserinfo.email"@ + seq!['&']
        + "access_type"@ + seq!['='] + "offline"@
        =~= "&response_type=code&scope=https%3A%2F%2Fwww.googleapis.com%2Fauth%2Fuserinfo.email&access_type=offline"@);
}

/// A query of five pairs, written out.
proof fn lemma_query_of_five(pairs: Seq<(Seq<char>, Seq<char>)>)
    requires
        pairs.len() == 5,
    ensures
        query_text(pairs) == pair_text(pairs[0]) + seq!['&'] + pair_text(pairs[1]) + seq!['&']
            + pair_text(pairs[2]) + seq!['&'] + pair_text(pairs[3]) + seq!['&'] + pair_text(
            pairs[4],
        ),
{
    let four = pairs.drop_last();
    let three = four.drop_last();
    let two = three.drop_last();
    let one = two.drop_last();
    assert(query_text(one) == pair_text(pairs[0]));
    assert(query_text(two) == query_text(one) + seq!['&'] + pair_text(pairs[1]));
    assert(query_text(three) == query_text(two) + seq!['&'] + pair_text(pairs[2]));
    assert(query_text(four) == query_text(three) + seq!['&'] + pair_text(pairs[3]));
    assert(query_text(pairs) == query_text(four) + seq!['&'] + pair_text(pairs[4]));
}

/// A text in front of a query of five pairs, grouped anew: what stands before
/// the first value, the first value, what stands between the first two values,
/// the second value, and all that follows it.
proof fn lemma_regrouped(
    base: Seq<char>,
    first: (Seq<char>, Seq<char>),
    second: (Seq<char>, Seq<char>),
    third: (Seq<char>, Seq<char>),
    fourth: (Seq<char>, Seq<char>),
    fifth: (Seq<char>, Seq<char>),
)
    ensures
        base + seq!['?'] + (first.0 + seq!['='] + first.1 + seq!['&'] + (second.0 + seq!['=']
            + second.1) + seq!['&'] + (third.0 + seq!['='] + third.1) + seq!['&'] + (fourth.0
            + seq!['='] + fourth.1) + seq!['&'] + (fifth.0 + seq!['='] + fifth.1)) == (base
            + seq!['?'] + first.0 + seq!['=']) + first.1 + (seq!['&'] + second.0 + seq!['='])
            + second.1 + (seq!['&'] + third.0 + seq!['='] + third.1 + seq!['&'] + fourth.0
            + seq!['='] + fourth.1 + seq!['&'] + fifth.0 + seq!['='] + fifth.1),
{
    let front = base + seq!['?'] + first.0 + seq!['='] + first.1;
    let rest = seq!['&'] + third.0 + seq!['='] + third.1 + seq!['&'] + fourth.0 + seq!['=']
        + fourth.1 + seq!['&'] + fifth.0 + seq!['='] + fifth.1;
    let three = seq!['&'] + (third.0 + seq!['='] + third.1);
    let four = seq!['&'] + (fourth.0 + seq!['='] + fourth.1);
    let five = seq!['&'] + (fifth.0 + seq!['='] + fifth.1);
    assert(rest =~= three + four + five);
    let two = seq!['&'] + (second.0 + seq!['='] + second.1);
    let one = first.0 + seq!['='] + first.1;
    assert(one + seq!['&'] + (second.0 + seq!['='] + second.1) + seq!['&'] + (third.0
        + seq!['='] + third.1) + seq!['&'] + (fourth.0 + seq!['='] + fourth.1) + seq!['&'] + (
    fifth.0 + seq!['='] + fifth.1) =~= one + two + (three + four + five));
    assert(base + seq!['?'] + (one + two + (three + four + five)) =~= front + two + rest);
    assert(front + two + rest =~= (base + seq!['?'] + first.0 + seq!['=']) + first.1 + (seq!['&']
        + second.0 + seq!['=']) + second.1 + rest);
}

/// The authorization URL, letter by letter: the endpoint, then the five
/// parameters, of which only the application's identifier and its redirect URI
/// vary. Both stand encoded, so neither can add a parameter or end the query.
pub proof fn lemma_authorization_url_text(client_id: Seq<char>, redirect_uri: Seq<char>)
    ensures
        authorization_url(client_id, redirect_uri)
            == "https://accounts.google.com/o/oauth2/v2/auth?client_id="@ + form_encoded(client_id)
            + "&redirect_uri="@ + form_encoded(redirect_uri)
            + "&response_type=code&scope=https%3A%2F%2Fwww.googleapis.com%2Fauth%2Fuserinfo.email&access_type=offline"@,
{
    let pairs = authorization_pairs(client_id, redirect_uri);
    lemma_query_of_five(pairs);
    lemma_fixed_texts_encoded();
    lemma_scope_encoded();
    lemma_regrouped(
        AUTHORIZATION_ENDPOINT@,
        ("client_id"@, form_encoded(client_id)),
        ("redirect_uri"@, form_encoded(redirect_uri)),
        ("response_type"@, "code"@),
        ("scope"@, "https%3A%2F%2Fwww.googleapis.com%2Fauth%2Fuserinfo.email"@),
        ("access_type"@, "offline"@),
    );
    lemma_fixed_parts();
}

impl GoogleClient {
    /// Writes the five parameters to the parsed endpoint and serializes it.
    pub fn authorization_url_on(
        &self,
        endpoint: reqwest::Url,
        client_id: &str,
        redirect_uri: &str,
    ) -> (result: Result<String, AuthError>)
        ensures
            outcome(result) == endpoint_outcome(url_text(endpoint), client_id@, redirect_uri@),
    {
        let mut url = endpoint;
        if url_to_string(&url) != AUTHORIZATION_ENDPOINT.to_owned() {
            return Err(AuthError::MalformedUrl);
        }
        let mut pairs: Vec<(String, String)> = Vec::new();
        pairs.push(("client_id".to_owned(), client_id.to_owned()));
        pairs.push(("redirect_uri".to_owned(), redirect_uri.to_owned()));
        pairs.push(("response_type".to_owned(), "code".to_owned()));
        pairs.push(("scope".to_owned(), EMAIL_SCOPE.to_owned()));
        pairs.push(("access_type".to_owned(), "offline".to_owned()));
        proof {
            lemma_endpoint_is_bare();
            assert(pairs.deep_view() =~= authorization_pairs(client_id@, redirect_uri@));
        }
        append_pairs(&mut url, &pairs);
        Ok(url_to_string(&url))
    }

    /// Takes what the credential store returned for this provider and gives the
    /// URL to redirect the user's browser to.
    pub fn get_authorization_url(&self, found: Option<ProviderCredential>) -> (result: Result<
        String,
        AuthError,
    >)
        ensures
            outcome(result) == authorization_outcome(optional_credential(found)),
    {
        let credential = self.read_credential(found)?;
        let Some(redirect_uri) = credential.redirect_uri else {
            return Err(AuthError::ConfigError(MissingField::RedirectUri));
        };
        match parse_url(AUTHORIZATION_ENDPOINT) {
            Ok(endpoint) => self.authorization_url_on(
                endpoint,
                credential.client_id.as_str(),
                redirect_uri.as_str(),
            ),
            Err(_) => Err(AuthError::MalformedUrl),
        }
    }
}

} // verus!
