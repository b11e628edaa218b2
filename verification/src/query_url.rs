//! A URL that query pairs are written to.
//!
//! The URL itself is `reqwest::Url`. Nothing of what this file states of it is
//! proved here: each function below makes one call into that crate, and its
//! contract says what the call does.

use crate::form::form_encoded;
use vstd::prelude::*;

verus! {

#[verifier::external_type_specification]
#[verifier::external_body]
pub struct ExUrl(reqwest::Url);

#[verifier::external_type_specification]
#[verifier::external_body]
pub struct ExParseError(url::ParseError);

/// The serialization of a URL: what `as_str` and `to_string` give.
pub uninterp spec fn url_text(url: reqwest::Url) -> Seq<char>;

/// Whether a URL has a query that is not empty: `query()` gives text.
pub uninterp spec fn url_has_pairs(url: reqwest::Url) -> bool;

/// The serialization of the URL that `Url::parse` makes of a text, `None` where
/// it refuses the text.
pub uninterp spec fn parsed_url(input: Seq<char>) -> Option<Seq<char>>;

/// The longest serialization, in characters, whose length in bytes is sure to
/// fit the 32-bit position that a URL keeps of where its query begins. A URL
/// panics when it is given a query beyond that.
pub const MAX_URL_CHARS: usize = 0x3fff_ffff;

/// `Url::parse`: the URL of a text, or the reason why the text is none. The
/// contract gives the outcome its name and claims no more: the same text gives
/// the same URL every time.
#[verifier::external_body]
pub(crate) fn parse_url(input: &str) -> (result: Result<reqwest::Url, url::ParseError>)
    ensures
        match result {
            Ok(url) => parsed_url(input@) == Some(url_text(url)),
            Err(_) => parsed_url(input@) is None,
        },
{
    reqwest::Url::parse(input)
}

/// `Url::query_pairs_mut` and `append_pair` on it: the pair goes to the end of the
/// query as `name=value`. Each side is encoded as [`form_encoded`] says, which is
/// claimed of the crate's byte serializer on the UTF-8 bytes of the text. The
/// contract speaks of a URL without a fragment, which is so where its
/// serialization has no `#`, and of two cases. A URL without a query, which is so
/// where its serialization has no `?`, gets a `?` and the pair. A URL whose query
/// is not empty gets a `&` and the pair. A query that is there and empty is left
/// out.
#[verifier::external_body]
pub(crate) fn append_pair(url: &mut reqwest::Url, name: &str, value: &str)
    requires
        !url_text(*old(url)).contains('#'),
        url_text(*old(url)).contains('?') ==> url_has_pairs(*old(url)),
        !url_text(*old(url)).contains('?') ==> url_text(*old(url)).len() <= MAX_URL_CHARS,
    ensures
        url_text(*final(url)) == url_text(*old(url)) + seq![
            if url_text(*old(url)).contains('?') {
                '&'
            } else {
                '?'
            },
        ] + form_encoded(name@) + seq!['='] + form_encoded(value@),
        url_has_pairs(*final(url)),
{
    url.query_pairs_mut().append_pair(name, value);
}

/// `to_string` of a URL: its serialization.
#[verifier::external_body]
pub(crate) fn url_to_string(url: &reqwest::Url) -> (text: String)
    ensures
        text@ == url_text(*url),
{
    url.to_string()
}

} // verus!
