//! Writing name/value pairs to the query of a URL.

use crate::form::{form_encoded, is_form_char, lemma_form_encoded_chars};
use crate::query_url::{append_pair, url_has_pairs, url_text, MAX_URL_CHARS};
use vstd::prelude::*;

verus! {

/// One pair in a query: `name=value`, both sides encoded.
pub open spec fn pair_text(pair: (Seq<char>, Seq<char>)) -> Seq<char> {
    form_encoded(pair.0) + seq!['='] + form_encoded(pair.1)
}

/// The pairs of a query in their order, with `&` between them.
pub open spec fn query_text(pairs: Seq<(Seq<char>, Seq<char>)>) -> Seq<char>
    decreases pairs.len(),
{
    if pairs.len() == 0 {
        Seq::empty()
    } else if pairs.len() == 1 {
        pair_text(pairs[0])
    } else {
        query_text(pairs.drop_last()) + seq!['&'] + pair_text(pairs.last())
    }
}

/// A URL text followed by a query of the given pairs; the text itself where
/// there is no pair.
pub open spec fn with_query(base: Seq<char>, pairs: Seq<(Seq<char>, Seq<char>)>) -> Seq<char> {
    if pairs.len() == 0 {
        base
    } else {
        base + seq!['?'] + query_text(pairs)
    }
}

/// A URL text with neither query nor fragment, short enough to take a query.
pub open spec fn is_bare(text: Seq<char>) -> bool {
    &&& !text.contains('?')
    &&& !text.contains('#')
    &&& text.len() <= MAX_URL_CHARS
}

/// The characters that a query is made of.
pub open spec fn is_query_char(c: char) -> bool {
    is_form_char(c) || c == '&' || c == '='
}

/// A query holds encoded text, `=` and `&` only. As no encoded text holds either
/// of the two, each `&` in it parts two pairs and each `=` a name from its value.
pub proof fn lemma_query_text_chars(pairs: Seq<(Seq<char>, Seq<char>)>)
    ensures
        forall|i: int| 0 <= i < query_text(pairs).len() ==> is_query_char(#[trigger] query_text(pairs)[i]),
    decreases pairs.len(),
{
    if pairs.len() > 0 {
        let last = pairs.last();
        let name = form_encoded(last.0);
        let value = form_encoded(last.1);
        lemma_form_encoded_chars(last.0);
        lemma_form_encoded_chars(last.1);
        assert forall|i: int| 0 <= i < pair_text(last).len() implies is_query_char(
            #[trigger] pair_text(last)[i],
        ) by {
            if i < name.len() {
                assert(pair_text(last)[i] == name[i]);
            } else if i > name.len() {
                assert(pair_text(last)[i] == value[i - name.len() - 1]);
            }
        }
        if pairs.len() > 1 {
            let front = query_text(pairs.drop_last());
            lemma_query_text_chars(pairs.drop_last());
            assert forall|i: int| 0 <= i < query_text(pairs).len() implies is_query_char(
                #[trigger] query_text(pairs)[i],
            ) by {
                if i < front.len() {
                    assert(query_text(pairs)[i] == front[i]);
                } else if i > front.len() {
                    assert(query_text(pairs)[i] == pair_text(last)[i - front.len() - 1]);
                }
            }
        } else {
            assert(last == pairs[0]);
        }
    }
}

/// How often a character stands in a text.
pub open spec fn occurrences(text: Seq<char>, c: char) -> nat
    decreases text.len(),
{
    if text.len() == 0 {
        0
    } else if text.last() == c {
        occurrences(text.drop_last(), c) + 1
    } else {
        occurrences(text.drop_last(), c)
    }
}

proof fn lemma_occurrences_concat(a: Seq<char>, b: Seq<char>, c: char)
    ensures
        occurrences(a + b, c) == occurrences(a, c) + occurrences(b, c),
    decreases b.len(),
{
    if b.len() == 0 {
        assert(a + b =~= a);
    } else {
        assert((a + b).drop_last() =~= a + b.drop_last());
        lemma_occurrences_concat(a, b.drop_last(), c);
    }
}

proof fn lemma_occurrences_absent(text: Seq<char>, c: char)
    requires
        forall|i: int| 0 <= i < text.len() ==> text[i] != c,
    ensures
        occurrences(text, c) == 0,
    decreases text.len(),
{
    if text.len() > 0 {
        lemma_occurrences_absent(text.drop_last(), c);
    }
}

proof fn lemma_occurrences_single(x: char, c: char)
    ensures
        occurrences(seq![x], c) == if x == c {
            1nat
        } else {
            0nat
        },
{
    assert(seq![x].drop_last() =~= Seq::<char>::empty());
    assert(occurrences(seq![x].drop_last(), c) == 0);
}

proof fn lemma_pair_separators(pair: (Seq<char>, Seq<char>), c: char)
    requires
        !is_form_char(c),
    ensures
        occurrences(pair_text(pair), c) == if c == '=' {
            1nat
        } else {
            0nat
        },
{
    lemma_form_encoded_chars(pair.0);
    lemma_form_encoded_chars(pair.1);
    lemma_occurrences_absent(form_encoded(pair.0), c);
    lemma_occurrences_absent(form_encoded(pair.1), c);
    lemma_occurrences_concat(form_encoded(pair.0), seq!['='], c);
    lemma_occurrences_concat(form_encoded(pair.0) + seq!['='], form_encoded(pair.1), c);
    lemma_occurrences_single('=', c);
}

/// A query of pairs has one `=` for each pair and one `&` between every two, and
/// neither `?` nor `#`: read back, it falls into the same number of pairs.
pub proof fn lemma_query_separators(pairs: Seq<(Seq<char>, Seq<char>)>)
    requires
        pairs.len() > 0,
    ensures
        occurrences(query_text(pairs), '=') == pairs.len(),
        occurrences(query_text(pairs), '&') == pairs.len() - 1,
        occurrences(query_text(pairs), '?') == 0,
        occurrences(query_text(pairs), '#') == 0,
    decreases pairs.len(),
{
    lemma_pair_separators(pairs.last(), '=');
    lemma_pair_separators(pairs.last(), '&');
    lemma_pair_separators(pairs.last(), '?');
    lemma_pair_separators(pairs.last(), '#');
    if pairs.len() == 1 {
        assert(pairs.last() == pairs[0]);
    } else {
        let front = query_text(pairs.drop_last());
        let last = pair_text(pairs.last());
        lemma_query_separators(pairs.drop_last());
        lemma_occurrences_single('&', '=');
        lemma_occurrences_single('&', '&');
        lemma_occurrences_single('&', '?');
        lemma_occurrences_single('&', '#');
        lemma_occurrences_concat(front, seq!['&'], '=');
        lemma_occurrences_concat(front, seq!['&'], '&');
        lemma_occurrences_concat(front, seq!['&'], '?');
        lemma_occurrences_concat(front, seq!['&'], '#');
        lemma_occurrences_concat(front + seq!['&'], last, '=');
        lemma_occurrences_concat(front + seq!['&'], last, '&');
        lemma_occurrences_concat(front + seq!['&'], last, '?');
        lemma_occurrences_concat(front + seq!['&'], last, '#');
    }
}

/// A query opens no fragment: with a bare text in front, the only `?` is the one
/// before the query, and there is no `#`.
proof fn lemma_with_query_has_no_fragment(base: Seq<char>, pairs: Seq<(Seq<char>, Seq<char>)>)
    requires
        !base.contains('#'),
    ensures
        !with_query(base, pairs).contains('#'),
{
    lemma_query_text_chars(pairs);
    let text = with_query(base, pairs);
    if text.contains('#') {
        let i = choose|i: int| 0 <= i < text.len() && text[i] == '#';
        if i < base.len() {
            assert(base[i] == '#');
        } else if pairs.len() > 0 {
            assert(i > base.len());
            assert(text[i] == query_text(pairs)[i - base.len() - 1]);
        }
    }
}

/// Appends each pair to the query of `url`, in order.
pub fn append_pairs(url: &mut reqwest::Url, pairs: &Vec<(String, String)>)
    requires
        is_bare(url_text(*old(url))),
    ensures
        url_text(*final(url)) == with_query(url_text(*old(url)), pairs.deep_view()),
{
    let ghost base = url_text(*url);
    let ghost all = pairs.deep_view();
    let mut i: usize = 0;
    while i < pairs.len()
        invariant
            i <= pairs.len(),
            all == pairs.deep_view(),
            is_bare(base),
            url_text(*url) == with_query(base, all.take(i as int)),
            i > 0 ==> url_has_pairs(*url),
        decreases pairs.len() - i,
    {
        let ghost before = all.take(i as int);
        let ghost after = all.take(i + 1);
        proof {
            lemma_with_query_has_no_fragment(base, before);
            if i > 0 {
                assert(url_text(*url)[base.len() as int] == '?');
            }
            assert(after.drop_last() =~= before);
            assert(after.last() == (pairs[i as int].0@, pairs[i as int].1@));
        }
        append_pair(url, pairs[i].0.as_str(), pairs[i].1.as_str());
        proof {
            assert(url_text(*url) =~= with_query(base, after));
        }
        i += 1;
    }
    assert(all.take(pairs.len() as int) =~= all);
}

} // verus!
