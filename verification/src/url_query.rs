//! The `url` crate's parsing, query reading and query writing, on URL text.
//! Each wrapper converts its text to a `Url` with `Url::parse` (`None` when
//! that fails) and makes one call on it.
use vstd::prelude::*;

verus! {

/// Whether `Url::parse` accepts the text.
pub uninterp spec fn url_parses(input: Seq<char>) -> bool;

/// The names of the query pairs of the parsed URL (`Url::query_pairs`), in order.
pub uninterp spec fn url_query_names(input: Seq<char>) -> Seq<Seq<char>>;

/// The serialization of the parsed URL (`From<Url> for String`).
pub uninterp spec fn url_serialization(input: Seq<char>) -> Seq<char>;

/// The serialization of the parsed URL after `append_pair(name, value)` on its
/// query (`Url::query_pairs_mut`).
pub uninterp spec fn url_with_query_pair(input: Seq<char>, name: Seq<char>, value: Seq<char>) -> Seq<
    char,
>;

/// The views of a list of strings.
pub open spec fn string_views(strings: Seq<String>) -> Seq<Seq<char>> {
    strings.map_values(|s: String| s@)
}

/// Wraps `Url::parse` and `Url::query_pairs`: the names of the URL's query pairs,
/// or `None` when the text does not parse.
#[verifier::external_body]
pub(crate) fn url_query_names_of(input: &str) -> (names: Option<Vec<String>>)
    ensures
        names is Some <==> url_parses(input@),
        names matches Some(n) ==> string_views(n@) == url_query_names(input@),
{
    match url::Url::parse(input) {
        Ok(url) => Some(url.query_pairs().map(|(name, _)| name.into_owned()).collect()),
        Err(_) => None,
    }
}

/// Wraps `Url::parse` and `From<Url> for String`: the URL's serialization, or
/// `None` when the text does not parse.
#[verifier::external_body]
pub(crate) fn url_reserialize(input: &str) -> (text: Option<String>)
    ensures
        text is Some <==> url_parses(input@),
        text matches Some(t) ==> t@ == url_serialization(input@),
{
    match url::Url::parse(input) {
        Ok(url) => Some(String::from(url)),
        Err(_) => None,
    }
}

/// Wraps `Url::parse`, `Url::query_pairs_mut().append_pair` and `From<Url> for
/// String`: the serialization after the pair is appended to the query, or
/// `None` when the text does not parse.
#[verifier::external_body]
pub(crate) fn url_append_query_pair(input: &str, name: &str, value: &str) -> (text: Option<String>)
    ensures
        text is Some <==> url_parses(input@),
        text matches Some(t) ==> t@ == url_with_query_pair(input@, name@, value@),
{
    match url::Url::parse(input) {
        Ok(mut url) => {
            url.query_pairs_mut().append_pair(name, value);
            Some(String::from(url))
        },
        Err(_) => None,
    }
}

} // verus!
