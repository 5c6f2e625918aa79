//! The text formats that the broker hands to others to write and read:
//! URLs, form bodies, JSON answers and file paths. None of what these
//! functions compute is proved here; each contract gives the result a name
//! that the verified code speaks of.

use vstd::prelude::*;
use crate::persist::named;

verus! {

/// The `application/x-www-form-urlencoded` text of a list of fields.
pub uninterp spec fn form_encoded(fields: Seq<(Seq<char>, Seq<char>)>) -> Seq<char>;

/// The URL that `base` parses to, with `params` appended to its query, or
/// `None` where `base` is no absolute URL.
pub uninterp spec fn url_with_query(base: Seq<char>, params: Seq<(Seq<char>, Seq<char>)>) -> Option<
    Seq<char>,
>;

/// The decoded pairs of the query of the URL that `input` parses to, or
/// `None` where `input` is no absolute URL.
pub uninterp spec fn url_query_pairs(input: Seq<char>) -> Option<Seq<(Seq<char>, Seq<char>)>>;

/// `text` without its leading and trailing white space.
pub uninterp spec fn trimmed(text: Seq<char>) -> Seq<char>;

/// The string that the JSON object `body` holds under `key`, if `body` is
/// JSON, an object, and holds a string there.
pub uninterp spec fn json_text_member(body: Seq<char>, key: Seq<char>) -> Option<Seq<char>>;

/// The integer that the JSON object `body` holds under `key`, if `body` is
/// JSON, an object, and holds there a whole number in the range of `i64`.
pub uninterp spec fn json_integer_member(body: Seq<char>, key: Seq<char>) -> Option<i64>;

/// The path `base` with `component` pushed onto it.
pub uninterp spec fn path_joined(base: Seq<char>, component: Seq<char>) -> Seq<char>;

/// Calls `url::form_urlencoded::Serializer::new` on an empty string,
/// `extend_pairs` with the fields in their order, and `finish`. The contract
/// claims only that the text depends on the fields alone.
#[verifier::external_body]
pub(crate) fn encode_form(fields: &Vec<(String, String)>) -> (body: String)
    ensures
        body@ == form_encoded(named(fields@)),
{
    url::form_urlencoded::Serializer::new(String::new()).extend_pairs(fields.iter()).finish()
}

/// Calls `url::Url::parse_with_params` and gives the URL's text. The
/// contract claims that a parse error gives `None` and that the text
/// otherwise depends on the arguments alone.
#[verifier::external_body]
pub(crate) fn append_query(base: &str, params: &Vec<(String, String)>) -> (link: Option<String>)
    ensures
        match link {
            Some(text) => url_with_query(base@, named(params@)) == Some(text@),
            None => url_with_query(base@, named(params@)) is None,
        },
{
    url::Url::parse_with_params(base, params.iter()).ok().map(String::from)
}

/// Calls `url::Url::parse` and, on the URL it gives, `query_pairs`, whose
/// pairs are copied out in their order. The contract claims that a parse
/// error gives `None` and that the pairs otherwise depend on `input` alone.
#[verifier::external_body]
pub(crate) fn query_pairs(input: &str) -> (pairs: Option<Vec<(String, String)>>)
    ensures
        match pairs {
            Some(list) => url_query_pairs(input@) == Some(named(list@)),
            None => url_query_pairs(input@) is None,
        },
{
    url::Url::parse(input).ok().map(
        |link| link.query_pairs().map(|(k, v)| (k.into_owned(), v.into_owned())).collect(),
    )
}

/// Calls `str::trim`. The contract claims only that the result depends on
/// the text alone.
#[verifier::external_body]
pub(crate) fn trim(text: &str) -> (inner: &str)
    ensures
        inner@ == trimmed(text@),
{
    text.trim()
}

/// Calls `serde_json::from_str` for a `serde_json::Value`, then
/// `Value::get` with `key` and `Value::as_str` on the member. The contract
/// claims only that the result depends on `body` and `key` alone.
#[verifier::external_body]
pub(crate) fn text_member(body: &str, key: &str) -> (member: Option<String>)
    ensures
        match member {
            Some(text) => json_text_member(body@, key@) == Some(text@),
            None => json_text_member(body@, key@) is None,
        },
{
    let document = serde_json::from_str::<serde_json::Value>(body).ok()?;
    document.get(key)?.as_str().map(String::from)
}

/// Calls `serde_json::from_str` for a `serde_json::Value`, then
/// `Value::get` with `key` and `Value::as_i64` on the member. The contract
/// claims only that the result depends on `body` and `key` alone.
#[verifier::external_body]
pub(crate) fn integer_member(body: &str, key: &str) -> (member: Option<i64>)
    ensures
        member == json_integer_member(body@, key@),
{
    let document = serde_json::from_str::<serde_json::Value>(body).ok()?;
    document.get(key)?.as_i64()
}

/// Calls `std::path::PathBuf::push` on the path `base` and gives the
/// longer path as text. The contract claims only that the result depends
/// on the two texts alone.
#[verifier::external_body]
pub(crate) fn push_path(base: &str, component: &str) -> (path: String)
    ensures
        path@ == path_joined(base@, component@),
{
    let mut path = std::path::PathBuf::from(base);
    path.push(component);
    path.to_string_lossy().into_owned()
}

} // verus!
