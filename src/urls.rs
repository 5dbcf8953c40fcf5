//! URL handling, done by the `url` crate.
use vstd::prelude::*;

verus! {

/// A list of name/value pairs, seen as text.
pub open spec fn pairs_view(v: Seq<(String, String)>) -> Seq<(Seq<char>, Seq<char>)> {
    v.map_values(|p: (String, String)| (p.0@, p.1@))
}

/// The serialisation of `u` parsed as an absolute URL, if it parses.
pub uninterp spec fn parsed_url(u: Seq<char>) -> Option<Seq<char>>;

/// The serialisation of `u` with the pair `k=v` appended to its query, if
/// `u` parses.
pub uninterp spec fn url_with_pair(u: Seq<char>, k: Seq<char>, v: Seq<char>) -> Option<Seq<char>>;

/// The decoded query pairs of `u`, in order, if `u` parses.
pub uninterp spec fn url_query(u: Seq<char>) -> Option<Seq<(Seq<char>, Seq<char>)>>;

/// The serialisation of `u` with its query replaced by the pairs `q`, if `u`
/// parses.
pub uninterp spec fn url_with_query(u: Seq<char>, q: Seq<(Seq<char>, Seq<char>)>) -> Option<
    Seq<char>,
>;

/// The `application/x-www-form-urlencoded` encoding of the pairs `q`.
pub uninterp spec fn form_encoded(q: Seq<(Seq<char>, Seq<char>)>) -> Seq<char>;

/// Relies on `url::Url::parse` and the URL's serialisation.
#[verifier::external_body]
pub(crate) fn parse_url(u: &str) -> (r: Option<String>)
    ensures
        match r {
            Some(s) => parsed_url(u@) == Some(s@),
            None => parsed_url(u@) is None,
        },
{
    match url::Url::parse(u) {
        Ok(url) => Some(url.into()),
        Err(_) => None,
    }
}

/// Relies on `url::Url::parse` and `Serializer::append_pair` of the URL's
/// query.
#[verifier::external_body]
pub(crate) fn append_query_pair(u: &str, k: &str, v: &str) -> (r: Option<String>)
    ensures
        match r {
            Some(s) => url_with_pair(u@, k@, v@) == Some(s@),
            None => url_with_pair(u@, k@, v@) is None,
        },
{
    match url::Url::parse(u) {
        Ok(mut url) => {
            url.query_pairs_mut().append_pair(k, v);
            Some(url.into())
        },
        Err(_) => None,
    }
}

/// Relies on `url::Url::parse` and `Url::query_pairs`, the decoded pairs.
#[verifier::external_body]
pub(crate) fn query_pairs(u: &str) -> (r: Option<Vec<(String, String)>>)
    ensures
        match r {
            Some(v) => url_query(u@) == Some(pairs_view(v@)),
            None => url_query(u@) is None,
        },
{
    match url::Url::parse(u) {
        Ok(url) => Some(url.query_pairs().into_owned().collect()),
        Err(_) => None,
    }
}

/// Relies on `url::Url::parse`, then `clear` and `extend_pairs` of the URL's
/// query serializer.
#[verifier::external_body]
pub(crate) fn replace_query(u: &str, q: &Vec<(String, String)>) -> (r: Option<String>)
    ensures
        match r {
            Some(s) => url_with_query(u@, pairs_view(q@)) == Some(s@),
            None => url_with_query(u@, pairs_view(q@)) is None,
        },
{
    match url::Url::parse(u) {
        Ok(mut url) => {
            url.query_pairs_mut().clear().extend_pairs(q.iter());
            Some(url.into())
        },
        Err(_) => None,
    }
}

/// Relies on `form_urlencoded::Serializer`: `extend_pairs` then `finish` on
/// an empty string.
#[verifier::external_body]
pub(crate) fn encode_pairs(q: &Vec<(String, String)>) -> (r: String)
    ensures
        r@ == form_encoded(pairs_view(q@)),
{
    url::form_urlencoded::Serializer::new(String::new()).extend_pairs(q.iter()).finish()
}

/// Relies on `mime::APPLICATION_WWW_FORM_URLENCODED`, whose text is
/// `application/x-www-form-urlencoded`.
#[verifier::external_body]
pub(crate) fn form_urlencoded_mime() -> (r: String)
    ensures
        r@ == crate::client::FORM_URLENCODED@,
{
    mime::APPLICATION_WWW_FORM_URLENCODED.to_string()
}

} // verus!
