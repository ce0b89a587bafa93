//! The forum API's request URLs.

use vstd::prelude::*;
use vstd::string::StringExecFns;

verus! {

/// The fetch-thread request URL: the base, `/thread/`, the identifier, and
/// the purchase flag.
pub open spec fn thread_url_text(base: Seq<char>, thread_id: Seq<char>) -> Seq<char> {
    base + "/thread/"@ + thread_id + "?buy=1"@
}

/// The search endpoint under a base URL.
pub open spec fn search_endpoint_text(base: Seq<char>) -> Seq<char> {
    base + "/search"@
}

/// A URL built from an endpoint and two URL-encoded query parameters, as
/// the URL parser renders it; a function of its arguments alone.
pub uninterp spec fn url_with_two_params_text(
    endpoint: Seq<char>,
    key1: Seq<char>,
    value1: Seq<char>,
    key2: Seq<char>,
    value2: Seq<char>,
) -> Seq<char>;

/// Whether the URL parser accepts the endpoint with the two parameters
/// attached; the verdict depends on its arguments alone.
pub uninterp spec fn url_parse_ok(
    endpoint: Seq<char>,
    key1: Seq<char>,
    value1: Seq<char>,
    key2: Seq<char>,
    value2: Seq<char>,
) -> bool;

/// Relies on reqwest::Url::parse_with_params (the `url` crate's parser): on
/// success the result is the endpoint with the two pairs appended as
/// URL-encoded query parameters; it fails exactly on an input that does not
/// parse as an absolute URL, and the error carries the parser's description.
#[verifier::external_body]
fn url_with_two_params(endpoint: &str, key1: &str, value1: &str, key2: &str, value2: &str) -> (r:
    Result<String, String>)
    ensures
        r is Ok <==> url_parse_ok(endpoint@, key1@, value1@, key2@, value2@),
        r matches Ok(u) ==> u@ == url_with_two_params_text(
            endpoint@,
            key1@,
            value1@,
            key2@,
            value2@,
        ),
{
    match reqwest::Url::parse_with_params(endpoint, &[(key1, value1), (key2, value2)]) {
        Ok(u) => Ok(String::from(u.as_str())),
        Err(e) => Err(format!("{}", e)),
    }
}

/// Builds the fetch-thread request URL.
pub fn thread_url(base: &str, thread_id: &str) -> (u: String)
    ensures
        u@ == thread_url_text(base@, thread_id@),
{
    String::from_str(base).concat("/thread/").concat(thread_id).concat("?buy=1")
}

/// Builds the search request URL, with the keyword and the page attached as
/// URL-encoded `query` and `page` parameters.  It fails exactly when the
/// endpoint is rejected by the URL parser; the error is the parser's
/// description, which the search path surfaces in its failure reply.
pub fn search_url(base: &str, keyword: &str, page: &str) -> (r: Result<String, String>)
    ensures
        r is Ok <==> url_parse_ok(search_endpoint_text(base@), "query"@, keyword@, "page"@, page@),
        r matches Ok(u) ==> u@ == url_with_two_params_text(
            search_endpoint_text(base@),
            "query"@,
            keyword@,
            "page"@,
            page@,
        ),
{
    let endpoint = String::from_str(base).concat("/search");
    url_with_two_params(endpoint.as_str(), "query", keyword, "page", page)
}

} // verus!
