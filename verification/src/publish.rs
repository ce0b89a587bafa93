//! Turning a granted thread into a page-creation request.
//!
//! The markup-to-document-tree conversion is an outside capability; this
//! module names its parser's verdict and verifies everything around the
//! call.

use vstd::prelude::*;
use vstd::string::StringExecFns;
use crate::json::json_ok;
use crate::json::parse_json;

verus! {

/// The fixed author display name under which articles are published.
pub open spec fn author_display_name() -> Seq<char> {
    "Nijika Ijichi"@
}

/// Whether the converter's parser accepts the markup; the verdict depends
/// on the markup alone.
pub uninterp spec fn markup_ok(markup: Seq<char>) -> bool;

/// Relies on html_parser::Dom::parse, the parser behind the markup
/// converter: it succeeds on exactly the markup the converter accepts.
#[verifier::external_body]
fn markup_parses(markup: &str) -> (b: bool)
    ensures
        b == markup_ok(markup@),
{
    html_parser::Dom::parse(markup).is_ok()
}

/// Relies on telegraph_rs::html_to_node: converts a markup fragment into
/// the publishing API's document-tree JSON.  It parses the markup with
/// html_parser::Dom::parse and does not return where that parse fails.
/// Nothing is claimed of the returned text: the converter serializes each
/// element's attributes out of a hash map, so even equal markup may come
/// back with differently ordered output between calls.
#[verifier::external_body]
fn markup_to_nodes(markup: &str) -> String
    requires
        markup_ok(markup@),
{
    telegraph_rs::html_to_node(markup)
}

/// Runs the markup through the document-tree conversion, guarding the
/// call with the parser's check: exactly the accepted markup yields a
/// JSON text.
pub fn convert_markup(markup: &str) -> (r: Option<String>)
    ensures
        r is Some <==> markup_ok(markup@),
{
    if markup_parses(markup) {
        Some(markup_to_nodes(markup))
    } else {
        None
    }
}

/// A page-creation request for the publishing API, ready for transport.
pub struct PublishRequest {
    /// The publishing credential.
    pub access_token: String,
    /// The fixed author display name.
    pub author_name: String,
    /// The article title: the thread's subject.
    pub title: String,
    /// The document tree, as JSON text; the boundary parses it into the
    /// request body.
    pub content_json: String,
}

/// Attaches the title, the fixed author name and the publishing credential
/// to a document-tree text, after checking that the text is JSON, as the
/// unguarded pipeline's parse did: exactly well-formed content yields a
/// request, and every field of the request is fixed.
pub fn assemble_publish(telegraph_token: &str, title: String, content_json: String) -> (r: Option<
    PublishRequest,
>)
    ensures
        r is Some <==> json_ok(content_json@),
        r matches Some(req) ==> req.access_token@ == telegraph_token@ && req.author_name@
            == author_display_name() && req.title@ == title@ && req.content_json@
            == content_json@,
{
    match parse_json(content_json.as_str()) {
        Ok(_) => Some(
            PublishRequest {
                access_token: String::from_str(telegraph_token),
                author_name: String::from_str("Nijika Ijichi"),
                title,
                content_json,
            },
        ),
        Err(_) => None,
    }
}

/// Turns a granted thread into a page-creation request: converts the
/// joined posts into a document tree and attaches the fixed fields.
/// `None` — on markup the converter rejects, or on converter output that
/// is not JSON — aborts the handler with no reply, as the unguarded
/// pipeline does.  Since nothing is claimed of the converter's output,
/// success here is only promised away: a `Some` warrants accepted markup
/// and a well-formed, fully fixed request.
pub fn prepare_publish(telegraph_token: &str, title: String, markup: &str) -> (r: Option<
    PublishRequest,
>)
    ensures
        r is Some ==> markup_ok(markup@),
        r matches Some(req) ==> req.access_token@ == telegraph_token@ && req.author_name@
            == author_display_name() && req.title@ == title@ && json_ok(req.content_json@),
{
    match convert_markup(markup) {
        Some(content_json) => assemble_publish(telegraph_token, title, content_json),
        None => None,
    }
}

} // verus!
