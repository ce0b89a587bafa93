//! The command dispatcher: from an inbound command to the next step, and
//! from each service response to the one after.
//!
//! The caller performs the network transport between steps and hands the
//! response bodies (or the transport error's description) back in; every
//! decision in between is made here, under contract.

use vstd::prelude::*;
use vstd::string::StringExecFns;
use crate::command::Command;
use crate::command::ForumRoute;
use crate::command::all_digits;
use crate::command::classify_argument;
use crate::command::help_message;
use crate::command::help_text;
use crate::command::keyword_of;
use crate::command::page_of;
use crate::config::Configuration;
use crate::json::json_error_text;
use crate::json::json_ok;
use crate::json::parse_json;
use crate::json::read_published_url;
use crate::json::read_search_items;
use crate::json::read_status;
use crate::json::read_thread_content;
use crate::publish::PublishRequest;
use crate::publish::author_display_name;
use crate::publish::prepare_publish;
use crate::search::Reply;
use crate::search::search_failure_prefix;
use crate::search::search_reply;
use crate::search::lemma_search_failure_reply_has_prefix;
use crate::thread::ThreadFetchResult;
use crate::thread::ThreadStep;
use crate::thread::thread_plan;
use crate::urls::search_endpoint_text;
use crate::urls::search_url;
use crate::urls::thread_url;
use crate::urls::thread_url_text;
use crate::urls::url_parse_ok;
use crate::urls::url_with_two_params_text;

verus! {

/// What the handler must do next for an inbound command.
pub enum DispatchStep {
    /// Send this reply; nothing else to do.
    SendReply { reply: Reply },
    /// Fetch this URL; the body continues with `continue_fetch_thread`.
    FetchThread { url: String },
    /// Fetch this URL; the outcome continues with `continue_search`.
    SearchForum { url: String },
}

/// How the fetch-thread pipeline goes on after the forum answered.
pub enum FetchContinuation {
    /// The response was unusable; abort the handler with no reply.
    Abort,
    /// The forum declined the thread; complete silently with no reply.
    Decline,
    /// Submit this request; its response continues with `continue_publish`.
    Publish { request: PublishRequest },
}

/// Whether a reply text begins with the search-failure prefix.
pub open spec fn has_failure_prefix(text: Seq<char>) -> bool {
    text.len() >= search_failure_prefix().len() && text.subrange(
        0,
        search_failure_prefix().len() as int,
    ) == search_failure_prefix()
}

/// Routes an inbound command.
///
/// `/help` answers at once with the command descriptions, plain and
/// unthreaded.  A digit-only forum argument becomes a thread-fetch request
/// and never reaches the search path.  Any other argument becomes a search
/// request for its page and keyword exactly when the URL parser accepts the
/// endpoint, and an immediate plain threaded failure reply exactly
/// otherwise.
pub fn dispatch(cmd: &Command, config: &Configuration) -> (step: DispatchStep)
    ensures
        cmd is Help ==> (step matches DispatchStep::SendReply { reply } && reply.text@
            == help_message() && !reply.rich_text && !reply.threaded),
        cmd matches Command::Tsdm { argument } ==> ((all_digits(argument@) ==> (step matches
            DispatchStep::FetchThread { url } && url@ == thread_url_text(
            config.tsdm_api_base@,
            argument@,
        ))) && (!all_digits(argument@) ==> ((url_parse_ok(
            search_endpoint_text(config.tsdm_api_base@),
            "query"@,
            keyword_of(argument@),
            "page"@,
            page_of(argument@),
        ) ==> (step matches DispatchStep::SearchForum { url } && url@ == url_with_two_params_text(
            search_endpoint_text(config.tsdm_api_base@),
            "query"@,
            keyword_of(argument@),
            "page"@,
            page_of(argument@),
        ))) && (!url_parse_ok(
            search_endpoint_text(config.tsdm_api_base@),
            "query"@,
            keyword_of(argument@),
            "page"@,
            page_of(argument@),
        ) ==> (step matches DispatchStep::SendReply { reply } && has_failure_prefix(reply.text@)
            && !reply.rich_text && reply.threaded))))),
{
    match cmd {
        Command::Help => DispatchStep::SendReply {
            reply: Reply { text: help_text(), rich_text: false, threaded: false },
        },
        Command::Tsdm { argument } => match classify_argument(argument.as_str()) {
            ForumRoute::FetchThread { thread_id } => DispatchStep::FetchThread {
                url: thread_url(config.tsdm_api_base.as_str(), thread_id.as_str()),
            },
            ForumRoute::SearchForum { page, keyword } => match search_url(
                config.tsdm_api_base.as_str(),
                keyword.as_str(),
                page.as_str(),
            ) {
                Ok(url) => DispatchStep::SearchForum { url },
                Err(desc) => {
                    let ghost d = desc@;
                    let reply = search_reply(Err(desc));
                    proof {
                        lemma_search_failure_reply_has_prefix(d);
                    }
                    DispatchStep::SendReply { reply }
                },
            },
        },
    }
}

/// Continues the fetch-thread pipeline on the forum's response body.
///
/// A body without well-formed JSON or a numeric `status` aborts the handler
/// with no reply, as the unguarded pipeline does.  A non-zero status
/// completes silently: no reply, no transformation, no publication.  Status
/// zero requires `subject` and `postlist`; the posts are joined, converted,
/// and wrapped into a page-creation request under the publishing credential.
pub fn continue_fetch_thread(body: &str, config: &Configuration) -> (c: FetchContinuation)
    ensures
        !json_ok(body@) ==> c is Abort,
        c is Decline ==> json_ok(body@),
        c matches FetchContinuation::Publish { request } ==> json_ok(body@)
            && request.access_token@ == config.telegraph_token@ && request.author_name@
            == author_display_name() && json_ok(request.content_json@),
{
    let value = match parse_json(body) {
        Ok(v) => v,
        Err(_) => {
            return FetchContinuation::Abort;
        },
    };
    let status = match read_status(&value) {
        Some(s) => s,
        None => {
            return FetchContinuation::Abort;
        },
    };
    if status != 0 {
        return FetchContinuation::Decline;
    }
    let (title, posts) = match read_thread_content(&value) {
        Some(content) => content,
        None => {
            return FetchContinuation::Abort;
        },
    };
    match thread_plan(ThreadFetchResult { status, title, posts }) {
        ThreadStep::Decline => FetchContinuation::Decline,
        ThreadStep::Publish { title, markup } => {
            match prepare_publish(config.telegraph_token.as_str(), title, markup.as_str()) {
                Some(request) => FetchContinuation::Publish { request },
                None => FetchContinuation::Abort,
            }
        },
    }
}

/// Continues the search pipeline on the transport's outcome.
///
/// A transport failure, a body that is not JSON, and a body without the
/// expected search-result shape each yield the plain threaded failure
/// reply; a usable body yields the rich-text result list.  Exactly one
/// reply comes out of every outcome; every non-rich reply begins with the
/// failure prefix, and a rich reply warrants a transport success whose
/// body was well-formed JSON.
pub fn continue_search(transport: Result<String, String>) -> (r: Reply)
    ensures
        transport matches Err(desc) ==> r.text@ == search_failure_prefix() + desc@,
        r.threaded,
        !r.rich_text ==> has_failure_prefix(r.text@),
        transport matches Err(desc) ==> !r.rich_text,
        transport matches Ok(body) ==> (r.rich_text ==> json_ok(body@)),
{
    match transport {
        Err(desc) => {
            let ghost d = desc@;
            let reply = search_reply(Err(desc));
            proof {
                lemma_search_failure_reply_has_prefix(d);
            }
            reply
        },
        Ok(body) => match parse_json(body.as_str()) {
            Err(e) => {
                let desc = json_error_text(&e);
                let ghost d = desc@;
                let reply = search_reply(Err(desc));
                proof {
                    lemma_search_failure_reply_has_prefix(d);
                }
                reply
            },
            Ok(value) => match read_search_items(&value) {
                Some(items) => search_reply(Ok(items)),
                None => {
                    let desc = String::from_str("unexpected search response shape");
                    let ghost d = desc@;
                    let reply = search_reply(Err(desc));
                    proof {
                        lemma_search_failure_reply_has_prefix(d);
                    }
                    reply
                },
            },
        },
    }
}

/// The reply that closes a successful fetch-thread pipeline: exactly the
/// page URL handed in, rendered rich so the chat client can follow it as a
/// link, threaded to the triggering message.
pub fn published_reply(url: String) -> (r: Reply)
    ensures
        r.text@ == url@,
        r.rich_text,
        r.threaded,
{
    Reply { text: url, rich_text: true, threaded: true }
}

/// Continues on the publishing API's response body: the closing reply is
/// `published_reply` of the page URL read from the response's nested
/// result object.  A body that is not JSON, or carries no such URL, aborts
/// the handler with no reply, as the unguarded pipeline does.
pub fn continue_publish(body: &str) -> (r: Option<Reply>)
    ensures
        !json_ok(body@) ==> r is None,
        r matches Some(reply) ==> json_ok(body@) && reply.rich_text && reply.threaded,
{
    match parse_json(body) {
        Err(_) => None,
        Ok(value) => match read_published_url(&value) {
            None => None,
            Some(url) => Some(published_reply(url)),
        },
    }
}

} // verus!
