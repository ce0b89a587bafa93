use tsdm_bot::config::Configuration;
use tsdm_bot::dispatch::continue_fetch_thread;
use tsdm_bot::dispatch::continue_publish;
use tsdm_bot::dispatch::continue_search;
use tsdm_bot::dispatch::FetchContinuation;
use tsdm_bot::json::read_published_url;
use tsdm_bot::json::read_search_items;
use tsdm_bot::json::read_status;
use tsdm_bot::json::read_thread_content;
use tsdm_bot::dispatch::published_reply;
use tsdm_bot::publish::assemble_publish;
use tsdm_bot::publish::convert_markup;
use tsdm_bot::publish::prepare_publish;

fn config() -> Configuration {
    Configuration {
        telegram_token: String::from("telegram-token"),
        telegraph_token: String::from("telegraph-token"),
        tsdm_api_base: String::from("https://api.example.com"),
    }
}

fn value(text: &str) -> serde_json::Value {
    serde_json::from_str(text).unwrap()
}

#[test]
fn status_field_is_read() {
    assert_eq!(read_status(&value("{\"status\":0}")), Some(0));
    assert_eq!(read_status(&value("{\"status\":22}")), Some(22));
    assert_eq!(read_status(&value("{\"status\":\"0\"}")), None);
    assert_eq!(read_status(&value("{}")), None);
}

#[test]
fn thread_content_is_read_in_order() {
    let body = "{\"status\":0,\"subject\":\"Hello\",\"postlist\":[{\"message\":\"a\"},{\"message\":\"b\"}]}";
    let (title, posts) = read_thread_content(&value(body)).unwrap();
    assert_eq!(title, "Hello");
    assert_eq!(posts, vec![String::from("a"), String::from("b")]);
    assert!(read_thread_content(&value("{\"subject\":\"Hello\"}")).is_none());
    assert!(read_thread_content(&value("{\"postlist\":[]}")).is_none());
}

#[test]
fn search_items_are_read() {
    let body = "{\"results\":[{\"title\":\"A\",\"thread_id\":5,\"forum_name\":\"X\"}]}";
    let items = read_search_items(&value(body)).unwrap();
    assert_eq!(items.len(), 1);
    assert_eq!(items[0].title, "A");
    assert_eq!(items[0].thread_id, 5);
    assert_eq!(items[0].forum_name, "X");
}

#[test]
fn oversized_thread_id_is_rejected() {
    let body = "{\"results\":[{\"title\":\"A\",\"thread_id\":4294967296,\"forum_name\":\"X\"}]}";
    assert!(read_search_items(&value(body)).is_none());
}

#[test]
fn published_url_is_read_from_nested_result() {
    let body = "{\"result\":{\"url\":\"https://telegra.ph/x-01\"}}";
    assert_eq!(
        read_published_url(&value(body)),
        Some(String::from("https://telegra.ph/x-01"))
    );
    assert!(read_published_url(&value("{\"result\":{}}")).is_none());
    assert!(read_published_url(&value("{}")).is_none());
}

#[test]
fn prepare_publish_converts_markup() {
    let request = prepare_publish("telegraph-token", String::from("Title"), "<p>Hello, world</p>")
        .unwrap();
    assert_eq!(request.access_token, "telegraph-token");
    assert_eq!(request.author_name, "Nijika Ijichi");
    assert_eq!(request.title, "Title");
    assert_eq!(
        value(&request.content_json),
        value("[{\"tag\":\"p\",\"children\":[\"Hello, world\"]}]")
    );
}

#[test]
fn convert_markup_yields_document_tree_text() {
    let nodes = convert_markup("<p>Hello, world</p>").unwrap();
    assert_eq!(
        value(&nodes),
        value("[{\"tag\":\"p\",\"children\":[\"Hello, world\"]}]")
    );
    // The converter's parser refuses a body element at a fragment's root.
    assert!(convert_markup("<p>a</p><body></body>").is_none());
}

#[test]
fn assemble_publish_fixes_every_field() {
    let request = assemble_publish(
        "telegraph-token",
        String::from("Title"),
        String::from("[\"a\"]"),
    )
    .unwrap();
    assert_eq!(request.access_token, "telegraph-token");
    assert_eq!(request.author_name, "Nijika Ijichi");
    assert_eq!(request.title, "Title");
    assert_eq!(request.content_json, "[\"a\"]");
    assert!(assemble_publish(
        "telegraph-token",
        String::from("Title"),
        String::from("not json")
    )
    .is_none());
}

#[test]
fn rejected_markup_aborts_publication() {
    // The converter's parser refuses a body element at a fragment's root.
    let markup = "<p>a</p><body></body>";
    assert!(prepare_publish("telegraph-token", String::from("Title"), markup).is_none());
}

#[test]
fn declined_fetch_completes_silently() {
    let body = "{\"status\":1,\"subject\":\"Hello\",\"postlist\":[{\"message\":\"a\"}]}";
    assert!(matches!(
        continue_fetch_thread(body, &config()),
        FetchContinuation::Decline
    ));
}

#[test]
fn unusable_fetch_body_aborts_without_reply() {
    assert!(matches!(
        continue_fetch_thread("not json", &config()),
        FetchContinuation::Abort
    ));
    assert!(matches!(
        continue_fetch_thread("{\"status\":0}", &config()),
        FetchContinuation::Abort
    ));
}

#[test]
fn granted_fetch_builds_publish_request() {
    let body = "{\"status\":0,\"subject\":\"Hello\",\"postlist\":[{\"message\":\"<p>a</p>\"},{\"message\":\"<p>b</p>\"}]}";
    match continue_fetch_thread(body, &config()) {
        FetchContinuation::Publish { request } => {
            assert_eq!(request.access_token, "telegraph-token");
            assert_eq!(request.author_name, "Nijika Ijichi");
            assert_eq!(request.title, "Hello");
            let expected = telegraph_rs::html_to_node("<p>a</p>\n<hr />\n<p>b</p>");
            assert_eq!(value(&request.content_json), value(&expected));
        }
        _ => panic!("status 0 with posts must publish"),
    }
}

#[test]
fn search_transport_failure_is_prefixed_and_plain() {
    let reply = continue_search(Err(String::from("connection reset by peer")));
    assert_eq!(reply.text, "Failed to search: connection reset by peer");
    assert!(!reply.rich_text);
    assert!(reply.threaded);
}

#[test]
fn search_bad_json_is_prefixed_and_plain() {
    let reply = continue_search(Ok(String::from("<html>down</html>")));
    assert!(reply.text.starts_with("Failed to search: "));
    assert!(!reply.rich_text);
    assert!(reply.threaded);
}

#[test]
fn search_bad_shape_is_prefixed_and_plain() {
    let reply = continue_search(Ok(String::from("{\"rows\":[]}")));
    assert!(reply.text.starts_with("Failed to search: "));
    assert!(!reply.rich_text);
}

#[test]
fn search_good_body_is_rich_result_list() {
    let body = "{\"results\":[{\"title\":\"A\",\"thread_id\":5,\"forum_name\":\"X\"},{\"title\":\"B\",\"thread_id\":42,\"forum_name\":\"Y\"}]}";
    let reply = continue_search(Ok(String::from(body)));
    assert_eq!(reply.text, "[01] <code>5</code>(X) A\n[02] <code>42</code>(Y) B");
    assert!(reply.rich_text);
    assert!(reply.threaded);
}

#[test]
fn published_reply_carries_the_url() {
    let reply = published_reply(String::from("https://telegra.ph/x-01"));
    assert_eq!(reply.text, "https://telegra.ph/x-01");
    assert!(reply.rich_text);
    assert!(reply.threaded);
}

#[test]
fn publish_response_closes_with_rich_link() {
    let reply = continue_publish("{\"result\":{\"url\":\"https://telegra.ph/x-01\"}}").unwrap();
    assert_eq!(reply.text, "https://telegra.ph/x-01");
    assert!(reply.rich_text);
    assert!(reply.threaded);
    assert!(continue_publish("{\"ok\":false}").is_none());
}
