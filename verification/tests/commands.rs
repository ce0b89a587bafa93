use tsdm_bot::command::classify_argument;
use tsdm_bot::command::help_text;
use tsdm_bot::command::Command;
use tsdm_bot::command::ForumRoute;
use tsdm_bot::config::Configuration;
use tsdm_bot::dispatch::dispatch;
use tsdm_bot::dispatch::DispatchStep;

fn config() -> Configuration {
    Configuration {
        telegram_token: String::from("telegram-token"),
        telegraph_token: String::from("telegraph-token"),
        tsdm_api_base: String::from("https://api.example.com"),
    }
}

#[test]
fn digits_route_to_fetch_thread() {
    for arg in ["0", "7", "12345", "4294967295", "999999999999999999999999"] {
        match classify_argument(arg) {
            ForumRoute::FetchThread { thread_id } => assert_eq!(thread_id, arg),
            ForumRoute::SearchForum { .. } => panic!("digit argument reached the search path"),
        }
    }
}

#[test]
fn non_digits_route_to_search() {
    for arg in ["", "12a", "a12", "-5", "+5", " 12", "12 "] {
        assert!(matches!(classify_argument(arg), ForumRoute::SearchForum { .. }));
    }
}

#[test]
fn page_marker_with_space() {
    match classify_argument("=3 foo bar") {
        ForumRoute::SearchForum { page, keyword } => {
            assert_eq!(page, "3");
            assert_eq!(keyword, "foo bar");
        }
        _ => panic!("expected a search route"),
    }
}

#[test]
fn page_marker_without_space() {
    match classify_argument("=foo") {
        ForumRoute::SearchForum { page, keyword } => {
            assert_eq!(page, "1");
            assert_eq!(keyword, "foo");
        }
        _ => panic!("expected a search route"),
    }
}

#[test]
fn page_marker_boundaries() {
    match classify_argument("=") {
        ForumRoute::SearchForum { page, keyword } => {
            assert_eq!(page, "1");
            assert_eq!(keyword, "");
        }
        _ => panic!("expected a search route"),
    }
    match classify_argument("= foo") {
        ForumRoute::SearchForum { page, keyword } => {
            assert_eq!(page, "");
            assert_eq!(keyword, "foo");
        }
        _ => panic!("expected a search route"),
    }
    match classify_argument("=2 ") {
        ForumRoute::SearchForum { page, keyword } => {
            assert_eq!(page, "2");
            assert_eq!(keyword, "");
        }
        _ => panic!("expected a search route"),
    }
}

#[test]
fn plain_keyword_defaults_to_page_one() {
    match classify_argument("foo") {
        ForumRoute::SearchForum { page, keyword } => {
            assert_eq!(page, "1");
            assert_eq!(keyword, "foo");
        }
        _ => panic!("expected a search route"),
    }
}

#[test]
fn help_reply_describes_exactly_the_two_commands() {
    let text = help_text();
    assert!(text.contains("/help — display this text."));
    assert!(text.contains("/tsdm — TSDM related features"));
    assert_eq!(
        text,
        "These commands are supported:\n\n/help — display this text.\n/tsdm — TSDM related features"
    );
    assert_eq!(text.matches(" — ").count(), 2);
}

#[test]
fn dispatch_help_is_plain_and_unthreaded() {
    match dispatch(&Command::Help, &config()) {
        DispatchStep::SendReply { reply } => {
            assert!(reply.text.starts_with("These commands are supported:"));
            assert!(!reply.rich_text);
            assert!(!reply.threaded);
        }
        _ => panic!("help must answer at once"),
    }
}

#[test]
fn dispatch_thread_builds_fetch_url() {
    let cmd = Command::Tsdm { argument: String::from("42") };
    match dispatch(&cmd, &config()) {
        DispatchStep::FetchThread { url } => {
            assert_eq!(url, "https://api.example.com/thread/42?buy=1");
        }
        _ => panic!("a digit argument must fetch the thread"),
    }
}

#[test]
fn dispatch_search_builds_encoded_url() {
    let cmd = Command::Tsdm { argument: String::from("=2 foo bar") };
    match dispatch(&cmd, &config()) {
        DispatchStep::SearchForum { url } => {
            assert_eq!(url, "https://api.example.com/search?query=foo+bar&page=2");
        }
        _ => panic!("a non-digit argument must search"),
    }
}

#[test]
fn dispatch_bad_base_yields_failure_reply() {
    let bad = Configuration {
        telegram_token: String::from("telegram-token"),
        telegraph_token: String::from("telegraph-token"),
        tsdm_api_base: String::from("not a base url"),
    };
    let cmd = Command::Tsdm { argument: String::from("foo") };
    match dispatch(&cmd, &bad) {
        DispatchStep::SendReply { reply } => {
            assert!(reply.text.starts_with("Failed to search: "));
            assert!(!reply.rich_text);
            assert!(reply.threaded);
        }
        _ => panic!("an unusable base URL must surface as a failure reply"),
    }
}
