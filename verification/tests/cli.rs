use pageshot::cli::{
    default_url, missing_value_message, parse_args, startup_message, Notice, ParseResult,
};

fn strings(toks: &[&str]) -> Vec<String> {
    toks.iter().map(|t| String::from(*t)).collect()
}

fn parsed(toks: &[&str]) -> (String, Vec<Notice>) {
    match parse_args(&strings(toks)) {
        ParseResult::Parsed(config) => (config.url, config.notices),
        ParseResult::MissingUrlValue(_) => panic!("expected a completed parse"),
    }
}

fn fatal(toks: &[&str]) -> Vec<Notice> {
    match parse_args(&strings(toks)) {
        ParseResult::Parsed(_) => panic!("expected the fatal missing-value case"),
        ParseResult::MissingUrlValue(notices) => notices,
    }
}

#[test]
fn no_arguments_use_the_default_address() {
    let (url, notices) = parsed(&[]);
    assert_eq!(url, "http://localhost:5173");
    assert_eq!(url, default_url());
    assert!(notices.is_empty());
}

#[test]
fn short_url_flag_overrides_the_address() {
    let (url, notices) = parsed(&["-u", "https://example.test"]);
    assert_eq!(url, "https://example.test");
    assert!(notices.is_empty());
}

#[test]
fn long_url_flag_overrides_the_address() {
    let (url, notices) = parsed(&["--url", "https://example.test"]);
    assert_eq!(url, "https://example.test");
    assert!(notices.is_empty());
}

#[test]
fn the_last_url_flag_wins() {
    let (url, _) = parsed(&["-u", "https://first.test", "--url", "https://second.test"]);
    assert_eq!(url, "https://second.test");
}

#[test]
fn dangling_short_url_flag_is_fatal() {
    let notices = fatal(&["-u"]);
    assert!(notices.is_empty());
}

#[test]
fn dangling_long_url_flag_is_fatal() {
    let notices = fatal(&["--url"]);
    assert!(notices.is_empty());
}

#[test]
fn dangling_url_flag_keeps_earlier_warnings() {
    let notices = fatal(&["-q", "foo", "-u"]);
    assert_eq!(
        notices,
        vec![Notice::Quiet, Notice::UnknownPositional(String::from("foo"))]
    );
}

#[test]
fn unknown_flag_warns_and_proceeds() {
    let (url, notices) = parsed(&["--bogus"]);
    assert_eq!(url, "http://localhost:5173");
    assert_eq!(notices, vec![Notice::UnknownFlag(String::from("--bogus"))]);
}

#[test]
fn unknown_positional_warns_and_proceeds() {
    let (url, notices) = parsed(&["foo"]);
    assert_eq!(url, "http://localhost:5173");
    assert_eq!(notices, vec![Notice::UnknownPositional(String::from("foo"))]);
}

#[test]
fn unknown_tokens_do_not_alter_a_chosen_address() {
    let (url, notices) = parsed(&["-u", "https://example.test", "--bogus", "foo"]);
    assert_eq!(url, "https://example.test");
    assert_eq!(
        notices,
        vec![
            Notice::UnknownFlag(String::from("--bogus")),
            Notice::UnknownPositional(String::from("foo")),
        ]
    );
}

#[test]
fn quiet_flags_are_inert() {
    let (url, notices) = parsed(&["-q"]);
    assert_eq!(url, "http://localhost:5173");
    assert_eq!(notices, vec![Notice::Quiet]);
    let (url, notices) = parsed(&["--quiet"]);
    assert_eq!(url, "http://localhost:5173");
    assert_eq!(notices, vec![Notice::Quiet]);
}

#[test]
fn verbose_flags_are_inert() {
    let (url, notices) = parsed(&["-v"]);
    assert_eq!(url, "http://localhost:5173");
    assert_eq!(notices, vec![Notice::Verbose]);
    let (url, notices) = parsed(&["--verbose"]);
    assert_eq!(url, "http://localhost:5173");
    assert_eq!(notices, vec![Notice::Verbose]);
}

#[test]
fn url_flag_consumes_the_next_token_whatever_it_is() {
    let (url, notices) = parsed(&["-u", "-q"]);
    assert_eq!(url, "-q");
    assert!(notices.is_empty());
    let (url, notices) = parsed(&["-u", "-u"]);
    assert_eq!(url, "-u");
    assert!(notices.is_empty());
}

#[test]
fn empty_token_is_an_unknown_positional() {
    let (url, notices) = parsed(&[""]);
    assert_eq!(url, "http://localhost:5173");
    assert_eq!(notices, vec![Notice::UnknownPositional(String::new())]);
}

#[test]
fn notice_messages_are_exact() {
    assert_eq!(Notice::Quiet.message(), "Quiet mode is not supported yet.");
    assert_eq!(
        Notice::Verbose.message(),
        "Verbose mode is not supported yet."
    );
    assert_eq!(
        Notice::UnknownFlag(String::from("--bogus")).message(),
        "Unkown argument --bogus"
    );
    assert_eq!(
        Notice::UnknownPositional(String::from("foo")).message(),
        "Unkown positional argument foo"
    );
}

#[test]
fn fatal_and_startup_messages_are_exact() {
    assert_eq!(
        missing_value_message(),
        "No value specified for parameter --config."
    );
    assert_eq!(
        startup_message("https://example.test"),
        "taking screenshot from: https://example.test"
    );
}
