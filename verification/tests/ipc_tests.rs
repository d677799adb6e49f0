use stui_runtime::ipc::{sanitize_secrets, MediaTab, MediaType};

#[test]
fn scrubs_api_key() {
    let s = "https://api.example.com/x?api_key=abc123&y=1";
    assert_eq!(sanitize_secrets(s), "https://api.example.com/x?api_key=***&y=1");
}

#[test]
fn scrubs_token_at_end() {
    assert_eq!(sanitize_secrets("?token=deadbeef"), "?token=***");
}

#[test]
fn case_insensitive_key_match() {
    assert_eq!(sanitize_secrets("?API_KEY=abc"), "?API_KEY=***");
}

#[test]
fn does_not_match_within_word() {
    assert_eq!(sanitize_secrets("notapikey=visible"), "notapikey=visible");
}

#[test]
fn passthrough_when_no_secret() {
    let s = "plain error: connection refused";
    assert_eq!(sanitize_secrets(s), s);
}

#[test]
fn scrubs_several_keys_and_stops_at_delimiters() {
    assert_eq!(
        sanitize_secrets("a access_token=x1 b (apikey=q) c\"token=z\""),
        "a access_token=*** b (apikey=***) c\"token=***\""
    );
    assert_eq!(sanitize_secrets("token="), "token=***");
    assert_eq!(sanitize_secrets("ünï token=é\nnext"), "ünï token=***\nnext");
}

#[test]
fn media_type_and_tab_labels() {
    assert_eq!(MediaType::from_tab(&MediaTab::Series), MediaType::Series);
    assert_eq!(MediaType::from_tab(&MediaTab::Radio), MediaType::Unknown);
    assert_eq!(MediaType::Unknown.label(), "");
    assert_eq!(MediaTab::Podcasts.label(), "Podcasts");
    assert_eq!(
        MediaTab::default_tabs(),
        vec![MediaTab::Movies, MediaTab::Series, MediaTab::Music, MediaTab::Library]
    );
}

#[test]
fn secret_value_ends_at_any_whitespace() {
    assert_eq!(sanitize_secrets("token=abc\tnext"), "token=***\tnext");
    assert_eq!(sanitize_secrets("api_key=abc\nline"), "api_key=***\nline");
    assert_eq!(sanitize_secrets("apikey=abc\x0cff"), "apikey=***\x0cff");
}
