use stui_runtime::ipc::MediaTab;
use stui_runtime::ipc_dispatch::{
    check_line, default_socket_path, is_episodes_request, join_path, metadata_unimplemented_message,
    ping_version_ok, play_tab, run_mode, storage_settings, LineCheck, MAX_MSG_SIZE,
};
use stui_runtime::ipc_types::SetStoragePathsRequest;

#[test]
fn ping_versions() {
    assert!(ping_version_ok(None));
    assert!(ping_version_ok(Some(1)));
    assert!(!ping_version_ok(Some(2)));
}

#[test]
fn line_checks() {
    assert!(matches!(check_line("   \n"), LineCheck::Empty));
    match check_line("  {\"type\":\"ping\"}\n") {
        LineCheck::Request(t) => assert_eq!(t, "{\"type\":\"ping\"}"),
        _ => panic!("expected request"),
    }
    let big = "x".repeat(MAX_MSG_SIZE + 1);
    match check_line(&big) {
        LineCheck::TooLarge(m) => assert_eq!(m, "message size 1048577 exceeds limit 1048576"),
        _ => panic!("expected too large"),
    }
    let exact = "é".repeat(MAX_MSG_SIZE / 2);
    assert!(matches!(check_line(&exact), LineCheck::Request(_)));
    let over = "é".repeat(MAX_MSG_SIZE / 2 + 1);
    assert!(matches!(check_line(&over), LineCheck::TooLarge(_)));
}

#[test]
fn run_modes() {
    let args: Vec<String> = vec!["stui-runtime".into(), "daemon".into(), "--socket".into(), "/run/s.sock".into()];
    let m = run_mode(&args);
    assert!(m.daemon);
    assert_eq!(m.socket.as_deref(), Some("/run/s.sock"));
    let args: Vec<String> = vec!["stui-runtime".into(), "--socket".into()];
    let m = run_mode(&args);
    assert!(!m.daemon);
    assert!(m.socket.is_none());
    assert!(!run_mode(&vec!["x".to_string()]).daemon);
}

#[test]
fn socket_paths() {
    assert_eq!(default_socket_path(Some("/run/user/1000".into()), Some("/home/a".into())), "/run/user/1000/stui.sock");
    assert_eq!(default_socket_path(None, Some("/home/a".into())), "/home/a/.local/run/stui.sock");
    assert_eq!(default_socket_path(None, None), "/tmp/.local/run/stui.sock");
    assert_eq!(join_path("/run/", "x"), "/run/x");
    assert_eq!(join_path("", "x"), "x");
    for (b, p) in [("/a", "b"), ("/a/", "b"), ("", "b"), ("rel", "b.sock")] {
        assert_eq!(join_path(b, p), std::path::Path::new(b).join(p).to_string_lossy());
    }
}

#[test]
fn request_routing_helpers() {
    assert_eq!(play_tab("music"), Some(MediaTab::Music));
    assert_eq!(play_tab("podcasts"), Some(MediaTab::Podcasts));
    assert_eq!(play_tab("movies"), None);
    assert!(is_episodes_request("episodes"));
    assert!(!is_episodes_request("credits"));
    assert_eq!(metadata_unimplemented_message(), "Metadata plugins not yet implemented");
}

#[test]
fn storage_settings_in_order() {
    let r = SetStoragePathsRequest {
        movies: Some("/m".into()),
        series: None,
        music: Some("/mu".into()),
        anime: None,
        podcasts: Some("/p".into()),
    };
    assert_eq!(
        storage_settings(&r),
        vec![
            ("storage.movies".to_string(), "/m".to_string()),
            ("storage.music".to_string(), "/mu".to_string()),
            ("storage.podcasts".to_string(), "/p".to_string()),
        ]
    );
}
