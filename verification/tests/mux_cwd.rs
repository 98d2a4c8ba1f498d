use bootty_app::cwd::{
    new_mux_session_request_with_name, normalize_terminal_cwd, percent_decode,
    terminal_cwd_for_mux_command,
};

#[test]
fn mux_command_cwd_prefers_live_osc7_directory_over_snapshot_anchor() {
    assert_eq!(
        terminal_cwd_for_mux_command(
            Some("file://host/Users/me/project%20space".to_owned()),
            Some("/old".to_owned()),
        ),
        Some("/Users/me/project space".to_owned())
    );
    assert_eq!(
        terminal_cwd_for_mux_command(None, Some("/fallback".to_owned())),
        Some("/fallback".to_owned())
    );
}

#[test]
fn percent_decoding_reads_escapes_and_rejects_bad_ones() {
    assert_eq!(percent_decode("a%20b%2Fc"), Some("a b/c".to_owned()));
    assert_eq!(percent_decode("plain"), Some("plain".to_owned()));
    assert_eq!(percent_decode("%zz"), None);
    assert_eq!(percent_decode("%2"), None);
    assert_eq!(percent_decode("%ff"), None);
}

#[test]
fn terminal_cwd_accepts_plain_paths_and_file_urls() {
    assert_eq!(normalize_terminal_cwd("/tmp/x"), Some("/tmp/x".to_owned()));
    assert_eq!(
        normalize_terminal_cwd("file:///home/me"),
        Some("/home/me".to_owned())
    );
    assert_eq!(normalize_terminal_cwd(""), None);
}

#[test]
fn new_mux_session_request_uses_the_first_known_directory() {
    let request = new_mux_session_request_with_name(
        "work".to_owned(),
        Some("/configured".to_owned()),
        Some("/home/me".to_owned()),
        None,
        None,
    );
    assert_eq!(request.session_id, "work");
    assert_eq!(request.cwd, "/configured");

    let request = new_mux_session_request_with_name(
        String::new(),
        None,
        Some("/home/me".to_owned()),
        Some("/cur".to_owned()),
        None,
    );
    assert_eq!(request.cwd, "/home/me");

    let request = new_mux_session_request_with_name(String::new(), None, None, None, None);
    assert_eq!(request.cwd, ".");
}

fn escape_every_byte(text: &str) -> String {
    text.bytes().map(|b| format!("%{:02X}", b)).collect()
}

#[test]
fn escaping_every_byte_decodes_back_to_the_text() {
    for text in ["", "plain", "/Users/me/project space", "caf\u{e9} \u{1f600}%"] {
        assert_eq!(percent_decode(&escape_every_byte(text)), Some(text.to_owned()));
    }
}

#[test]
fn a_bad_escape_anywhere_fails_the_decoding() {
    assert_eq!(percent_decode("%41%42%4"), None);
    assert_eq!(percent_decode("ok%25%g0"), None);
    assert_eq!(percent_decode("ok%25zz"), Some("ok%zz".to_owned()));
    assert_eq!(percent_decode("%FF"), None);
}
