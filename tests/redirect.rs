use desktop_shell::redirect::{contains_bytes, mentions_login, on_redirect, SESSION_TOKEN_EVENT};

fn args(items: &[&str]) -> Vec<String> {
    items.iter().map(|s| s.to_string()).collect()
}

#[test]
fn login_url_emits_session_token() {
    let events = on_redirect(&args(&["appbinary", "myapp://login?token=abc"]));
    assert_eq!(events.len(), 1);
    assert_eq!(events[0].name, "session-token");
    assert_eq!(events[0].payload, "myapp://login?token=abc");
}

#[test]
fn other_url_emits_nothing() {
    let events = on_redirect(&args(&["appbinary", "myapp://open?id=5"]));
    assert!(events.is_empty());
}

#[test]
fn missing_second_argument_emits_nothing() {
    assert!(on_redirect(&args(&[])).is_empty());
    assert!(on_redirect(&args(&["appbinary"])).is_empty());
}

#[test]
fn only_second_argument_is_read() {
    assert!(on_redirect(&args(&["login", "myapp://open"])).is_empty());
    assert!(on_redirect(&args(&["appbinary", "myapp://open", "login"])).is_empty());
    let events = on_redirect(&args(&["appbinary", "login", "myapp://open"]));
    assert_eq!(events.len(), 1);
    assert_eq!(events[0].payload, "login");
}

#[test]
fn marker_anywhere_in_url_counts() {
    assert!(mentions_login("login"));
    assert!(mentions_login("https://example.com/callback/login"));
    assert!(mentions_login("é-login-ü"));
    assert!(!mentions_login("logi"));
    assert!(!mentions_login("LOGIN"));
    assert!(!mentions_login("log in"));
    assert!(!mentions_login(""));
}

#[test]
fn event_name_constant() {
    assert_eq!(SESSION_TOKEN_EVENT, "session-token");
}

#[test]
fn byte_search_edges() {
    assert!(contains_bytes(b"", b""));
    assert!(contains_bytes(b"abc", b""));
    assert!(!contains_bytes(b"", b"a"));
    assert!(!contains_bytes(b"ab", b"abc"));
    assert!(contains_bytes(b"abc", b"abc"));
    assert!(contains_bytes(b"xxabc", b"abc"));
    assert!(contains_bytes(b"aab", b"ab"));
    assert!(!contains_bytes(b"abab", b"abb"));
}
