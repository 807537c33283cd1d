use sidespot::error::{connect_error, player_error, SidespotError};
use sidespot::text::{concat2, concat3, push_decimal, replace_spaces, starts_with, str_lt};

#[test]
fn prefix_tests() {
    assert!(starts_with("spotify:track:abc", "spotify:track:"));
    assert!(starts_with("abc", ""));
    assert!(!starts_with("spotify:album:abc", "spotify:track:"));
    assert!(!starts_with("spot", "spotify"));
}

#[test]
fn code_point_order() {
    assert!(str_lt("Abbey Road", "Help!"));
    assert!(!str_lt("Help!", "Abbey Road"));
    assert!(str_lt("Help", "Help!"));
    assert!(!str_lt("Help", "Help"));
    assert!(str_lt("Zebra", "apple"));
    assert!(str_lt("", "a"));
    assert!(str_lt("é", "ü"));
    assert_eq!(str_lt("über", "zebra"), "über" < "zebra");
}

#[test]
fn decimal_rendering() {
    let mut s = String::from("from=");
    push_decimal(&mut s, 0);
    assert_eq!(s, "from=0");
    let mut s = String::new();
    push_decimal(&mut s, 1500);
    assert_eq!(s, "1500");
    let mut s = String::new();
    push_decimal(&mut s, usize::MAX);
    assert_eq!(s, usize::MAX.to_string());
}

#[test]
fn spaces_become_plus() {
    assert_eq!(replace_spaces("daft punk  live"), "daft+punk++live");
    assert_eq!(replace_spaces(""), "");
    assert_eq!(replace_spaces("née à Paris"), "née+à+Paris");
}

#[test]
fn concatenation() {
    assert_eq!(concat2("ab", "cd"), "abcd");
    assert_eq!(concat3("a", "", "c"), "ac");
}

#[test]
fn error_texts() {
    assert_eq!(SidespotError::Session("x".into()).message(), "Session error: x");
    assert_eq!(SidespotError::Player("y".into()).message(), "Player error: y");
    assert_eq!(SidespotError::Auth("z".into()).message(), "Authentication error: z");
    assert_eq!(SidespotError::Jni("j".into()).message(), "JNI error: j");
    assert_eq!(SidespotError::Serde("s".into()).message(), "Serialization error: s");
    assert_eq!(SidespotError::NoSession.message(), "No active session");
    assert_eq!(SidespotError::NoPlayer.message(), "No active player");
    assert_eq!(SidespotError::Connect("c".into()).message(), "Connect error: c");
}

#[test]
fn error_builders() {
    assert_eq!(player_error("failed", "boom"), SidespotError::Player("failed: boom".into()));
    assert_eq!(connect_error("activate failed", "gone"), SidespotError::Connect("activate failed: gone".into()));
}
