use conduit::network::{error_response, ChatMessage, Choice, InferenceResponse};
use conduit::text::{append_decimal, join, same_text, strip_prefix, trim_trailing};

#[test]
fn writes_decimals() {
    for n in [0u64, 7, 10, 99, 100, 65_535, 1_000_000, u64::MAX] {
        let mut text = "n=".to_string();
        append_decimal(&mut text, n);
        assert_eq!(text, format!("n={}", n));
    }
}

#[test]
fn strips_a_prefix() {
    assert_eq!(strip_prefix("Bearer tutu", "Bearer "), Some("tutu".to_string()));
    assert_eq!(strip_prefix("Bearer ", "Bearer "), Some(String::new()));
    assert_eq!(strip_prefix("bearer tutu", "Bearer "), None);
    assert_eq!(strip_prefix("Bear", "Bearer "), None);
    assert_eq!(strip_prefix("été", "é"), Some("té".to_string()));
}

#[test]
fn trims_the_end_only() {
    assert_eq!(trim_trailing("/a/b//", '/'), "/a/b");
    assert_eq!(trim_trailing("////", '/'), "");
    assert_eq!(trim_trailing("é/", '/'), "é");
    assert_eq!(trim_trailing("", '/'), "");
}

#[test]
fn joins_and_compares() {
    assert_eq!(join("a", "b"), "ab");
    assert!(same_text(&None, &None));
    assert!(same_text(&Some("a".to_string()), &Some("a".to_string())));
    assert!(!same_text(&Some("a".to_string()), &Some("b".to_string())));
    assert!(!same_text(&Some("a".to_string()), &None));
}

#[test]
fn error_response_is_a_system_message() {
    let expected = InferenceResponse {
        id: "error".to_string(),
        choices: vec![Choice {
            message: ChatMessage { role: "system".to_string(), content: "why".to_string() },
        }],
    };
    assert_eq!(error_response("why".to_string()), expected);
}
