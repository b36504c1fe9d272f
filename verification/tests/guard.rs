use conduit::config::{ProviderConfig, RateLimitConfig, ScheduleConfig};
use conduit::guard::{check_rate, forget_old, key_allows, Guard, Refusal};
use conduit::network::{ChatMessage, InferenceRequest};

const SECOND: u128 = 1_000_000_000;

fn request(contents: &[&str], key: Option<&str>) -> InferenceRequest {
    InferenceRequest {
        model: "llama-3".to_string(),
        messages: contents
            .iter()
            .map(|c| ChatMessage { role: "user".to_string(), content: c.to_string() })
            .collect(),
        stream: None,
        access_key: key.map(|k| k.to_string()),
    }
}

fn limited(per_minute: u32) -> ProviderConfig {
    let mut config = ProviderConfig::empty();
    config.rate_limit = Some(RateLimitConfig { requests_per_minute: per_minute });
    config
}

#[test]
fn node_without_rules_serves_all() {
    let mut guard = Guard::new(ProviderConfig::empty());
    for i in 0..100u128 {
        assert_eq!(guard.validate_request(&request(&["hello"], None), i), None);
    }
    assert!(guard.log.is_empty());
}

#[test]
fn asks_for_the_access_key() {
    let mut config = ProviderConfig::empty();
    config.access_key = Some("tutu".to_string());
    let mut guard = Guard::new(config);
    assert_eq!(guard.validate_request(&request(&["hello"], None), 0), Some(Refusal::AccessKey));
    assert_eq!(
        guard.validate_request(&request(&["hello"], Some("tut")), 0),
        Some(Refusal::AccessKey)
    );
    assert_eq!(guard.validate_request(&request(&["hello"], Some("tutu")), 0), None);
}

#[test]
fn any_key_fits_where_none_is_asked_for() {
    assert!(key_allows(&None, &Some("x".to_string())));
    assert!(key_allows(&None, &None));
    assert!(!key_allows(&Some("x".to_string()), &None));
}

#[test]
fn closed_node_refuses() {
    let mut config = ProviderConfig::empty();
    config.schedule = Some(ScheduleConfig { start: "00:00".to_string(), end: "07:00".to_string() });
    let mut guard = Guard::new(config);
    assert_eq!(
        guard.validate_request_when(&request(&["hello"], None), false, 0),
        Some(Refusal::OutOfHours)
    );
    assert_eq!(guard.validate_request_when(&request(&["hello"], None), true, 0), None);
}

#[test]
fn key_comes_before_hours_and_hours_before_rate() {
    let mut config = limited(0);
    config.access_key = Some("tutu".to_string());
    let mut guard = Guard::new(config);
    let wrong = request(&["hello"], None);
    let right = request(&["hello"], Some("tutu"));
    assert_eq!(guard.validate_request_when(&wrong, false, 0), Some(Refusal::AccessKey));
    assert_eq!(guard.validate_request_when(&right, false, 0), Some(Refusal::OutOfHours));
    assert_eq!(guard.validate_request_when(&right, true, 0), Some(Refusal::RateLimit));
}

#[test]
fn limit_holds_for_sixty_seconds() {
    let mut guard = Guard::new(limited(2));
    let hello = request(&["hello"], None);
    assert_eq!(guard.validate_request_when(&hello, true, 0), None);
    assert_eq!(guard.validate_request_when(&hello, true, 10 * SECOND), None);
    assert_eq!(
        guard.validate_request_when(&hello, true, 60 * SECOND - 1),
        Some(Refusal::RateLimit)
    );
    assert_eq!(guard.validate_request_when(&hello, true, 60 * SECOND), None);
    assert_eq!(
        guard.validate_request_when(&hello, true, 69 * SECOND),
        Some(Refusal::RateLimit)
    );
    assert_eq!(guard.validate_request_when(&hello, true, 70 * SECOND), None);
    assert_eq!(guard.log, vec![60 * SECOND, 70 * SECOND]);
}

#[test]
fn limit_of_zero_serves_nothing() {
    let mut guard = Guard::new(limited(0));
    assert_eq!(
        guard.validate_request(&request(&["hello"], None), 0),
        Some(Refusal::RateLimit)
    );
}

#[test]
fn no_stretch_of_a_minute_holds_more_than_the_limit() {
    let mut guard = Guard::new(limited(3));
    let hello = request(&["hello"], None);
    let mut served: Vec<u128> = Vec::new();
    for i in 0..200u128 {
        let now = i * 7 * SECOND + (i % 3) * 1_000;
        if guard.validate_request_when(&hello, true, now).is_none() {
            served.push(now);
        }
        assert!(guard.log.len() <= 3);
    }
    assert!(served.len() > 60);
    for from in &served {
        let count = served.iter().filter(|t| *from <= **t && **t < *from + 60 * SECOND).count();
        assert!(count <= 3);
    }
}

#[test]
fn spares_a_request_below_the_limit() {
    let mut log = vec![0, 30 * SECOND, 59 * SECOND];
    assert_eq!(check_rate(Some(3), &mut log, 61 * SECOND), None);
    assert_eq!(log, vec![30 * SECOND, 59 * SECOND, 61 * SECOND]);
    assert_eq!(check_rate(Some(3), &mut log, 61 * SECOND), Some(Refusal::RateLimit));
    assert_eq!(log, vec![30 * SECOND, 59 * SECOND, 61 * SECOND]);
    assert_eq!(check_rate(None, &mut log, 500 * SECOND), None);
    assert_eq!(log.len(), 3);
}

#[test]
fn times_ahead_still_count() {
    let mut log = vec![5 * SECOND, 100 * SECOND];
    forget_old(&mut log, 65 * SECOND);
    assert_eq!(log, vec![100 * SECOND]);
}

#[test]
fn context_is_counted_in_bytes() {
    let mut config = ProviderConfig::empty();
    config.max_context = Some(5);
    let mut guard = Guard::new(config);
    assert_eq!(guard.validate_request(&request(&["abc", "de"], None), 0), None);
    assert_eq!(
        guard.validate_request(&request(&["abc", "def"], None), 0),
        Some(Refusal::ContextTooLong { received: 6, max: 5 })
    );
    assert_eq!(
        guard.validate_request(&request(&["éé", "éx"], None), 0),
        Some(Refusal::ContextTooLong { received: 7, max: 5 })
    );
    assert_eq!(guard.validate_request(&request(&[], None), 0), None);
}

#[test]
fn too_long_a_request_is_counted_and_one_turned_away_is_not() {
    let mut config = limited(2);
    config.max_context = Some(1);
    config.access_key = Some("k".to_string());
    let mut guard = Guard::new(config);
    assert_eq!(
        guard.validate_request_when(&request(&["a"], None), true, 1),
        Some(Refusal::AccessKey)
    );
    assert_eq!(
        guard.validate_request_when(&request(&["a"], Some("k")), false, 2),
        Some(Refusal::OutOfHours)
    );
    assert!(guard.log.is_empty());
    assert_eq!(
        guard.validate_request_when(&request(&["ab"], Some("k")), true, 3),
        Some(Refusal::ContextTooLong { received: 2, max: 1 })
    );
    assert_eq!(guard.log, vec![3]);
}

#[test]
fn refusals_tell_why() {
    assert_eq!(Refusal::AccessKey.reason(), "Invalid or missing access key");
    assert_eq!(Refusal::OutOfHours.reason(), "Provider is currently outside of usage hours.");
    assert_eq!(Refusal::RateLimit.reason(), "Provider rate limit exceeded.");
    assert_eq!(
        Refusal::ContextTooLong { received: 5001, max: 5000 }.reason(),
        "Provider max context exceeded. Received 5001, Max 5000"
    );
    assert_eq!(
        Refusal::ContextTooLong { received: u64::MAX, max: 0 }.reason(),
        "Provider max context exceeded. Received 18446744073709551615, Max 0"
    );
}
