use stringcast::api::{ApiKey, KeyPool, KeyStatus, ProviderKind};
use stringcast::storage::ApiKeyConfig;

const NOW: u64 = 1_000_000_000;

fn key(id: &str, provider: ProviderKind, last_used: Option<u64>) -> ApiKey {
    ApiKey {
        id: id.to_string(),
        provider,
        alias: None,
        status: KeyStatus::Active,
        rate_limit_until: None,
        consecutive_errors: 0,
        last_used,
        requests_total: 0,
        requests_success: 0,
    }
}

#[test]
fn picks_least_recently_used_active_key() {
    let now = NOW;
    let mut pool = KeyPool::new(vec![
        key("old", ProviderKind::Gemini, Some(now - 60_000)),
        key("new", ProviderKind::Gemini, Some(now - 5_000)),
    ]);

    let selected = pool.next_available_key(ProviderKind::Gemini, now).unwrap();

    assert_eq!(selected.id, "old");
}

#[test]
fn picks_never_used_key_without_underflowing_early_instant() {
    let now = 0;
    let mut pool = KeyPool::new(vec![key("new", ProviderKind::Gemini, None)]);

    let selected = pool.next_available_key(ProviderKind::Gemini, now).unwrap();

    assert_eq!(selected.id, "new");
}

#[test]
fn skips_rate_limited_key_until_cooldown_expires() {
    let now = NOW;
    let mut pool = KeyPool::new(vec![
        key("limited", ProviderKind::Gemini, None),
        key("active", ProviderKind::Gemini, None),
    ]);
    pool.mark_rate_limited("limited", now + 60_000);

    let selected = pool.next_available_key(ProviderKind::Gemini, now).unwrap();

    assert_eq!(selected.id, "active");
}

#[test]
fn expired_rate_limit_becomes_available() {
    let now = NOW;
    let mut pool = KeyPool::new(vec![key("limited", ProviderKind::Gemini, None)]);
    pool.mark_rate_limited("limited", now - 1_000);

    let selected = pool.next_available_key(ProviderKind::Gemini, now).unwrap();

    assert_eq!(selected.id, "limited");
    assert_eq!(selected.status, KeyStatus::Active);
}

#[test]
fn builds_from_key_config_metadata() {
    let pool = KeyPool::from_config(&[ApiKeyConfig {
        id: "key-1".to_string(),
        provider: "openai".to_string(),
        alias: Some("Main".to_string()),
        status: "Active".to_string(),
        created_at: "2026-05-31T00:00:00Z".to_string(),
    }])
    .unwrap();

    assert_eq!(pool.keys()[0].provider, ProviderKind::OpenAi);
    assert_eq!(pool.keys()[0].status, KeyStatus::Active);
    assert_eq!(pool.keys()[0].alias.as_deref(), Some("Main"));
}

#[test]
fn next_available_key_marks_key_as_used() {
    let mut pool = KeyPool::new(vec![key("only", ProviderKind::Anthropic, None)]);

    let selected = pool.next_available_key(ProviderKind::Anthropic, NOW).unwrap();

    assert_eq!(selected.last_used, Some(NOW));
    assert_eq!(selected.requests_total, 1);
    assert_eq!(pool.keys()[0].requests_total, 1);
}

#[test]
fn next_available_key_ignores_other_providers_and_inactive_keys() {
    let mut invalid = key("invalid", ProviderKind::Gemini, None);
    invalid.status = KeyStatus::Invalid;
    let mut pool = KeyPool::new(vec![key("openai", ProviderKind::OpenAi, None), invalid]);

    assert!(pool.next_available_key(ProviderKind::Gemini, NOW).is_none());
    assert_eq!(pool.keys()[0].requests_total, 0);
}

#[test]
fn equally_old_keys_pick_the_first() {
    let mut pool = KeyPool::new(vec![
        key("first", ProviderKind::Gemini, Some(NOW - 10)),
        key("second", ProviderKind::Gemini, Some(NOW - 10)),
    ]);

    assert_eq!(pool.next_available_key(ProviderKind::Gemini, NOW).unwrap().id, "first");
}

#[test]
fn key_used_over_a_day_ago_beats_never_used_key() {
    let mut pool = KeyPool::new(vec![
        key("never", ProviderKind::Gemini, None),
        key("long-ago", ProviderKind::Gemini, Some(NOW - 86_400_001)),
    ]);

    assert_eq!(pool.next_available_key(ProviderKind::Gemini, NOW).unwrap().id, "long-ago");
}

#[test]
fn mark_success_resets_errors_and_lifts_rate_limit() {
    let mut pool = KeyPool::new(vec![key("k", ProviderKind::Gemini, None)]);
    pool.mark_rate_limited("k", NOW + 5_000);
    pool.mark_rate_limited("k", NOW + 5_000);
    assert_eq!(pool.keys()[0].consecutive_errors, 2);

    pool.mark_success("k");

    let k = &pool.keys()[0];
    assert_eq!(k.status, KeyStatus::Active);
    assert_eq!(k.rate_limit_until, None);
    assert_eq!(k.consecutive_errors, 0);
    assert_eq!(k.requests_success, 1);
}

#[test]
fn mark_invalid_and_disable_change_status() {
    let mut pool = KeyPool::new(vec![
        key("a", ProviderKind::Gemini, None),
        key("b", ProviderKind::Gemini, None),
    ]);
    pool.mark_invalid("a");
    pool.disable("b");
    pool.disable("missing");

    assert_eq!(pool.keys()[0].status, KeyStatus::Invalid);
    assert_eq!(pool.keys()[0].consecutive_errors, 1);
    assert_eq!(pool.keys()[1].status, KeyStatus::Disabled);
    assert_eq!(pool.keys()[1].consecutive_errors, 0);
}

#[test]
fn consecutive_errors_saturate() {
    let mut k = key("k", ProviderKind::Gemini, None);
    k.consecutive_errors = u8::MAX;
    let mut pool = KeyPool::new(vec![k]);
    pool.mark_invalid("k");

    assert_eq!(pool.keys()[0].consecutive_errors, u8::MAX);
}

#[test]
fn key_status_reads_both_spellings() {
    assert_eq!(KeyStatus::from_config_str("Active"), Some(KeyStatus::Active));
    assert_eq!(KeyStatus::from_config_str("rate_limited"), Some(KeyStatus::RateLimited));
    assert_eq!(KeyStatus::from_config_str("Invalid"), Some(KeyStatus::Invalid));
    assert_eq!(KeyStatus::from_config_str("disabled"), Some(KeyStatus::Disabled));
    assert_eq!(KeyStatus::from_config_str("ACTIVE"), None);
}

#[test]
fn from_config_reports_unknown_status_and_provider() {
    let entry = |provider: &str, status: &str| ApiKeyConfig {
        id: "k".to_string(),
        provider: provider.to_string(),
        alias: None,
        status: status.to_string(),
        created_at: String::new(),
    };

    assert_eq!(
        KeyPool::from_config(&[entry("openai", "paused")]).unwrap_err(),
        "unknown key status: paused"
    );
    assert_eq!(
        KeyPool::from_config(&[entry("mistral", "active")]).unwrap_err(),
        "UnknownProvider(\"mistral\")"
    );
}
