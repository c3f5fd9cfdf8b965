use stringcast::commands::CommandConfig;
use stringcast::platform::ForegroundAppProvider;
use stringcast::runtime::{system_foreground_provider, RuntimeBuildError, RuntimePlan};
use stringcast::storage::{ApiKeyConfig, AppConfig};

#[test]
fn runtime_plan_builds_from_valid_config() {
    let mut config = AppConfig::default();
    config.provider.active = "openai".to_string();
    config.api_keys.push(ApiKeyConfig {
        id: "key-1".to_string(),
        provider: "openai".to_string(),
        alias: Some("Main".to_string()),
        status: "Active".to_string(),
        created_at: "2026-05-31T00:00:00Z".to_string(),
    });

    let plan = RuntimePlan::from_config(&config).unwrap();

    assert_eq!(plan.api_config.model, "gpt-4o-mini");
    assert_eq!(plan.key_pool.keys().len(), 1);
    assert_eq!(plan.response_timeout, 30_000);
    assert!(plan.show_spinner);
    assert_eq!(plan.select_all_wait, 100);
    assert_eq!(plan.clipboard_read_wait, 300);
    assert_eq!(plan.clipboard_restore_wait, 150);
}

#[test]
fn runtime_plan_rejects_invalid_custom_command() {
    let mut config = AppConfig::default();
    config.commands.custom.push(CommandConfig {
        trigger: "?ask:bad".to_string(),
        name: "Bad".to_string(),
        prompt: "Bad: {text}".to_string(),
        enabled: true,
        case_sensitive: true,
        raw_output: false,
        created_at: "2026-05-31T00:00:00Z".to_string(),
    });

    let result = RuntimePlan::from_config(&config);

    assert!(matches!(result, Err(RuntimeBuildError::Commands(_))));
}

#[test]
fn runtime_plan_rejects_unknown_provider() {
    let mut config = AppConfig::default();
    config.provider.active = "mistral".to_string();

    assert!(matches!(
        RuntimePlan::from_config(&config),
        Err(RuntimeBuildError::Config(message)) if message == "UnknownProvider(\"mistral\")"
    ));
}

#[test]
fn runtime_plan_rejects_bad_key_entry() {
    let mut config = AppConfig::default();
    config.api_keys.push(ApiKeyConfig {
        id: "key-1".to_string(),
        provider: "gemini".to_string(),
        alias: None,
        status: "sleeping".to_string(),
        created_at: String::new(),
    });

    assert!(matches!(
        RuntimePlan::from_config(&config),
        Err(RuntimeBuildError::KeyPool(message)) if message == "unknown key status: sleeping"
    ));
}

#[test]
fn spinner_setting_chooses_progress_marker() {
    let mut config = AppConfig::default();
    config.general.show_spinner = true;
    let plan = RuntimePlan::from_config(&config).unwrap();
    assert_eq!(plan.progress_marker(), Some("[...]".to_string()));

    config.general.show_spinner = false;
    let plan = RuntimePlan::from_config(&config).unwrap();
    assert_eq!(plan.progress_marker(), None);
}

#[test]
fn fallback_foreground_provider_reports_unknown_app() {
    let mut provider = system_foreground_provider();
    let app = provider.foreground_app().unwrap();

    assert_eq!(app.app_id, "unknown");
    assert_eq!(app.window_id, None);
    assert_eq!(app.display_name, None);
    assert!(!app.secure_input);
    assert!(!app.elevated);
}

#[test]
fn zero_response_timeout_is_reported_by_name() {
    let mut config = AppConfig::default();
    config.api.response_timeout_ms = 0;

    assert!(matches!(
        RuntimePlan::from_config(&config),
        Err(RuntimeBuildError::Config(message)) if message == "ZeroResponseTimeout"
    ));
}
