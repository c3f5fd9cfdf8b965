use stringcast::commands::{
    BuiltInCommand, CommandConfig, CommandKind, CommandRegistry, CommandsConfig,
    CustomCommandError,
};
use stringcast::detection::{detect_trigger, DetectionDecision};

fn custom(trigger: &str, enabled: bool) -> CommandConfig {
    CommandConfig {
        trigger: trigger.to_string(),
        name: "Custom".to_string(),
        prompt: "Do it: {text}".to_string(),
        enabled,
        case_sensitive: true,
        raw_output: false,
        created_at: "2026-05-31T00:00:00Z".to_string(),
    }
}

#[test]
fn builtin_registry_lists_the_ten_commands_in_order() {
    let registry = CommandRegistry::new();
    assert_eq!(registry.len(), 10);
    assert_eq!(registry.get(0).trigger, "?fix");
    assert_eq!(registry.get(9).trigger, "?summarize");
    assert_eq!(registry.get(3).kind, CommandKind::BuiltIn(BuiltInCommand::Expand));
    assert!(registry.commands().iter().all(|c| c.enabled));
}

#[test]
fn custom_commands_follow_the_builtins() {
    let config = CommandsConfig {
        custom: vec![custom("?pirate", true)],
    };
    let registry = CommandRegistry::from_config(&config).unwrap();

    assert_eq!(registry.len(), 11);
    assert_eq!(registry.get(10).trigger, "?pirate");
    assert_eq!(registry.get(10).kind, CommandKind::Custom);
}

#[test]
fn custom_trigger_must_be_question_mark_and_word() {
    for bad in ["pirate", "?", "?ask:bad", "?has space", "?waytoolongtriggerwaytoolongtrigger1"] {
        let config = CommandsConfig {
            custom: vec![custom(bad, true)],
        };
        assert_eq!(
            CommandRegistry::from_config(&config).unwrap_err(),
            CustomCommandError::InvalidTrigger(bad.to_string())
        );
    }
}

#[test]
fn custom_trigger_must_not_repeat() {
    let builtin = CommandsConfig {
        custom: vec![custom("?fix", true)],
    };
    assert_eq!(
        CommandRegistry::from_config(&builtin).unwrap_err(),
        CustomCommandError::DuplicateTrigger("?fix".to_string())
    );
    let twice = CommandsConfig {
        custom: vec![custom("?pirate", true), custom("?pirate", false)],
    };
    assert_eq!(
        CommandRegistry::from_config(&twice).unwrap_err(),
        CustomCommandError::DuplicateTrigger("?pirate".to_string())
    );
}

#[test]
fn longest_static_trigger_wins() {
    let config = CommandsConfig {
        custom: vec![custom("?formalize", true), custom("?ize", true)],
    };
    let registry = CommandRegistry::from_config(&config).unwrap();

    let DetectionDecision::Matched(matched) = detect_trigger("text ?formalize", &registry) else {
        panic!("expected a match");
    };
    assert_eq!(matched.trigger_text, "?formalize");
    assert_eq!(matched.command.kind, CommandKind::Custom);
}

#[test]
fn disabled_custom_command_does_not_match() {
    let config = CommandsConfig {
        custom: vec![custom("?pirate", false)],
    };
    let registry = CommandRegistry::from_config(&config).unwrap();

    assert_eq!(detect_trigger("ahoy ?pirate", &registry), DetectionDecision::NoMatch);
}
