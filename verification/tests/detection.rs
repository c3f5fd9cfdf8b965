use stringcast::commands::{BuiltInCommand, CommandKind, CommandRegistry, DynamicCommand};
use stringcast::detection::{detect_trigger, finalize_pending_dynamic, DetectionDecision};

#[test]
fn detects_static_builtin_suffix() {
    let registry = CommandRegistry::new();
    let decision = detect_trigger("i dont no ?fix", &registry);

    let DetectionDecision::Matched(matched) = decision else {
        panic!("expected static match");
    };

    assert_eq!(matched.trigger_text, "?fix");
    assert_eq!(matched.transform_input, "i dont no");
    assert_eq!(matched.command.kind, CommandKind::BuiltIn(BuiltInCommand::Fix));
}

#[test]
fn detects_static_trigger_without_recent_buffer_prefix() {
    let registry = CommandRegistry::new();
    let decision = detect_trigger(" ?casual", &registry);

    let DetectionDecision::Matched(matched) = decision else {
        panic!("expected static match");
    };

    assert_eq!(matched.trigger_text, "?casual");
    assert_eq!(matched.transform_input, "");
    assert_eq!(matched.command.kind, CommandKind::BuiltIn(BuiltInCommand::Casual));
}

#[test]
fn detects_static_trigger_with_trailing_space() {
    let registry = CommandRegistry::new();
    let decision = detect_trigger("existing text ?formal ", &registry);

    let DetectionDecision::Matched(matched) = decision else {
        panic!("expected static match");
    };

    assert_eq!(matched.trigger_text, "?formal");
    assert_eq!(matched.transform_input, "existing text");
    assert_eq!(matched.command.kind, CommandKind::BuiltIn(BuiltInCommand::Formal));
}

#[test]
fn detects_every_builtin_without_recent_buffer_prefix() {
    let registry = CommandRegistry::new();
    let triggers = [
        "?fix",
        "?improve",
        "?shorten",
        "?expand",
        "?formal",
        "?casual",
        "?emoji",
        "?reply",
        "?bullets",
        "?summarize",
    ];

    for trigger in triggers {
        let decision = detect_trigger(&format!(" {trigger}"), &registry);
        assert!(
            matches!(decision, DetectionDecision::Matched(_)),
            "expected {trigger} to match"
        );
    }
}

#[test]
fn escaped_static_trigger_does_not_match() {
    let registry = CommandRegistry::new();
    let decision = detect_trigger(r"literal \?fix", &registry);

    assert_eq!(decision, DetectionDecision::NoMatch);
}

#[test]
fn translate_waits_for_debounce_when_still_typing() {
    let registry = CommandRegistry::new();
    let decision = detect_trigger("hello ?translate:es", &registry);

    assert!(matches!(decision, DetectionDecision::PendingDynamic(_)));
}

#[test]
fn translate_trailing_space_finalizes() {
    let registry = CommandRegistry::new();
    let decision = detect_trigger("hello ?translate:es ", &registry);

    let DetectionDecision::Matched(matched) = decision else {
        panic!("expected dynamic match");
    };

    assert_eq!(matched.trigger_text, "?translate:es");
    assert_eq!(
        matched.command.kind,
        CommandKind::Dynamic(DynamicCommand::Translate {
            lang_code: "es".to_string()
        })
    );
}

#[test]
fn translate_can_wait_without_recent_buffer_prefix() {
    let registry = CommandRegistry::new();
    let decision = detect_trigger(" ?translate:hi", &registry);

    assert!(matches!(decision, DetectionDecision::PendingDynamic(_)));
}

#[test]
fn finalized_ask_can_match_without_recent_buffer_prefix() {
    let decision = finalize_pending_dynamic(" ?ask:make it casual");

    let DetectionDecision::Matched(matched) = decision else {
        panic!("expected finalized ask match");
    };

    assert_eq!(matched.transform_input, "");
    assert_eq!(
        matched.command.kind,
        CommandKind::Dynamic(DynamicCommand::Ask {
            question: "make it casual".to_string()
        })
    );
}

#[test]
fn ask_spaces_remain_part_of_question_until_debounce() {
    let registry = CommandRegistry::new();
    let decision = detect_trigger("report ?ask:top three metrics", &registry);

    let DetectionDecision::PendingDynamic(pending) = decision else {
        panic!("expected pending ask trigger");
    };

    assert_eq!(pending.trigger_text, "?ask:top three metrics");
}

#[test]
fn finalized_ask_produces_match() {
    let decision = finalize_pending_dynamic("report ?ask:top three metrics");

    let DetectionDecision::Matched(matched) = decision else {
        panic!("expected finalized ask trigger");
    };

    assert_eq!(
        matched.command.kind,
        CommandKind::Dynamic(DynamicCommand::Ask {
            question: "top three metrics".to_string()
        })
    );
}

#[test]
fn double_backslash_does_not_escape_trigger() {
    let registry = CommandRegistry::new();
    let decision = detect_trigger(r"path \\?fix", &registry);

    let DetectionDecision::Matched(matched) = decision else {
        panic!("expected static match");
    };
    assert_eq!(matched.transform_input, r"path \\");
}

#[test]
fn escaped_dynamic_prefix_is_ignored() {
    let registry = CommandRegistry::new();
    assert_eq!(
        detect_trigger(r"keep \?translate:es ", &registry),
        DetectionDecision::NoMatch
    );
}

#[test]
fn invalid_language_codes_do_not_match() {
    for code in ["e", "english-x", "e5", "abcdefghi", "en-", "en--us", "en_us"] {
        assert_eq!(
            finalize_pending_dynamic(&format!("hi ?translate:{code}")),
            DetectionDecision::NoMatch,
            "{code}"
        );
    }
}

#[test]
fn language_subtags_are_accepted() {
    let DetectionDecision::Matched(matched) = finalize_pending_dynamic("hi ?translate:zh-Hant-TW") else {
        panic!("expected match");
    };
    assert_eq!(matched.trigger_text, "?translate:zh-Hant-TW");
    assert_eq!(matched.transform_input, "hi");
    assert_eq!(matched.command.trigger, "?translate:");
    assert_eq!(matched.command.name, "Translate");
    assert_eq!(matched.command.prompt, "");
}

#[test]
fn ask_question_needs_three_to_256_characters() {
    assert_eq!(finalize_pending_dynamic("x ?ask: hi "), DetectionDecision::NoMatch);
    let long = "q".repeat(257);
    assert_eq!(
        finalize_pending_dynamic(&format!("x ?ask:{long}")),
        DetectionDecision::NoMatch
    );
    let DetectionDecision::Matched(matched) = finalize_pending_dynamic("x ?ask:  why?  ") else {
        panic!("expected match");
    };
    assert_eq!(matched.trigger_text, "?ask:why?");
}

#[test]
fn last_dynamic_prefix_decides() {
    let registry = CommandRegistry::new();
    let DetectionDecision::PendingDynamic(pending) =
        detect_trigger("a ?translate:fr then ?ask:what now", &registry)
    else {
        panic!("expected pending");
    };
    assert_eq!(pending.trigger_text, "?ask:what now");
    assert_eq!(pending.transform_input, "a ?translate:fr then");
    assert_eq!(pending.debounce_ms, 650);
}

#[test]
fn static_trigger_must_end_the_buffer() {
    let registry = CommandRegistry::new();
    assert_eq!(detect_trigger("?fix this later", &registry), DetectionDecision::NoMatch);
}

#[test]
fn unicode_text_before_trigger_is_kept() {
    let registry = CommandRegistry::new();
    let DetectionDecision::Matched(matched) = detect_trigger("naïve café\u{3000}?emoji\n", &registry) else {
        panic!("expected match");
    };
    assert_eq!(matched.transform_input, "naïve café");
}
