use stringcast::platform::{
    blocks_unelevated_access, executable_name, format_window_handle, wide_to_string,
    ExclusionConfig, ExclusionMatcher, ForegroundApp, OperationGate, OperationGateDecision,
    PlatformContextError,
};

#[test]
fn extracts_executable_name_from_process_path() {
    assert_eq!(
        executable_name(r"C:\Windows\System32\notepad.exe").unwrap(),
        "notepad.exe"
    );
}

#[test]
fn rejects_empty_executable_name() {
    assert_eq!(executable_name(""), Err(PlatformContextError::InvalidOutput));
}

#[test]
fn executable_name_of_bare_name_and_blank_tail() {
    assert_eq!(executable_name("notepad.exe").unwrap(), "notepad.exe");
    assert_eq!(executable_name("C:/Tools/app.exe").unwrap(), "app.exe");
    assert_eq!(
        executable_name(r"C:\Tools\  "),
        Err(PlatformContextError::InvalidOutput)
    );
}

fn app(secure_input: bool, elevated: bool, app_id: &str) -> ForegroundApp {
    ForegroundApp {
        app_id: app_id.to_string(),
        window_id: None,
        display_name: None,
        secure_input,
        elevated,
    }
}

#[test]
fn gate_decides_in_order() {
    let gate = OperationGate::new(true, ExclusionMatcher::new(vec!["blocked.exe".to_string()]));
    assert_eq!(gate.evaluate(&app(false, false, "editor")), OperationGateDecision::Allow);
    assert_eq!(
        gate.evaluate(&app(true, true, "blocked.exe")),
        OperationGateDecision::BlockedSecureInput
    );
    assert_eq!(
        gate.evaluate(&app(false, true, "blocked.exe")),
        OperationGateDecision::BlockedElevated
    );
    assert_eq!(
        gate.evaluate(&app(false, false, "blocked.exe")),
        OperationGateDecision::BlockedExcluded
    );
    let disabled = OperationGate::new(false, ExclusionMatcher::new(Vec::new()));
    assert_eq!(disabled.evaluate(&app(false, false, "editor")), OperationGateDecision::Disabled);
}

#[test]
fn converts_wide_string_to_utf8_lossy_string() {
    let wide: Vec<u16> = "notepad.exe".encode_utf16().collect();

    assert_eq!(wide_to_string(&wide).unwrap(), "notepad.exe");
}

#[test]
fn wide_string_joins_surrogate_pairs_and_replaces_lone_surrogates() {
    let wide: Vec<u16> = vec![
        0xD834, 0xDD1E, 0x006d, 0x0075, 0x0073, 0xDD1E, 0x0069, 0x0063, 0xD834,
    ];

    assert_eq!(wide_to_string(&wide).unwrap(), "\u{1D11E}mus\u{FFFD}ic\u{FFFD}");
}

#[test]
fn blank_wide_string_is_invalid_output() {
    let wide: Vec<u16> = " \t ".encode_utf16().collect();

    assert_eq!(wide_to_string(&wide), Err(PlatformContextError::InvalidOutput));
    assert_eq!(wide_to_string(&[]), Err(PlatformContextError::InvalidOutput));
}

#[test]
fn elevated_target_blocks_unelevated_process() {
    assert!(blocks_unelevated_access(Some(true), Some(false)));
    assert!(blocks_unelevated_access(Some(true), None));
    assert!(blocks_unelevated_access(None, Some(false)));
    assert!(!blocks_unelevated_access(Some(true), Some(true)));
    assert!(!blocks_unelevated_access(Some(false), Some(false)));
    assert!(!blocks_unelevated_access(Some(false), None));
    assert!(!blocks_unelevated_access(None, Some(true)));
}

#[test]
fn window_handle_is_lower_case_hexadecimal() {
    assert_eq!(format_window_handle(0), "0x0");
    assert_eq!(format_window_handle(0x1a2b3c), "0x1a2b3c");
    assert_eq!(format_window_handle(255), format!("0x{:x}", 255usize));
    assert_eq!(format_window_handle(usize::MAX), format!("0x{:x}", usize::MAX));
}

#[test]
fn default_exclusions_block_windows_password_managers() {
    let matcher = ExclusionMatcher::from_config(&ExclusionConfig::default());
    for app in ["1Password.exe", "KeePass.exe", "KeePassXC.exe", "Bitwarden.exe", "LastPass.exe"] {
        assert!(matcher.matches(app), "expected {app} to be excluded");
    }
    assert!(!matcher.matches("notepad.exe"));
}

#[test]
fn executable_name_passes_over_trailing_separators_and_dots() {
    assert_eq!(executable_name("foo.txt/.//").unwrap(), "foo.txt");
    assert_eq!(executable_name(r"C:\Tools\app.exe\").unwrap(), "app.exe");
    assert_eq!(executable_name(r"C:\Tools\.\app.exe\.").unwrap(), "app.exe");
    assert_eq!(executable_name(r"C:\Tools\.."), Err(PlatformContextError::InvalidOutput));
    assert_eq!(executable_name("."), Err(PlatformContextError::InvalidOutput));
    assert_eq!(executable_name(r"\"), Err(PlatformContextError::InvalidOutput));
}

#[test]
fn executable_name_skips_windows_path_prefixes() {
    assert_eq!(executable_name("C:"), Err(PlatformContextError::InvalidOutput));
    assert_eq!(executable_name(r"C:\"), Err(PlatformContextError::InvalidOutput));
    assert_eq!(executable_name("C:app.exe").unwrap(), "app.exe");
    assert_eq!(executable_name(r"\\server\share"), Err(PlatformContextError::InvalidOutput));
    assert_eq!(executable_name(r"\\server\share\app.exe").unwrap(), "app.exe");
    assert_eq!(executable_name(r"\\?\C:\Tools\app.exe").unwrap(), "app.exe");
    assert_eq!(executable_name(r"\\?\C:"), Err(PlatformContextError::InvalidOutput));
    assert_eq!(executable_name(r"\\?\UNC\server\share"), Err(PlatformContextError::InvalidOutput));
    assert_eq!(executable_name(r"\\.\COM1"), Err(PlatformContextError::InvalidOutput));
}

#[test]
fn verbatim_paths_keep_slashes_and_dot_components() {
    assert_eq!(executable_name(r"\\?\C:\Tools\a/b.exe").unwrap(), "a/b.exe");
    assert_eq!(executable_name(r"\\?\C:\Tools\."), Err(PlatformContextError::InvalidOutput));
    assert_eq!(executable_name(r"\\?\C:\Tools\app.exe\").unwrap(), "app.exe");
    assert_eq!(executable_name(r"C:\Tools\a/b.exe").unwrap(), "b.exe");
}
