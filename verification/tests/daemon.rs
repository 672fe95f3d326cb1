use freepalette::config::{AppEntry, ClipboardConfig, Config, GeneralConfig, HotkeyConfig, ProviderConfig};
use freepalette::daemon::{
    apply_recency_boost, result_identity, ActionExecutionPolicy, ClipboardRecordOutcome, ConfigSource,
    DaemonError, DaemonState, LocalState,
};
use freepalette::hotkey::{
    run_hotkey_loop, windows_global_hotkey, HotkeyBinding, HotkeyCode, HotkeyError, HotkeyKey, HotkeyLoopError,
    HotkeyLoopStatus, HotkeyLoopStep, HotkeyModifiers, HotkeyState,
};
use freepalette::ipc::{
    check_token, clipboard_record_message, finish_app_index_refresh, handle_ipc_request, hex_encode,
    malformed_request_reply, IpcRequest, IpcResponse, IpcStep,
};
use freepalette::providers::app::{AppIndex, AppSources, IndexedApp};
use freepalette::plugin_api::{Action, ActionOutcome, ExecutionStep, ProviderId, ResultKind, SearchResult};
use freepalette::ranking::RankedResult;

const PLATFORM: &str = "linux";

fn provider_config(apps: bool, calculator: bool, shell: bool, clipboard: bool) -> ProviderConfig {
    ProviderConfig { apps, calculator, shell, clipboard }
}

fn state_for(config: Config) -> DaemonState {
    DaemonState::from_config(config, PLATFORM).expect("daemon state should initialize")
}

fn done(step: ExecutionStep) -> ActionOutcome {
    match step {
        ExecutionStep::Done(outcome) => outcome,
        ExecutionStep::Perform(effect) => panic!("expected a completed action, got outside work {effect:?}"),
    }
}

fn respond(step: IpcStep) -> Result<IpcResponse, DaemonError> {
    match step {
        IpcStep::Respond(answer) => answer,
        other => panic!("expected an answer, got {other:?}"),
    }
}

fn rescan(state: &mut DaemonState) -> Result<IpcResponse, DaemonError> {
    match handle_ipc_request(state, IpcRequest::RefreshAppIndex, None) {
        IpcStep::RescanApps => finish_app_index_refresh(state, AppSources::unavailable(PLATFORM)),
        other => panic!("expected a request to scan apps again, got {other:?}"),
    }
}

fn clipboard_config(max_entries: usize, max_entry_bytes: usize) -> ClipboardConfig {
    ClipboardConfig { capture: true, max_entries, max_entry_bytes }
}

fn limit_apps() -> Vec<AppEntry> {
    let mut first = AppEntry::new("First App", "first.exe");
    first.keywords = vec!["freepalette-daemon-limit".to_string()];
    let mut second = AppEntry::new("Second App", "second.exe");
    second.keywords = vec!["freepalette-daemon-limit".to_string()];
    vec![first, second]
}

#[test]
fn default_hotkey_is_disabled() {
    let state = HotkeyState::from_config(&HotkeyConfig::default(), PLATFORM).expect("default hotkey config should be valid");

    assert_eq!(state, HotkeyState::Disabled);
}

#[test]
fn parses_conservative_hotkey_keys() {
    assert_eq!(HotkeyKey::parse("Space").expect("space should parse"), HotkeyKey::Space);
    assert_eq!(HotkeyKey::parse("k").expect("single letter should parse"), HotkeyKey::Character('K'));
    assert_eq!(HotkeyKey::parse("F12").expect("function key should parse"), HotkeyKey::Function(12));
}

#[test]
fn rejects_unsupported_hotkey_keys() {
    let error = HotkeyKey::parse("PageDown").expect_err("unsupported key should fail");

    assert!(matches!(error, HotkeyError::UnsupportedKey(_)));
}

#[test]
fn enabled_hotkey_requires_modifier() {
    let error = HotkeyState::from_config(
        &HotkeyConfig { enabled: true, ctrl: false, alt: false, shift: false, meta: false, ..Default::default() },
        PLATFORM,
    )
    .expect_err("hotkey without modifiers should fail");

    assert!(matches!(error, HotkeyError::MissingModifier));
}

#[test]
fn ready_hotkey_state_exposes_configured_windows_binding() {
    let state = HotkeyState::ReadyForWindowsMessageLoop(HotkeyBinding {
        key: HotkeyKey::Space,
        modifiers: HotkeyModifiers { ctrl: true, alt: true, shift: false, meta: false },
    });

    let binding = state.windows_binding().expect("ready hotkey state should expose its binding");

    assert_eq!(binding.display(), "Ctrl+Alt+Space");
}

#[test]
fn disabled_hotkey_loop_exits_without_registering() {
    let status = run_hotkey_loop(&HotkeyState::Disabled, PLATFORM);

    assert_eq!(status, HotkeyLoopStep::Finished(HotkeyLoopStatus::Disabled));
}

#[test]
fn enabled_hotkey_loop_reports_unsupported_platform() {
    let state = HotkeyState::ReadyForWindowsMessageLoop(HotkeyBinding {
        key: HotkeyKey::Space,
        modifiers: HotkeyModifiers { ctrl: true, alt: true, shift: false, meta: false },
    });

    let status = run_hotkey_loop(&state, PLATFORM);

    assert_eq!(status, HotkeyLoopStep::Finished(HotkeyLoopStatus::UnsupportedPlatform { platform: PLATFORM.to_string() }));
}

#[test]
fn search_uses_configured_default_limit() {
    let state = state_for(Config {
        general: GeneralConfig { max_results: 1 },
        providers: provider_config(true, false, false, false),
        apps: limit_apps(),
        ..Default::default()
    });

    let results = state.search("freepalette-daemon-limit", None).expect("search should succeed");

    assert_eq!(results.len(), 1);
}

#[test]
fn explicit_limit_overrides_configured_default() {
    let state = state_for(Config {
        general: GeneralConfig { max_results: 1 },
        providers: provider_config(true, false, false, false),
        apps: limit_apps(),
        ..Default::default()
    });

    let results = state.search("freepalette-daemon-limit", Some(2)).expect("search should succeed");

    assert_eq!(results.len(), 2);
}

#[test]
fn execute_result_allows_non_shell_actions() {
    let mut state = state_for(Config { providers: provider_config(false, true, false, false), ..Default::default() });
    let results = state.search("calc 2+2", None).expect("calculator search should succeed");

    let outcome = done(
        state
            .execute_result(&results[0].result, ActionExecutionPolicy::BlockShellCommands)
            .expect("calculator result should execute"),
    );

    assert_eq!(outcome.message, "calculator result ready to copy: 4");
}

#[test]
fn execute_result_blocks_shell_without_explicit_policy() {
    let mut state = state_for(Config { providers: provider_config(false, false, true, false), ..Default::default() });
    let results = state.search("> echo hello", None).expect("shell search should succeed");

    let error = state
        .execute_result(&results[0].result, ActionExecutionPolicy::BlockShellCommands)
        .expect_err("shell command should be blocked");

    assert!(matches!(error, DaemonError::ShellCommandBlocked));
    assert_eq!(error.message(), "refusing to run shell command without explicit permission");
}

#[test]
fn default_config_registers_shell_provider_but_keeps_execution_blocked() {
    let mut state = state_for(Config::default());

    assert!(state.provider_ids().iter().any(|id| id == "shell"));

    let results = state.search("> echo hello", None).expect("shell search should succeed with default config");
    let shell_result = results
        .iter()
        .find(|ranked| matches!(ranked.result.action, Action::RunShell { .. }))
        .expect("default config should expose shell search results");

    let error = state
        .execute_result(&shell_result.result, ActionExecutionPolicy::BlockShellCommands)
        .expect_err("shell execution should still require explicit permission");

    assert!(matches!(error, DaemonError::ShellCommandBlocked));
}

#[test]
fn stale_app_entry_does_not_change_shell_execution_guard() {
    let mut state = state_for(Config {
        providers: provider_config(true, false, true, false),
        apps: vec![AppEntry::new("Stale App", "/nonexistent/freepalette-daemon-missing-app-target.exe")],
        ..Default::default()
    });

    let results = state.search("> echo hello", None).expect("shell search should succeed with stale app present");
    let shell_result = results
        .iter()
        .find(|ranked| matches!(ranked.result.action, Action::RunShell { .. }))
        .expect("shell result should remain visible");

    let error = state
        .execute_result(&shell_result.result, ActionExecutionPolicy::BlockShellCommands)
        .expect_err("shell execution should remain blocked");

    assert!(matches!(error, DaemonError::ShellCommandBlocked));
}

#[test]
fn successful_execution_records_local_recency() {
    let mut state = state_for(Config { providers: provider_config(false, true, false, false), ..Default::default() });
    let results = state.search("calc 2+2", None).expect("calculator search should succeed");

    state
        .execute_result(&results[0].result, ActionExecutionPolicy::BlockShellCommands)
        .expect("calculator execution should succeed");

    assert_eq!(state.recent_result_count(), 1);
}

#[test]
fn blocked_shell_execution_does_not_record_recency() {
    let mut state = state_for(Config { providers: provider_config(false, false, true, false), ..Default::default() });
    let results = state.search("> echo hello", None).expect("shell search should succeed");

    let error = state
        .execute_result(&results[0].result, ActionExecutionPolicy::BlockShellCommands)
        .expect_err("shell execution should remain blocked");

    assert!(matches!(error, DaemonError::ShellCommandBlocked));
    assert_eq!(state.recent_result_count(), 0);
}

#[test]
fn recent_result_gets_small_ordering_boost() {
    let alpha_first = RankedResult {
        result: SearchResult::new(ProviderId::new("test"), "alpha-first", "Alpha First", ResultKind::System, Action::Noop { message: "first".to_string() }),
        score: 100,
    };
    let alpha_second = RankedResult {
        result: SearchResult::new(ProviderId::new("test"), "alpha-second", "Alpha Second", ResultKind::System, Action::Noop { message: "second".to_string() }),
        score: 100,
    };
    let recent_result_ids = vec![result_identity(&alpha_second.result)];
    let mut results = vec![alpha_first, alpha_second];

    apply_recency_boost(&mut results, &recent_result_ids);

    assert_eq!(results[0].result.title, "Alpha Second");
    assert!(results[0].score > results[1].score);
}

#[test]
fn clipboard_execution_is_not_recorded_in_recency() {
    let mut state = state_for(Config {
        providers: provider_config(false, false, false, true),
        clipboard: clipboard_config(10, 128),
        ..Default::default()
    });
    state.record_clipboard_text("private-token-value").expect("clipboard record should store");

    let results = state.search("private-token-value", None).expect("clipboard search should succeed");

    state
        .execute_result(&results[0].result, ActionExecutionPolicy::BlockShellCommands)
        .expect("clipboard copy action should execute");

    assert_eq!(state.recent_result_count(), 0);
}

#[test]
fn local_state_persists_clipboard_history() {
    let config = Config {
        providers: provider_config(false, false, false, true),
        clipboard: clipboard_config(10, 128),
        ..Default::default()
    };
    let mut state = state_for(config.clone());

    state.record_clipboard_text("persisted clipboard item").expect("clipboard record should persist local state");
    let reloaded = DaemonState::from_loaded_config(ConfigSource::Provided, config, None, state.local_state(), PLATFORM, AppSources::unavailable(PLATFORM))
        .expect("daemon state should reload persisted local state");

    assert_eq!(reloaded.clipboard_history_len(), 1);
    assert_eq!(
        reloaded.search("persisted clipboard item", None).expect("persisted clipboard item should be searchable")[0]
            .result
            .title,
        "persisted clipboard item"
    );
}

#[test]
fn disabled_clipboard_capture_clears_persisted_clipboard_history() {
    let enabled_config = Config {
        providers: provider_config(false, false, false, true),
        clipboard: clipboard_config(10, 128),
        ..Default::default()
    };
    let mut state = state_for(enabled_config);
    state.record_clipboard_text("persisted clipboard item").expect("clipboard record should persist local state");

    let disabled_config = Config {
        providers: provider_config(false, false, false, true),
        clipboard: ClipboardConfig { capture: false, max_entries: 10, max_entry_bytes: 128 },
        ..Default::default()
    };
    let reloaded = DaemonState::from_loaded_config(ConfigSource::Provided, disabled_config, None, state.local_state(), PLATFORM, AppSources::unavailable(PLATFORM))
        .expect("disabled capture should reload and scrub clipboard state");
    let saved = reloaded.local_state();

    assert_eq!(reloaded.clipboard_history_len(), 0);
    assert!(!saved.clipboard_history.iter().any(|entry| entry.contains("persisted clipboard item")));
}

#[test]
fn local_state_persists_non_clipboard_recency() {
    let config = Config { providers: provider_config(false, true, false, false), ..Default::default() };
    let mut state = state_for(config.clone());
    let result = state.search("calc 2+2", None).expect("calculator result should be searchable")[0].result.clone();

    state
        .execute_result(&result, ActionExecutionPolicy::BlockShellCommands)
        .expect("calculator execution should persist recency");
    let reloaded = DaemonState::from_loaded_config(ConfigSource::Provided, config, None, state.local_state(), PLATFORM, AppSources::unavailable(PLATFORM))
        .expect("daemon state should reload persisted recency");

    assert_eq!(reloaded.recent_result_count(), 1);
}

#[test]
fn app_index_report_is_available_when_app_provider_is_enabled() {
    let state = state_for(Config { providers: provider_config(true, false, false, false), ..Default::default() });

    assert!(state.app_index_report().is_some());
}

#[test]
fn app_index_report_is_absent_when_app_provider_is_disabled() {
    let mut state = state_for(Config { providers: provider_config(false, false, false, false), ..Default::default() });

    let report = state.refresh_app_index(AppSources::unavailable(PLATFORM)).expect("app index refresh should rebuild registry");

    assert!(report.is_none());
}

#[test]
fn clipboard_provider_can_be_disabled() {
    let state = state_for(Config { providers: provider_config(false, true, false, false), ..Default::default() });

    assert_eq!(state.provider_ids(), vec!["calculator"]);
    assert_eq!(state.clipboard_history_len(), 0);
}

#[test]
fn default_config_does_not_record_clipboard_history() {
    let mut state = state_for(Config::default());

    let outcome = state.record_clipboard_text("private-token-value").expect("clipboard record should return a policy outcome");

    assert_eq!(outcome, ClipboardRecordOutcome::CaptureDisabled);
    assert_eq!(state.clipboard_history_len(), 0);
}

#[test]
fn clipboard_provider_disabled_prevents_recording() {
    let mut state = state_for(Config {
        providers: provider_config(false, false, false, false),
        clipboard: ClipboardConfig { capture: true, ..Default::default() },
        ..Default::default()
    });

    let outcome = state.record_clipboard_text("private-token-value").expect("clipboard record should return a policy outcome");

    assert_eq!(outcome, ClipboardRecordOutcome::ProviderDisabled);
    assert_eq!(state.clipboard_history_len(), 0);
}

#[test]
fn clipboard_history_respects_retention_limit() {
    let mut state = state_for(Config {
        providers: provider_config(false, false, false, true),
        clipboard: clipboard_config(2, 128),
        ..Default::default()
    });

    assert_eq!(state.record_clipboard_text("first").expect("clipboard record should succeed"), ClipboardRecordOutcome::Stored);
    assert_eq!(state.record_clipboard_text("second").expect("clipboard record should succeed"), ClipboardRecordOutcome::Stored);
    assert_eq!(state.record_clipboard_text("third").expect("clipboard record should succeed"), ClipboardRecordOutcome::Stored);

    assert_eq!(state.clipboard_history_len(), 2);
}

#[test]
fn clipboard_history_ignores_empty_and_oversized_entries() {
    let mut state = state_for(Config {
        providers: provider_config(false, false, false, true),
        clipboard: clipboard_config(10, 5),
        ..Default::default()
    });

    assert_eq!(
        state.record_clipboard_text("   ").expect("empty clipboard record should be ignored"),
        ClipboardRecordOutcome::IgnoredEmpty
    );
    assert_eq!(
        state.record_clipboard_text("secret-token").expect("oversized clipboard record should be ignored"),
        ClipboardRecordOutcome::IgnoredTooLarge { byte_count: 12, max_bytes: 5 }
    );
    assert_eq!(state.clipboard_history_len(), 0);
}

#[test]
fn clearing_clipboard_history_removes_stored_entries() {
    let mut state = state_for(Config {
        providers: provider_config(false, false, false, true),
        clipboard: clipboard_config(10, 128),
        ..Default::default()
    });
    state.record_clipboard_text("private-token-value").expect("clipboard record should succeed");

    let removed = state.clear_clipboard_history().expect("clipboard clear should rebuild provider registry");

    assert_eq!(removed, 1);
    assert_eq!(state.clipboard_history_len(), 0);
    assert!(state.search("private-token-value", None).expect("search should succeed").is_empty());
}

#[test]
fn clipboard_search_results_do_not_create_shell_actions() {
    let mut state = state_for(Config {
        providers: provider_config(false, false, false, true),
        clipboard: clipboard_config(10, 128),
        ..Default::default()
    });
    state.record_clipboard_text("> echo should-not-run").expect("clipboard record should succeed");

    let results = state.search("echo", None).expect("clipboard search should succeed");

    assert!(!results.is_empty());
    assert!(results.iter().all(|ranked| !matches!(ranked.result.action, Action::RunShell { .. })));
}

#[test]
fn daemon_reports_hotkey_state_from_config() {
    let state = state_for(Config {
        hotkey: HotkeyConfig { enabled: true, key: "Space".to_string(), ctrl: true, alt: true, shift: false, meta: false },
        ..Default::default()
    });

    assert!(matches!(state.hotkey_state(), HotkeyState::UnsupportedPlatform { .. }));
}

#[test]
fn reload_config_rebuilds_provider_registry_from_path() {
    let mut state = state_for(Config { providers: provider_config(false, true, false, false), ..Default::default() });
    assert_eq!(state.provider_ids(), vec!["calculator"]);

    state
        .reload_config(Config { providers: provider_config(false, false, true, false), ..Default::default() })
        .expect("daemon state should reload config");

    assert_eq!(state.provider_ids(), vec!["shell"]);
}

#[test]
fn refresh_app_index_preserves_searchable_app_provider_state() {
    let mut configured = AppEntry::new("Refresh Target", "refresh-target.exe");
    configured.keywords = vec!["refresh-target-keyword".to_string()];
    let mut state = state_for(Config {
        providers: provider_config(true, false, false, false),
        apps: vec![configured],
        ..Default::default()
    });

    let report = state
        .refresh_app_index(AppSources::unavailable(PLATFORM))
        .expect("app index refresh should succeed")
        .expect("app provider should have an index report");
    assert!(report.entries.iter().any(|entry| entry.name == "Refresh Target"));

    let results = state.search("refresh-target-keyword", None).expect("search should use refreshed provider registry");
    assert!(results.iter().any(|ranked| ranked.result.title == "Refresh Target"));
}

#[test]
fn reload_config_updates_app_index_report_when_app_provider_changes() {
    let mut state = state_for(Config { providers: provider_config(false, false, false, false), ..Default::default() });
    assert!(state.app_index_report().is_none());
    assert!(state.provider_ids().is_empty());

    let mut reloaded = AppEntry::new("Reloaded App", "reloaded-app.exe");
    reloaded.keywords = vec!["reload-app-keyword".to_string()];
    state
        .reload_config(Config { providers: provider_config(true, false, false, false), apps: vec![reloaded], ..Default::default() })
        .expect("daemon state should reload config");

    assert_eq!(state.provider_ids(), vec!["apps"]);
    let report = state.app_index_report().expect("app provider should have an index report after reload");
    assert!(report.entries.iter().any(|entry| entry.name == "Reloaded App"));
}

#[test]
fn status_request_reports_daemon_state() {
    let mut state = state_for(Config::default());

    let response = respond(handle_ipc_request(&mut state, IpcRequest::Status, None)).expect("status should succeed");

    let IpcResponse::Status { providers, .. } = response else {
        unreachable!("status request should return status response");
    };
    assert!(providers.iter().any(|provider| provider == "calculator"));
}

#[test]
fn search_request_returns_ranked_results() {
    let mut state = state_for(Config { providers: provider_config(false, true, false, false), ..Default::default() });

    let response = respond(handle_ipc_request(
        &mut state,
        IpcRequest::Search { query: "calc 2+2".to_string(), limit: None },
        None,
    ))
    .expect("search should succeed");

    let IpcResponse::Search { results } = response else {
        unreachable!("search request should return search response");
    };
    assert_eq!(results[0].result.title, "2+2 = 4");
}

#[test]
fn execute_request_keeps_shell_guard() {
    let mut state = state_for(Config { providers: provider_config(false, false, true, false), ..Default::default() });

    let error = respond(handle_ipc_request(
        &mut state,
        IpcRequest::Execute { query: "> echo hello".to_string(), limit: None, allow_shell: false },
        None,
    ))
    .expect_err("shell execution should stay blocked");

    assert!(matches!(error, DaemonError::ShellCommandBlocked));
}

#[test]
fn execute_result_request_keeps_shell_guard() {
    let mut state = state_for(Config { providers: provider_config(false, false, true, false), ..Default::default() });
    let results = state.search("> echo hello", None).expect("shell search should succeed");

    let error = respond(handle_ipc_request(
        &mut state,
        IpcRequest::ExecuteResult { result: results[0].result.clone(), allow_shell: false },
        None,
    ))
    .expect_err("selected shell execution should stay blocked");

    assert!(matches!(error, DaemonError::ShellCommandBlocked));
}

#[test]
fn execute_result_request_runs_selected_non_shell_result() {
    let mut state = state_for(Config { providers: provider_config(false, true, false, false), ..Default::default() });
    let results = state.search("calc 2+2", None).expect("calculator search should succeed");

    let response = respond(handle_ipc_request(
        &mut state,
        IpcRequest::ExecuteResult { result: results[0].result.clone(), allow_shell: false },
        None,
    ))
    .expect("selected calculator result should execute");

    let IpcResponse::Executed { message, .. } = response else {
        unreachable!("execute-result request should return execution response");
    };
    assert_eq!(message, "calculator result ready to copy: 4");
}

#[test]
fn ipc_provider_toggle_updates_daemon_config() {
    let mut state = state_for(Config::default());

    let response = respond(handle_ipc_request(
        &mut state,
        IpcRequest::SetProviderEnabled { provider_id: "calculator".to_string(), enabled: false },
        None,
    ))
    .expect("provider toggle should update config");

    let IpcResponse::ConfigUpdated { provider_config, .. } = response else {
        unreachable!("provider toggle should return config update response");
    };
    assert!(!provider_config.calculator);
    assert!(!state.provider_ids().iter().any(|id| id == "calculator"));
}

#[test]
fn refresh_app_index_request_returns_latest_report() {
    let mut state = state_for(Config { providers: provider_config(true, false, false, false), ..Default::default() });

    let response = rescan(&mut state).expect("app index refresh should succeed");

    let IpcResponse::AppIndexRefreshed { report } = response else {
        unreachable!("refresh request should return app index report response");
    };
    assert!(report.is_some());
}

#[test]
fn refresh_app_index_request_reports_disabled_provider() {
    let mut state = state_for(Config { providers: provider_config(false, true, false, false), ..Default::default() });

    let response = rescan(&mut state).expect("app index refresh should succeed");

    let IpcResponse::AppIndexRefreshed { report } = response else {
        unreachable!("refresh request should return app index report response");
    };
    assert!(report.is_none());
}

#[test]
fn shutdown_request_returns_shutdown_response() {
    let mut state = state_for(Config::default());

    let response = respond(handle_ipc_request(&mut state, IpcRequest::Shutdown, None)).expect("shutdown request should be accepted");

    assert_eq!(response, IpcResponse::ShuttingDown);
}

#[test]
fn clipboard_record_reply_does_not_echo_text() {
    let secret = "private-clipboard-token";
    let mut state = state_for(Config {
        providers: provider_config(false, false, false, true),
        clipboard: clipboard_config(10, 1024),
        ..Default::default()
    });

    let response = respond(handle_ipc_request(&mut state, IpcRequest::RecordClipboardText { text: secret.to_string() }, None))
        .expect("clipboard record should succeed");

    let IpcResponse::ClipboardRecorded { outcome, message } = response else {
        unreachable!("record request should return a record response");
    };
    assert_eq!(outcome, ClipboardRecordOutcome::Stored);
    assert_eq!(message, "Stored current clipboard text");
    assert!(!message.contains(secret));
}

#[test]
fn oversized_clipboard_message_names_both_sizes() {
    let message = clipboard_record_message(&ClipboardRecordOutcome::IgnoredTooLarge { byte_count: 12, max_bytes: 5 });

    assert_eq!(message, "Clipboard text is too large: 12 bytes exceeds 5");
}

#[test]
fn hex_encoding_writes_two_lower_case_digits_per_byte() {
    assert_eq!(hex_encode(&[0x00, 0x0f, 0xa5, 0xff]), "000fa5ff");
    assert_eq!(hex_encode(&[]), "");
}

#[test]
fn unknown_provider_toggle_is_refused() {
    let mut state = state_for(Config::default());

    let error = respond(handle_ipc_request(
        &mut state,
        IpcRequest::SetProviderEnabled { provider_id: "weather".to_string(), enabled: true },
        None,
    ))
    .expect_err("an unknown provider should be refused");

    assert_eq!(error.message(), "unknown provider: weather");
}

#[test]
fn recency_list_is_capped() {
    let mut state = state_for(Config { providers: provider_config(false, true, false, false), ..Default::default() });
    for n in 0..30 {
        let query = format!("calc {n}+1");
        let result = state.search(&query, None).expect("calculator search should succeed")[0].result.clone();
        state
            .execute_result(&result, ActionExecutionPolicy::BlockShellCommands)
            .expect("calculator execution should succeed");
    }

    assert_eq!(state.recent_result_count(), 25);
}

#[test]
fn saved_state_carries_the_version() {
    let state = state_for(Config::default());
    let saved: LocalState = state.local_state();

    assert_eq!(saved.version, 1);
    assert!(saved.clipboard_history.is_empty());
}

#[test]
fn windows_hotkey_mapping_accepts_supported_binding() {
    let binding = HotkeyBinding {
        key: HotkeyKey::Character('P'),
        modifiers: HotkeyModifiers { ctrl: true, alt: true, shift: false, meta: false },
    };

    let hotkey = windows_global_hotkey(&binding).expect("supported binding should map to a global hotkey");

    assert_eq!(hotkey.code, HotkeyCode::Letter('P'));
    assert!(hotkey.control);
    assert!(hotkey.alt);
    assert!(!hotkey.shift);
}

#[test]
fn windows_hotkey_mapping_rejects_invalid_public_binding() {
    let binding = HotkeyBinding {
        key: HotkeyKey::Function(25),
        modifiers: HotkeyModifiers { ctrl: true, alt: false, shift: false, meta: false },
    };

    let error = windows_global_hotkey(&binding).expect_err("out-of-range function key should fail before registration");

    assert!(matches!(error, HotkeyLoopError::InvalidBinding { .. }));
}

#[test]
fn windows_hotkey_mapping_rejects_modifierless_public_binding() {
    let binding = HotkeyBinding {
        key: HotkeyKey::Character('P'),
        modifiers: HotkeyModifiers { ctrl: false, alt: false, shift: false, meta: false },
    };

    let error = windows_global_hotkey(&binding).expect_err("modifierless hotkey should fail before registration");

    assert!(matches!(error, HotkeyLoopError::InvalidBinding { .. }));
}

#[test]
fn windows_hotkey_mapping_uppercases_letters_and_keeps_function_keys() {
    let lower = HotkeyBinding {
        key: HotkeyKey::Character('k'),
        modifiers: HotkeyModifiers { ctrl: false, alt: false, shift: true, meta: true },
    };
    let hotkey = windows_global_hotkey(&lower).expect("lowercase letter should map");
    assert_eq!(hotkey.code, HotkeyCode::Letter('K'));
    assert!(hotkey.shift && hotkey.super_key && !hotkey.control && !hotkey.alt);

    let function = HotkeyBinding {
        key: HotkeyKey::Function(24),
        modifiers: HotkeyModifiers { ctrl: true, alt: false, shift: false, meta: false },
    };
    assert_eq!(windows_global_hotkey(&function).expect("F24 should map").code, HotkeyCode::Function(24));
}

#[test]
fn refreshing_with_a_new_scan_adds_discovered_apps() {
    let mut state = state_for(Config { providers: provider_config(true, false, false, false), ..Default::default() });
    let before = state.app_index_report().expect("app provider should report");
    assert!(before.entries.iter().any(|entry| entry.name == "Notepad"));

    let found = IndexedApp::discovered(AppEntry::new("Zed Editor", "/apps/zed.lnk"), "/apps/zed.lnk");
    let sources = AppSources { index: Ok(AppIndex { entries: vec![found], roots_checked: 1 }), known: Vec::new(), platform: PLATFORM.to_string() };
    let report = state
        .refresh_app_index(sources)
        .expect("refresh should succeed")
        .expect("app provider should report");

    assert_eq!(report.summary, "indexed 1 app(s) from 1 Windows Start Menu root(s)");
    assert!(report.entries.iter().any(|entry| entry.name == "Zed Editor"));
    assert_eq!(report.entries.len(), 1);
    let results = state.search("zed editor", None).expect("search should succeed");
    assert!(results.iter().any(|ranked| ranked.result.title == "Zed Editor"));
}

#[test]
fn repeated_clipboard_text_is_coalesced_to_the_front() {
    let mut state = state_for(Config {
        providers: provider_config(false, false, false, true),
        clipboard: clipboard_config(10, 1024),
        ..Default::default()
    });

    state.record_clipboard_text("first").expect("record should succeed");
    state.record_clipboard_text("second").expect("record should succeed");
    state.record_clipboard_text("first").expect("record should succeed");

    assert_eq!(state.clipboard_history_len(), 2);
    assert_eq!(state.local_state().clipboard_history, vec!["first".to_string(), "second".to_string()]);
}

#[test]
fn wrong_token_is_refused_without_echo() {
    assert!(check_token("correct-token", "correct-token").is_ok());

    let reply = check_token("wrong-token", "correct-token").expect_err("a wrong token is refused");

    assert!(!reply.ok);
    assert!(reply.response.is_none());
    assert_eq!(reply.error.as_deref(), Some("invalid daemon IPC token"));
}

#[test]
fn malformed_request_reply_names_the_parse_error() {
    let reply = malformed_request_reply("expected value at line 1 column 2");

    assert!(!reply.ok);
    assert!(reply.response.is_none());
    assert_eq!(reply.error.as_deref(), Some("invalid daemon IPC request: expected value at line 1 column 2"));
}

#[test]
fn random_bytes_become_lower_hex_token() {
    let token = freepalette::ipc::token_from_random(Ok(vec![0x00, 0xab, 0x7f, 0xff])).expect("bytes give a token");
    assert_eq!(token, "00ab7fff");
}

#[test]
fn random_source_failure_becomes_token_error() {
    let error = freepalette::ipc::token_from_random(Err("no entropy".to_string())).unwrap_err();
    assert_eq!(error, freepalette::ipc::IpcTokenError::Random("no entropy".to_string()));
    assert_eq!(error.message(), "failed to generate daemon IPC token: no entropy");
}

fn shell_behind_noop_descriptor(state: &mut DaemonState) -> SearchResult {
    let results = state.search("> echo hidden", None).expect("shell search should succeed");
    let mut result = results[0].result.clone();
    assert!(matches!(result.action, Action::RunShell { .. }));
    result.actions = vec![freepalette::plugin_api::ActionDescriptor::primary(
        "Show",
        Action::Noop { message: "nothing".to_string() },
    )];
    assert!(matches!(result.primary_action(), Action::Noop { .. }));
    result
}

#[test]
fn shell_action_behind_other_primary_descriptor_is_blocked() {
    let mut state = state_for(Config { providers: provider_config(false, false, true, false), ..Default::default() });
    let result = shell_behind_noop_descriptor(&mut state);

    let error = state
        .execute_result(&result, ActionExecutionPolicy::BlockShellCommands)
        .expect_err("a dispatched shell command must be blocked");

    assert!(matches!(error, DaemonError::ShellCommandBlocked));
    assert_eq!(state.recent_result_count(), 0);
}

#[test]
fn ipc_execute_blocks_shell_action_behind_other_primary_descriptor() {
    let mut state = state_for(Config { providers: provider_config(false, false, true, false), ..Default::default() });
    let result = shell_behind_noop_descriptor(&mut state);

    let answer = respond(handle_ipc_request(
        &mut state,
        IpcRequest::ExecuteResult { result, allow_shell: false },
        None,
    ));

    assert!(matches!(answer, Err(DaemonError::ShellCommandBlocked)));
}
