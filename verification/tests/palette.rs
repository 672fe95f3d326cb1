use freepalette::cli::{describe_action, execution_policy, format_arg_for_display, DaemonCommand};
use freepalette::config::{AppEntry, ClipboardConfig, Config, GeneralConfig, ProviderConfig};
use freepalette::daemon::{ActionExecutionPolicy, ClipboardRecordOutcome};
use freepalette::palette::{
    action_hides_palette_after_success, copied_clipboard_message, selected_clipboard_text, selection_direction,
    PaletteExecution, PaletteState, PaletteStatus, SelectionDirection, WindowClosePolicy,
};
use freepalette::plugin_api::{Action, ActionEffect, EffectReport, ShellReport};

const PLATFORM: &str = "linux";

fn default_state() -> PaletteState {
    PaletteState::from_config(Config::default(), PLATFORM).expect("default providers should register")
}

fn app_only_state() -> PaletteState {
    let mut first = AppEntry::new("First App", "first.exe");
    first.keywords = vec!["freepalette-selection-test".to_string()];
    let mut second = AppEntry::new("Second App", "second.exe");
    second.keywords = vec!["freepalette-selection-test".to_string()];

    PaletteState::from_config(
        Config {
            general: GeneralConfig { max_results: 10 },
            providers: ProviderConfig { apps: true, calculator: false, shell: false, clipboard: false },
            apps: vec![first, second],
            ..Default::default()
        },
        PLATFORM,
    )
    .expect("test app provider should register")
}

fn args(items: &[&str]) -> Vec<String> {
    items.iter().map(|item| item.to_string()).collect()
}

#[test]
fn empty_query_clears_results() {
    let mut state = app_only_state();

    state.set_query("freepalette-selection-test");
    assert!(!state.results().is_empty());

    state.set_query("");

    assert!(state.results().is_empty());
    assert_eq!(state.selected_index(), None);
    assert_eq!(state.status(), &PaletteStatus::Ready);
}

#[test]
fn search_selects_first_result() {
    let mut state = default_state();

    state.set_query("calc 2+2");

    assert_eq!(state.selected_index(), Some(0));
    assert_eq!(state.results()[0].result.title, "2+2 = 4");
}

#[test]
fn selection_navigation_stays_in_bounds() {
    let mut state = app_only_state();

    state.set_query("freepalette-selection-test");
    state.move_selection(SelectionDirection::Next);
    state.move_selection(SelectionDirection::Next);

    assert_eq!(state.selected_index(), state.results().len().checked_sub(1));

    state.move_selection(SelectionDirection::Previous);
    state.move_selection(SelectionDirection::Previous);

    assert_eq!(state.selected_index(), Some(0));
}

#[test]
fn execute_selected_records_outcome() {
    let mut state = default_state();

    state.set_query("calc 2+2");
    let execution = state.execute_selected();

    assert_eq!(execution, PaletteExecution::Completed { hide_palette: false });
    assert_eq!(state.status(), &PaletteStatus::Info("calculator result ready to copy: 4".to_string()));
}

#[test]
fn execute_selected_requests_shell_confirmation() {
    let mut state = default_state();

    state.set_query("> echo hello");
    let execution = state.execute_selected();

    assert_eq!(execution, PaletteExecution::NeedsShellConfirmation { command: "echo hello".to_string() });
    assert_eq!(state.status(), &PaletteStatus::Info("Confirm shell command before running".to_string()));
}

#[test]
fn confirmed_shell_command_requires_pending_confirmation() {
    let mut state = default_state();

    state.set_query("> echo hello");
    let execution = state.execute_confirmed_shell();

    assert_eq!(execution, PaletteExecution::Blocked);
    assert_eq!(
        state.status(),
        &PaletteStatus::Error("Shell confirmation expired; select the command again".to_string())
    );
}

#[test]
fn confirmed_shell_command_runs_after_confirmation() {
    let mut state = default_state();

    state.set_query("> echo freepalette-shell-confirmed");
    let confirmation = state.execute_selected();
    let started = state.execute_confirmed_shell();
    assert_eq!(
        started,
        PaletteExecution::AwaitingEffect {
            effect: ActionEffect::Shell { command: "echo freepalette-shell-confirmed".to_string() }
        }
    );
    let execution = state.complete_pending_effect(&EffectReport::Shell(ShellReport::Exited {
        code: Some(0),
        success: true,
        stdout: "freepalette-shell-confirmed\n".to_string(),
        stderr: String::new(),
    }));

    assert_eq!(
        confirmation,
        PaletteExecution::NeedsShellConfirmation { command: "echo freepalette-shell-confirmed".to_string() }
    );
    assert_eq!(execution, PaletteExecution::Completed { hide_palette: false });
    assert_eq!(
        state.status(),
        &PaletteStatus::Info("shell exited with 0: freepalette-shell-confirmed".to_string())
    );
}

#[test]
fn changing_query_clears_shell_confirmation() {
    let mut state = default_state();

    state.set_query("> echo hello");
    assert!(matches!(state.execute_selected(), PaletteExecution::NeedsShellConfirmation { .. }));

    state.set_query("calc 2+2");
    let execution = state.execute_confirmed_shell();

    assert_eq!(execution, PaletteExecution::SelectedUnavailable);
    assert_eq!(state.status(), &PaletteStatus::Error("Selected result is not a shell command".to_string()));
}

#[test]
fn cancel_shell_confirmation_keeps_command_unrun() {
    let mut state = default_state();

    state.set_query("> echo hello");
    let confirmation = state.execute_selected();
    state.cancel_shell_confirmation();
    let execution = state.execute_confirmed_shell();

    assert!(matches!(confirmation, PaletteExecution::NeedsShellConfirmation { .. }));
    assert_eq!(execution, PaletteExecution::Blocked);
    assert_eq!(
        state.status(),
        &PaletteStatus::Error("Shell confirmation expired; select the command again".to_string())
    );
}

#[test]
fn reset_for_next_activation_clears_visible_state() {
    let mut state = default_state();

    state.set_query("calc 2+2");
    assert!(!state.results().is_empty());

    state.reset_for_next_activation();

    assert_eq!(state.query(), "");
    assert!(state.results().is_empty());
    assert_eq!(state.selected_index(), None);
    assert_eq!(state.status(), &PaletteStatus::Ready);
}

#[test]
fn reload_config_keeps_current_query_visible() {
    let mut state = default_state();

    state.set_query("calc 2+2");
    let config = state.config().clone();
    state.reload_config(config);

    assert_eq!(state.query(), "calc 2+2");
    assert_eq!(state.results()[0].result.title, "2+2 = 4");
    assert_eq!(state.status(), &PaletteStatus::Info("Config reloaded".to_string()));
}

#[test]
fn app_launch_actions_hide_palette_after_successful_execution() {
    let launch = Action::LaunchApp { command: "notepad.exe".to_string(), args: Vec::new() };
    let open_path = Action::OpenPath {
        path: "C:\\ProgramData\\Microsoft\\Windows\\Start Menu\\Programs\\Example.lnk".to_string(),
    };
    let copy_text = Action::CopyText { text: "4".to_string() };

    assert!(action_hides_palette_after_success(&launch));
    assert!(action_hides_palette_after_success(&open_path));
    assert!(!action_hides_palette_after_success(&copy_text));
}

#[test]
fn settings_accessors_report_local_state() {
    let state = default_state();

    assert!(state.provider_ids().iter().any(|id| id == "calculator"));
    assert_eq!(state.clipboard_history_len(), 0);
    assert_eq!(state.recent_result_count(), 0);
    assert_eq!(state.hotkey_summary(), "global hotkey disabled");
}

#[test]
fn clipboard_record_status_does_not_echo_contents() {
    let mut state = default_state();

    let outcome = state.record_clipboard_text("private-token-value").expect("clipboard record should return a policy outcome");

    assert_eq!(outcome, ClipboardRecordOutcome::CaptureDisabled);
    assert_eq!(state.status(), &PaletteStatus::Info("Clipboard capture is disabled in config".to_string()));
}

#[test]
fn provider_toggle_updates_visible_provider_state() {
    let mut state = default_state();

    state.set_provider_enabled("calculator", false, None).expect("provider toggle should update config");

    assert!(!state.provider_ids().iter().any(|id| id == "calculator"));
    assert_eq!(state.status(), &PaletteStatus::Info("Config updated".to_string()));
}

#[test]
fn clipboard_capture_toggle_controls_recording_policy() {
    let mut state = default_state();

    state.set_clipboard_capture_enabled(true, None).expect("clipboard capture toggle should update config");
    let outcome = state.record_clipboard_text("temporary clipboard item").expect("clipboard record should use updated policy");

    assert_eq!(outcome, ClipboardRecordOutcome::Stored);
    assert_eq!(state.clipboard_history_len(), 1);
}

#[test]
fn unknown_provider_toggle_sets_error_status() {
    let mut state = default_state();

    state.set_provider_enabled("weather", true, None).expect("an unknown provider only changes the status");

    assert_eq!(state.status(), &PaletteStatus::Error("Unknown provider: weather".to_string()));
}

#[test]
fn close_policy_exits_when_no_background_lifecycle_exists() {
    assert_eq!(WindowClosePolicy::from_lifecycle(false, false), WindowClosePolicy::CloseProcess);
}

#[test]
fn close_policy_hides_when_hotkey_lifecycle_exists() {
    assert_eq!(WindowClosePolicy::from_lifecycle(true, false), WindowClosePolicy::HideToBackground);
}

#[test]
fn close_policy_hides_when_tray_lifecycle_exists() {
    assert_eq!(WindowClosePolicy::from_lifecycle(false, true), WindowClosePolicy::HideToBackground);
}

#[test]
fn close_policy_hides_when_multiple_background_lifecycles_exist() {
    assert_eq!(WindowClosePolicy::from_lifecycle(true, true), WindowClosePolicy::HideToBackground);
}

#[test]
fn selected_clipboard_text_reads_only_clipboard_results() {
    let mut palette = PaletteState::from_config(
        Config {
            providers: ProviderConfig { apps: false, calculator: true, shell: false, clipboard: true },
            clipboard: ClipboardConfig { capture: true, max_entries: 10, max_entry_bytes: 4096 },
            ..Default::default()
        },
        PLATFORM,
    )
    .expect("test palette should register providers");

    palette.record_clipboard_text("private clipboard value").expect("test clipboard text should be stored");
    palette.set_query("private");

    assert_eq!(selected_clipboard_text(&palette), Some("private clipboard value".to_string()));

    palette.set_query("calc 2+2");

    assert_eq!(selected_clipboard_text(&palette), None);
}

#[test]
fn shell_execution_policy_requires_explicit_allow_flag() {
    assert_eq!(execution_policy(false), ActionExecutionPolicy::BlockShellCommands);
    assert_eq!(execution_policy(true), ActionExecutionPolicy::AllowShellCommands);
}

#[test]
fn app_action_preview_keeps_command_and_args_readable() {
    let action = Action::LaunchApp {
        command: r"C:\Program Files\Example App\app.exe".to_string(),
        args: vec!["--profile".to_string(), "German News".to_string()],
    };

    assert_eq!(
        describe_action(&action),
        r#"launch app: "C:\Program Files\Example App\app.exe" --profile "German News""#
    );
}

#[test]
fn quoted_arguments_escape_their_quotes() {
    assert_eq!(format_arg_for_display("say \"hi\" now"), "\"say \\\"hi\\\" now\"");
    assert_eq!(format_arg_for_display("plain"), "plain");
}

#[test]
fn daemon_command_defaults_to_status() {
    let command = DaemonCommand::from_args(args(&["freepalette-daemon"])).expect("empty daemon args should parse");

    assert!(matches!(command, DaemonCommand::Status));
}

#[test]
fn daemon_command_parses_run() {
    let command = DaemonCommand::from_args(args(&["freepalette-daemon", "run"])).expect("run daemon args should parse");

    assert!(matches!(command, DaemonCommand::Run));
}

#[test]
fn daemon_command_parses_start() {
    let command = DaemonCommand::from_args(args(&["freepalette-daemon", "start"])).expect("start daemon args should parse");

    assert!(matches!(command, DaemonCommand::Start));
}

#[test]
fn daemon_command_parses_stop() {
    let command = DaemonCommand::from_args(args(&["freepalette-daemon", "stop"])).expect("stop daemon args should parse");

    assert!(matches!(command, DaemonCommand::Stop));
}

#[test]
fn daemon_command_parses_serve_with_bind() {
    let command = DaemonCommand::from_args(args(&["freepalette-daemon", "serve", "--bind", "127.0.0.1:4567"]))
        .expect("serve daemon args should parse");

    assert!(matches!(
        command,
        DaemonCommand::Serve { bind: Some(address) } if address == "127.0.0.1:4567"
    ));
}

#[test]
fn daemon_command_rejects_unknown_commands() {
    let error = DaemonCommand::from_args(args(&["freepalette-daemon", "watch"])).expect_err("unknown daemon command should fail");

    assert!(error.to_string().contains("unknown daemon command 'watch'"));
}

#[test]
fn daemon_command_rejects_extra_arguments_and_missing_bind() {
    let extra = DaemonCommand::from_args(args(&["freepalette-daemon", "run", "now"])).expect_err("extra arguments should fail");
    let missing = DaemonCommand::from_args(args(&["freepalette-daemon", "serve", "--bind"])).expect_err("--bind needs a value");

    assert!(extra.starts_with("too many arguments"));
    assert_eq!(missing, "--bind requires an address such as 127.0.0.1:0");
}

#[test]
fn startup_shortcut_path_uses_per_user_startup_folder() {
    let path = freepalette::autostart::startup_shortcut_path_from_roaming_app_data(r"C:\Users\Example\AppData\Roaming");

    assert!(path.ends_with("Microsoft/Windows/Start Menu/Programs/Startup/freepalette.lnk"));
}

#[test]
fn missing_autostart_shortcut_reports_disabled() {
    let shortcut = "/nonexistent/freepalette-missing-autostart.lnk".to_string();

    let status = freepalette::autostart::autostart_status_for_shortcut(shortcut.clone(), false);

    assert_eq!(status, freepalette::autostart::UiAutostartStatus::Disabled { shortcut });
}

#[test]
fn token_generation_returns_hex_token() {
    let token = freepalette::ipc::generate_token().expect("token generation should succeed");

    assert_eq!(token.len(), 64);
    assert!(token.chars().all(|character| character.is_ascii_hexdigit()));
}

#[test]
fn app_icon_has_expected_rgba_shape() {
    let pixels = freepalette::icon::app_icon_rgba();
    let size = freepalette::icon::APP_ICON_SIZE;

    assert_eq!(pixels.len(), (size * size * 4) as usize);
    assert!(pixels.chunks_exact(4).any(|pixel| pixel[3] != 0));
}

#[test]
fn generated_tray_icon_has_expected_rgba_shape() {
    let pixels = freepalette::icon::app_icon_rgba();
    let size = freepalette::icon::APP_ICON_SIZE;

    assert_eq!(pixels.len(), (size * size * 4) as usize);
    assert!(pixels.chunks_exact(4).any(|pixel| pixel[3] != 0));
}

#[test]
fn icon_pixels_follow_the_drawing_order() {
    let pixels = freepalette::icon::app_icon_rgba();
    let at = |x: usize, y: usize| pixels[(y * 32 + x) * 4..(y * 32 + x) * 4 + 4].to_vec();

    assert_eq!(at(0, 0), vec![0, 0, 0, 0]);
    assert_eq!(at(14, 16), vec![224, 174, 96, 255]);
    assert_eq!(at(17, 21), vec![238, 238, 230, 255]);
    assert_eq!(at(2, 16), vec![78, 54, 38, 255]);
}

#[test]
fn selection_direction_names_are_checked() {
    assert_eq!(selection_direction("previous"), Ok(SelectionDirection::Previous));
    assert_eq!(selection_direction("next"), Ok(SelectionDirection::Next));
    assert_eq!(selection_direction("up"), Err("unknown selection direction: up".to_string()));
}

#[test]
fn copied_clipboard_message_gives_size_not_text() {
    let message = copied_clipboard_message("private-token-value é");

    assert_eq!(message, "Copied 22 bytes from clipboard history");
    assert!(!message.contains("private-token-value"));
}
