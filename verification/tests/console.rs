use freepalette::cli::execution_policy;
use freepalette::config::{Config, ProviderConfig};
use freepalette::console::{
    app_report_lines, daemon_client_output, daemon_client_request, daemon_status_lines, executed_lines,
    finish_first_result, foreground_exit_line, join_strings, local_status_lines, require_ipc_response, result_lines,
    run_first_result, shutdown_reply_outcome, DaemonClientCommand, DaemonClientOutput, FirstResultRun,
};
use freepalette::hotkey::HotkeyLoopStatus;
use freepalette::daemon::DaemonState;
use freepalette::ipc::{IpcReply, IpcRequest, IpcResponse};
use freepalette::plugin_api::{Action, EffectReport, ProviderId, ResultKind, SearchResult, SpawnReport};
use freepalette::providers::app::{AppIndexEntry, AppIndexEntrySource, AppIndexReport, AppIndexReportStatus};
use freepalette::ranking::RankedResult;

const PLATFORM: &str = "linux";

fn daemon_with(providers: ProviderConfig) -> DaemonState {
    DaemonState::from_config(Config { providers, ..Default::default() }, PLATFORM).expect("providers should register")
}

fn only(calculator: bool, shell: bool) -> ProviderConfig {
    ProviderConfig { apps: false, calculator, shell, clipboard: false }
}

fn lines(output: Result<DaemonClientOutput, String>) -> Vec<String> {
    match output {
        Ok(DaemonClientOutput::Lines(lines)) => lines,
        other => panic!("expected printed lines, got {other:?}"),
    }
}

fn status_response() -> IpcResponse {
    let config = Config::default();
    IpcResponse::Status {
        providers: vec!["apps".to_string(), "calculator".to_string(), "shell".to_string()],
        provider_config: config.providers,
        config,
        clipboard_capture_enabled: false,
        clipboard_history_len: 2,
        recent_result_count: 5,
        hotkey: "Ctrl+Alt+Space".to_string(),
        local_state_path: None,
    }
}

#[test]
fn disabled_app_report_can_be_printed() {
    assert_eq!(
        app_report_lines(None),
        vec!["status: app provider is disabled".to_string(), "apps: 0".to_string()]
    );
}

#[test]
fn app_report_lists_numbered_entries_with_sources() {
    let report = AppIndexReport {
        summary: "indexed 2 apps".to_string(),
        status: AppIndexReportStatus::Indexed { roots_checked: 0, discovered: 2 },
        entries: vec![
            AppIndexEntry {
                name: "Example".to_string(),
                command: r"C:\Program Files\Example\app.exe".to_string(),
                args: vec!["--new".to_string()],
                keywords: Vec::new(),
                source: AppIndexEntrySource::Config,
                source_detail: None,
            },
            AppIndexEntry {
                name: "Notes".to_string(),
                command: "notes".to_string(),
                args: Vec::new(),
                keywords: Vec::new(),
                source: AppIndexEntrySource::WindowsStartMenu,
                source_detail: Some("Programs/Notes.lnk".to_string()),
            },
        ],
    };

    assert_eq!(
        app_report_lines(Some(&report)),
        vec![
            "status: indexed 2 apps".to_string(),
            "apps: 2".to_string(),
            r#"  1. Example - "C:\Program Files\Example\app.exe" --new"#.to_string(),
            "     source: config".to_string(),
            "  2. Notes - notes".to_string(),
            "     source: windows-start-menu (Programs/Notes.lnk)".to_string(),
        ]
    );
}

#[test]
fn result_lines_number_results_and_describe_actions() {
    let results = vec![
        RankedResult {
            result: SearchResult::new(
                ProviderId::new("calculator"),
                "calc",
                "2+2 = 4",
                ResultKind::Calculator,
                Action::CopyText { text: "4".to_string() },
            )
            .with_subtitle("Copy result"),
            score: 1200,
        },
        RankedResult {
            result: SearchResult::new(
                ProviderId::new("shell"),
                "shell",
                "Run: echo hi",
                ResultKind::Shell,
                Action::RunShell { command: "echo hi".to_string() },
            ),
            score: -3,
        },
    ];

    assert_eq!(
        result_lines(&results),
        vec![
            " 1. [calculator] 2+2 = 4 - Copy result (score 1200)".to_string(),
            "    action: copy text: 4".to_string(),
            " 2. [shell] Run: echo hi (score -3)".to_string(),
            "    action: run shell command: echo hi".to_string(),
        ]
    );
    assert_eq!(result_lines(&Vec::new()), vec!["No results".to_string()]);
}

#[test]
fn search_calculator_query_prints_result() {
    let daemon = daemon_with(only(true, false));

    let results = daemon.search("calc 2+2", None).expect("search should succeed");
    let printed = result_lines(&results).join("\n");

    assert!(printed.contains("2+2 = 4"));
}

#[test]
fn search_shell_query_prints_action_without_running() {
    let daemon = daemon_with(only(false, true));

    let results = daemon.search("> echo hello", None).expect("search should succeed");
    let printed = result_lines(&results).join("\n");

    assert!(printed.contains("Run: echo hello"));
    assert!(printed.contains("action: run shell command: echo hello"));
}

#[test]
fn run_shell_query_requires_allow_shell() {
    let mut daemon = daemon_with(only(false, true));
    let results = daemon.search("> echo hello", None).expect("search should succeed");

    let error = run_first_result(&mut daemon, &results, execution_policy(false)).expect_err("shell should be refused");

    assert_eq!(error, "refusing to run shell command without --allow-shell");
    assert_eq!(daemon.recent_result_count(), 0);
}

#[test]
fn run_calculator_query_is_not_blocked_by_shell_guard() {
    let mut daemon = daemon_with(only(true, true));
    let results = daemon.search("calc 2+2", None).expect("search should succeed");

    let run = run_first_result(&mut daemon, &results, execution_policy(false)).expect("calculator should run");

    match run {
        FirstResultRun::Lines(lines) => assert_eq!(
            lines,
            vec!["Running: [calculator] 2+2 = 4".to_string(), "calculator result ready to copy: 4".to_string()]
        ),
        other => panic!("expected printed lines, got {other:?}"),
    }
    assert_eq!(daemon.recent_result_count(), 1);
}

#[test]
fn run_without_results_prints_nothing_to_run() {
    let mut daemon = daemon_with(only(true, false));

    let run = run_first_result(&mut daemon, &Vec::new(), execution_policy(true)).expect("nothing to run is fine");

    assert!(matches!(run, FirstResultRun::Lines(lines) if lines == vec!["Nothing to run".to_string()]));
}

#[test]
fn launched_result_finishes_after_its_report() {
    let mut daemon = DaemonState::from_config(Config::default(), PLATFORM).expect("default providers should register");
    let result = SearchResult::new(
        ProviderId::new("apps"),
        "notepad",
        "Notepad",
        ResultKind::App,
        Action::LaunchApp { command: "notepad.exe".to_string(), args: Vec::new() },
    );
    let results = vec![RankedResult { result, score: 10 }];

    match run_first_result(&mut daemon, &results, execution_policy(false)) {
        Ok(FirstResultRun::Perform { result, effect }) => {
            let printed = finish_first_result(&mut daemon, &result, &effect, &EffectReport::Spawn(SpawnReport::Started))
                .expect("started launch should succeed");
            assert_eq!(printed, vec!["Running: [apps] Notepad".to_string(), "launched notepad.exe".to_string()]);
            assert_eq!(daemon.recent_result_count(), 1);
        }
        other => panic!("expected outside work, got {other:?}"),
    }
}

#[test]
fn daemon_status_prints_one_line_per_field() {
    assert_eq!(
        daemon_status_lines(&status_response()).expect("status should print"),
        vec![
            "providers: apps, calculator, shell".to_string(),
            "clipboard items: 2".to_string(),
            "recent actions: 5".to_string(),
            "hotkey: Ctrl+Alt+Space".to_string(),
            "local state: unavailable".to_string(),
        ]
    );
    assert_eq!(
        daemon_status_lines(&IpcResponse::ShuttingDown).expect_err("only a status prints"),
        "daemon returned an unexpected status response"
    );
}

#[test]
fn executed_lines_skip_the_header_without_a_provider() {
    assert_eq!(executed_lines("", "", "Nothing to run"), vec!["Nothing to run".to_string()]);
    assert_eq!(
        executed_lines("calculator", "2+2 = 4", "copied"),
        vec!["Running: [calculator] 2+2 = 4".to_string(), "copied".to_string()]
    );
}

#[test]
fn join_strings_separates_items() {
    assert_eq!(join_strings(&Vec::new(), ", "), "");
    assert_eq!(join_strings(&vec!["a".to_string()], ", "), "a");
    assert_eq!(join_strings(&vec!["a".to_string(), "b".to_string(), "c".to_string()], ", "), "a, b, c");
}

#[test]
fn required_response_reports_daemon_errors() {
    assert_eq!(require_ipc_response(IpcReply::ok(IpcResponse::ShuttingDown)), Ok(IpcResponse::ShuttingDown));
    assert_eq!(require_ipc_response(IpcReply::error("invalid IPC token".to_string())), Err("invalid IPC token".to_string()));
    assert_eq!(
        require_ipc_response(IpcReply { ok: true, response: None, error: None }),
        Err("daemon returned an empty success response".to_string())
    );
    assert_eq!(
        require_ipc_response(IpcReply { ok: false, response: None, error: None }),
        Err("daemon request failed without an error message".to_string())
    );
}

#[test]
fn daemon_client_commands_map_to_requests() {
    assert_eq!(daemon_client_request(&DaemonClientCommand::Status { json: false }), IpcRequest::Status);
    assert_eq!(
        daemon_client_request(&DaemonClientCommand::Run { query: "calc 1+1".to_string(), allow_shell: true, limit: Some(3) }),
        IpcRequest::Execute { query: "calc 1+1".to_string(), limit: Some(3), allow_shell: true }
    );
    assert_eq!(daemon_client_request(&DaemonClientCommand::RefreshApps { json: true }), IpcRequest::RefreshAppIndex);
    assert_eq!(daemon_client_request(&DaemonClientCommand::Stop), IpcRequest::Shutdown);
}

#[test]
fn daemon_client_output_follows_the_command() {
    assert_eq!(
        lines(daemon_client_output(&DaemonClientCommand::Stop, IpcReply::ok(IpcResponse::ShuttingDown))),
        vec!["daemon stopping".to_string()]
    );
    assert_eq!(
        daemon_client_output(&DaemonClientCommand::Stop, IpcReply::ok(IpcResponse::ClipboardCleared { removed: 1 }))
            .expect_err("unexpected response"),
        "daemon returned an unexpected shutdown response"
    );
    assert_eq!(
        lines(daemon_client_output(
            &DaemonClientCommand::RefreshApps { json: false },
            IpcReply::ok(IpcResponse::AppIndexRefreshed { report: None })
        )),
        vec!["status: app provider is disabled".to_string(), "apps: 0".to_string()]
    );
    assert!(matches!(
        daemon_client_output(
            &DaemonClientCommand::RefreshApps { json: true },
            IpcReply::ok(IpcResponse::AppIndexRefreshed { report: None })
        ),
        Ok(DaemonClientOutput::ReportJson(None))
    ));
    assert!(matches!(
        daemon_client_output(&DaemonClientCommand::Status { json: true }, IpcReply::ok(status_response())),
        Ok(DaemonClientOutput::StatusJson(IpcResponse::Status { .. }))
    ));
    assert_eq!(
        lines(daemon_client_output(
            &DaemonClientCommand::Run { query: "calc 2+2".to_string(), allow_shell: false, limit: None },
            IpcReply::ok(IpcResponse::Executed {
                provider: "calculator".to_string(),
                title: "2+2 = 4".to_string(),
                message: "copied".to_string(),
            })
        )),
        vec!["Running: [calculator] 2+2 = 4".to_string(), "copied".to_string()]
    );
    assert_eq!(
        daemon_client_output(
            &DaemonClientCommand::Search { query: "x".to_string(), json: false, limit: None },
            IpcReply::error("daemon busy".to_string())
        )
        .expect_err("daemon errors are reported"),
        "daemon busy"
    );
}

#[test]
fn local_status_names_hotkey_and_local_state() {
    let daemon = DaemonState::from_config(Config::default(), PLATFORM).expect("default providers should register");

    assert_eq!(
        local_status_lines(&daemon),
        vec![
            "freepalette-daemon initialized".to_string(),
            daemon.hotkey_state().summary(),
            "IPC server is available with 'freepalette-daemon serve'".to_string(),
            "local state: unavailable".to_string(),
        ]
    );
}

#[test]
fn foreground_exit_line_names_the_reason() {
    assert_eq!(foreground_exit_line(&HotkeyLoopStatus::Disabled), "global hotkey disabled; foreground daemon exited");
    assert_eq!(
        foreground_exit_line(&HotkeyLoopStatus::UnsupportedPlatform { platform: "linux".to_string() }),
        "global hotkey unsupported on linux; foreground daemon exited"
    );
}

#[test]
fn shutdown_reply_is_checked() {
    assert_eq!(shutdown_reply_outcome(IpcReply::ok(IpcResponse::ShuttingDown)), Ok("freepalette-daemon stopping".to_string()));
    assert_eq!(
        shutdown_reply_outcome(IpcReply { ok: false, response: None, error: None }),
        Err("daemon refused shutdown without a message".to_string())
    );
    assert_eq!(
        shutdown_reply_outcome(IpcReply::ok(IpcResponse::ClipboardCleared { removed: 0 })),
        Err("daemon returned an unexpected shutdown response".to_string())
    );
}
