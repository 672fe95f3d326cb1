use freepalette::config::{Config, ProviderConfig};
use freepalette::daemon::{ClipboardRecordOutcome, DaemonState};
use freepalette::ipc::{IpcEndpoint, IpcReply, IpcRequest, IpcResponse};
use freepalette::palette::{
    ipc_reply_outcome, DaemonStartFailure, IpcFailure, PaletteAnswer, PaletteExecution, PaletteIpcStep, PaletteOp,
    PaletteState, PaletteStatus,
};
use freepalette::plugin_api::{Action, ProviderId, ResultKind, SearchResult};
use freepalette::ranking::RankedResult;

const PLATFORM: &str = "linux";

fn endpoint() -> IpcEndpoint {
    IpcEndpoint { address: "127.0.0.1:45123".to_string(), token: "test-token".to_string(), pid: 0 }
}

fn daemon() -> DaemonState {
    DaemonState::from_config(Config::default(), PLATFORM).expect("default providers should register")
}

fn connected_state() -> PaletteState {
    PaletteState::from_daemon_with_ipc_endpoint(daemon(), endpoint())
}

fn status_response(history: usize, hotkey: &str) -> IpcResponse {
    let config = Config::default();
    IpcResponse::Status {
        providers: vec!["apps".to_string(), "calculator".to_string()],
        provider_config: config.providers,
        config,
        clipboard_capture_enabled: false,
        clipboard_history_len: history,
        recent_result_count: 3,
        hotkey: hotkey.to_string(),
        local_state_path: Some("/tmp/freepalette/state.json".to_string()),
    }
}

fn ranked(id: &str, title: &str, action: Action) -> RankedResult {
    RankedResult { result: SearchResult::new(ProviderId::new("test"), id, title, ResultKind::System, action), score: 50 }
}

fn sent(step: PaletteIpcStep) -> IpcRequest {
    match step {
        PaletteIpcStep::Send(request) => request,
        other => panic!("expected a request to the daemon, got {other:?}"),
    }
}

fn finished(step: PaletteIpcStep) -> PaletteAnswer {
    match step {
        PaletteIpcStep::Finished(answer) => answer,
        other => panic!("expected the operation to finish, got {other:?}"),
    }
}

#[test]
fn dead_ipc_search_falls_back_to_in_process_state() {
    let mut state = connected_state();

    let request = sent(state.begin_operation(PaletteOp::SetQuery("calc 2+2".to_string())));
    assert_eq!(request, IpcRequest::Search { query: "calc 2+2".to_string(), limit: None });

    let answer = finished(state.answer_operation(Err(IpcFailure::Transport("connection refused".to_string()))));

    assert_eq!(answer, PaletteAnswer::Done);
    assert_eq!(state.results()[0].result.title, "2+2 = 4");
    assert!(state.ipc_endpoint().is_none());
    assert_eq!(
        state.daemon_connection_summary(),
        "in-process palette state (daemon IPC unavailable: connection refused)"
    );
}

#[test]
fn without_a_daemon_connection_operations_run_in_process() {
    let mut state = PaletteState::from_daemon(daemon());

    let step = state.begin_operation(PaletteOp::ClearClipboardHistory);

    assert!(matches!(step, PaletteIpcStep::InProcess(PaletteOp::ClearClipboardHistory)));
    assert_eq!(state.daemon_connection_summary(), "in-process palette state");
}

#[test]
fn connected_search_shows_daemon_results() {
    let mut state = connected_state();
    assert_eq!(state.daemon_connection_summary(), "daemon IPC at 127.0.0.1:45123");

    sent(state.begin_operation(PaletteOp::SetQuery("alpha".to_string())));
    let results = vec![
        ranked("a", "Alpha", Action::Noop { message: "a".to_string() }),
        ranked("b", "Alphabet", Action::Noop { message: "b".to_string() }),
    ];
    let answer = finished(state.answer_operation(Ok(IpcResponse::Search { results })));

    assert_eq!(answer, PaletteAnswer::Done);
    assert_eq!(state.results().len(), 2);
    assert_eq!(state.results()[1].result.title, "Alphabet");
    assert_eq!(state.selected_index(), Some(0));
    assert_eq!(state.status(), &PaletteStatus::Ready);
}

#[test]
fn blank_query_needs_no_daemon_request() {
    let mut state = connected_state();

    let answer = finished(state.begin_operation(PaletteOp::SetQuery("   ".to_string())));

    assert_eq!(answer, PaletteAnswer::Done);
    assert!(state.results().is_empty());
    assert_eq!(state.selected_index(), None);
}

#[test]
fn daemon_search_error_clears_results() {
    let mut state = connected_state();

    sent(state.begin_operation(PaletteOp::SetQuery("alpha".to_string())));
    finished(state.answer_operation(Err(IpcFailure::Daemon("search failed".to_string()))));

    assert!(state.results().is_empty());
    assert_eq!(state.status(), &PaletteStatus::Error("search failed".to_string()));
    assert!(state.ipc_endpoint().is_some());
}

#[test]
fn unexpected_search_response_is_reported() {
    let mut state = connected_state();

    sent(state.begin_operation(PaletteOp::SetQuery("alpha".to_string())));
    finished(state.answer_operation(Ok(IpcResponse::ShuttingDown)));

    assert_eq!(
        state.status(),
        &PaletteStatus::Error("daemon returned an unexpected search response".to_string())
    );
}

#[test]
fn connected_clipboard_record_refreshes_daemon_status() {
    let mut state = connected_state();

    let request = sent(state.begin_operation(PaletteOp::RecordClipboardText("private-token-value".to_string())));
    assert_eq!(request, IpcRequest::RecordClipboardText { text: "private-token-value".to_string() });

    let next = sent(state.answer_operation(Ok(IpcResponse::ClipboardRecorded {
        outcome: ClipboardRecordOutcome::Stored,
        message: "Stored clipboard item".to_string(),
    })));
    assert_eq!(next, IpcRequest::Status);

    let answer = finished(state.answer_operation(Ok(status_response(7, "Ctrl+Alt+Space"))));

    assert_eq!(answer, PaletteAnswer::ClipboardRecorded(ClipboardRecordOutcome::Stored));
    assert_eq!(state.status(), &PaletteStatus::Info("Stored clipboard item".to_string()));
    assert_eq!(state.clipboard_history_len(), 7);
    assert_eq!(state.recent_result_count(), 3);
    assert_eq!(state.hotkey_summary(), "Ctrl+Alt+Space");
    assert_eq!(state.provider_ids(), vec!["apps".to_string(), "calculator".to_string()]);
    assert!(!state.clipboard_capture_enabled());
    assert_eq!(state.local_state_path(), Some("/tmp/freepalette/state.json".to_string()));
}

#[test]
fn clipboard_record_falls_back_after_transport_failure() {
    let mut state = connected_state();

    sent(state.begin_operation(PaletteOp::RecordClipboardText("copied".to_string())));
    let step = state.answer_operation(Err(IpcFailure::Transport("broken pipe".to_string())));

    match step {
        PaletteIpcStep::InProcess(PaletteOp::RecordClipboardText(text)) => assert_eq!(text, "copied"),
        other => panic!("expected the in-process fallback, got {other:?}"),
    }
    assert!(state.ipc_endpoint().is_none());
}

#[test]
fn daemon_rejected_clipboard_record_reports_capture_disabled() {
    let mut state = connected_state();

    sent(state.begin_operation(PaletteOp::RecordClipboardText("copied".to_string())));
    let answer = finished(state.answer_operation(Err(IpcFailure::Daemon("capture is off".to_string()))));

    assert_eq!(answer, PaletteAnswer::ClipboardRecorded(ClipboardRecordOutcome::CaptureDisabled));
    assert_eq!(state.status(), &PaletteStatus::Error("capture is off".to_string()));
}

#[test]
fn connected_clear_reports_removed_count() {
    let mut state = connected_state();

    assert_eq!(sent(state.begin_operation(PaletteOp::ClearClipboardHistory)), IpcRequest::ClearClipboardHistory);
    assert_eq!(sent(state.answer_operation(Ok(IpcResponse::ClipboardCleared { removed: 4 }))), IpcRequest::Status);
    let answer = finished(state.answer_operation(Ok(status_response(0, "global hotkey disabled"))));

    assert_eq!(answer, PaletteAnswer::ClipboardCleared(4));
    assert_eq!(state.status(), &PaletteStatus::Info("Cleared 4 clipboard item(s)".to_string()));
    assert_eq!(state.clipboard_history_len(), 0);
}

#[test]
fn connected_provider_toggle_uses_daemon_config() {
    let mut state = connected_state();
    let mut config = Config::default();
    config.providers = ProviderConfig { apps: true, calculator: false, shell: false, clipboard: true };

    let request = sent(state.begin_operation(PaletteOp::SetProviderEnabled {
        provider_id: "calculator".to_string(),
        enabled: false,
    }));
    assert_eq!(request, IpcRequest::SetProviderEnabled { provider_id: "calculator".to_string(), enabled: false });

    let next = sent(state.answer_operation(Ok(IpcResponse::ConfigUpdated {
        providers: vec!["apps".to_string(), "clipboard".to_string()],
        provider_config: config.providers,
        config,
        clipboard_capture_enabled: true,
    })));
    assert_eq!(next, IpcRequest::Status);
    assert_eq!(state.provider_ids(), vec!["apps".to_string(), "clipboard".to_string()]);
    assert_eq!(state.hotkey_summary(), "global hotkey disabled");
    assert_eq!(state.clipboard_history_len(), 0);

    let answer = finished(state.answer_operation(Err(IpcFailure::Daemon("status unavailable".to_string()))));

    assert_eq!(answer, PaletteAnswer::Done);
    assert_eq!(state.status(), &PaletteStatus::Info("Config updated".to_string()));
    assert!(!state.config().providers.calculator);
}

#[test]
fn connected_reload_refreshes_visible_query() {
    let mut state = connected_state();
    sent(state.begin_operation(PaletteOp::SetQuery("alpha".to_string())));
    finished(state.answer_operation(Ok(IpcResponse::Search { results: Vec::new() })));

    assert_eq!(sent(state.begin_operation(PaletteOp::ReloadConfig)), IpcRequest::ReloadConfig);
    let config = Config::default();
    let next = sent(state.answer_operation(Ok(IpcResponse::Reloaded {
        providers: vec!["apps".to_string()],
        provider_config: config.providers,
        config,
        clipboard_capture_enabled: false,
    })));
    assert_eq!(next, IpcRequest::Status);
    let next = sent(state.answer_operation(Ok(status_response(1, "global hotkey disabled"))));
    assert_eq!(next, IpcRequest::Search { query: "alpha".to_string(), limit: None });
    let answer = finished(state.answer_operation(Ok(IpcResponse::Search {
        results: vec![ranked("a", "Alpha", Action::Noop { message: "a".to_string() })],
    })));

    assert_eq!(answer, PaletteAnswer::Done);
    assert_eq!(state.results()[0].result.title, "Alpha");
    assert_eq!(state.status(), &PaletteStatus::Info("Config reloaded".to_string()));
}

#[test]
fn connected_execution_goes_through_the_daemon() {
    let mut state = connected_state();
    sent(state.begin_operation(PaletteOp::SetQuery("note".to_string())));
    let launch = Action::LaunchApp { command: "notepad.exe".to_string(), args: Vec::new() };
    finished(state.answer_operation(Ok(IpcResponse::Search { results: vec![ranked("notepad", "Notepad", launch)] })));

    match sent(state.begin_operation(PaletteOp::ExecuteSelected)) {
        IpcRequest::ExecuteResult { result, allow_shell } => {
            assert_eq!(result.title, "Notepad");
            assert!(!allow_shell);
        }
        other => panic!("expected an execution request, got {other:?}"),
    }
    let next = sent(state.answer_operation(Ok(IpcResponse::Executed {
        provider: "test".to_string(),
        title: "Notepad".to_string(),
        message: "launched notepad.exe".to_string(),
    })));
    assert_eq!(next, IpcRequest::Status);
    let answer = finished(state.answer_operation(Ok(status_response(0, "global hotkey disabled"))));

    assert_eq!(answer, PaletteAnswer::Execution(PaletteExecution::Completed { hide_palette: true }));
    assert_eq!(state.status(), &PaletteStatus::Info("launched notepad.exe".to_string()));
}

#[test]
fn connected_shell_command_still_needs_confirmation() {
    let mut state = connected_state();
    sent(state.begin_operation(PaletteOp::SetQuery("> echo hello".to_string())));
    let shell = Action::RunShell { command: "echo hello".to_string() };
    finished(state.answer_operation(Ok(IpcResponse::Search { results: vec![ranked("shell", "echo hello", shell)] })));

    let answer = finished(state.begin_operation(PaletteOp::ExecuteSelected));
    assert_eq!(
        answer,
        PaletteAnswer::Execution(PaletteExecution::NeedsShellConfirmation { command: "echo hello".to_string() })
    );

    match sent(state.begin_operation(PaletteOp::ExecuteConfirmedShell)) {
        IpcRequest::ExecuteResult { allow_shell, .. } => assert!(allow_shell),
        other => panic!("expected a confirmed execution request, got {other:?}"),
    }
    let answer = finished(state.answer_operation(Err(IpcFailure::Transport("reset by peer".to_string()))));

    assert_eq!(answer, PaletteAnswer::Execution(PaletteExecution::Failed));
    assert_eq!(
        state.status(),
        &PaletteStatus::Error("daemon IPC execution failed: reset by peer".to_string())
    );
    assert!(state.ipc_endpoint().is_none());
}

#[test]
fn reply_outcome_separates_responses_from_errors() {
    assert_eq!(ipc_reply_outcome(IpcReply::ok(IpcResponse::ShuttingDown)), Ok(IpcResponse::ShuttingDown));
    assert_eq!(
        ipc_reply_outcome(IpcReply::error("invalid IPC token".to_string())),
        Err(IpcFailure::Daemon("invalid IPC token".to_string()))
    );
    assert_eq!(
        ipc_reply_outcome(IpcReply { ok: false, response: None, error: None }),
        Err(IpcFailure::Daemon("daemon rejected request without a message".to_string()))
    );
    assert_eq!(
        ipc_reply_outcome(IpcReply { ok: true, response: None, error: None }),
        Err(IpcFailure::Daemon("daemon returned an empty successful response".to_string()))
    );
}

#[test]
fn connecting_needs_a_status_response() {
    let mut state = PaletteState::from_daemon(daemon());

    assert!(!state.connect_ipc(endpoint(), Err(IpcFailure::Transport("refused".to_string()))));
    assert!(state.ipc_endpoint().is_none());

    assert!(state.connect_ipc(endpoint(), Ok(status_response(2, "Ctrl+Space"))));
    assert_eq!(state.ipc_endpoint().map(|e| e.address.clone()), Some("127.0.0.1:45123".to_string()));
    assert_eq!(state.clipboard_history_len(), 2);
}

#[test]
fn daemon_start_failures_are_remembered() {
    let mut state = PaletteState::from_daemon(daemon());
    state.apply_daemon_start(Err(DaemonStartFailure::ExecutableNotFound));
    assert_eq!(state.daemon_connection_summary(), "in-process palette state (daemon executable not found)");

    state.apply_daemon_start(Ok((endpoint(), Err(IpcFailure::Daemon("invalid IPC token".to_string())))));
    assert_eq!(
        state.daemon_connection_summary(),
        "in-process palette state (daemon status failed: invalid IPC token)"
    );
    assert!(state.ipc_endpoint().is_none());

    state.apply_daemon_start(Ok((endpoint(), Ok(status_response(0, "global hotkey disabled")))));
    assert_eq!(state.daemon_connection_summary(), "daemon IPC at 127.0.0.1:45123");
}
