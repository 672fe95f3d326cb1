//! The daemon's request protocol: requests, responses, replies, and the
//! handler that answers one request against the daemon state.
//!
//! The handler decides; outside work (running a launched program or a shell
//! command, writing or reading the configuration file) is handed back as an
//! [`IpcStep`] and finished by the matching `finish_*` function.

use vstd::prelude::*;

use crate::config::{Config, ConfigView, ProviderConfig};
use crate::daemon::{
    apply_clipboard_config_spec, result_blocked_spec, config_write_target_spec, daemon_error_text,
    daemon_execute_spec, daemon_search_spec, ids_of_providers, opt_report_view, opt_seq_view,
    record_clipboard_spec, record_recent_spec, ActionExecutionPolicy, ClipboardRecordOutcome,
    ConfigSourceView, DaemonError, DaemonState,
};
use crate::hotkey::hotkey_summary_spec;
use crate::plugin_api::{
    effect_error_text, effect_result_spec, primary_action_spec, report_fits, ActionEffect,
    EffectReport, ExecutionStep, SearchResult, SearchResultView, StepView,
};
use crate::providers::app::{AppIndexReport, AppIndexReportView, AppSources};
use crate::ranking::{ranked_view, RankedResult, RankedView};
use crate::text::{append_str, concat2, lit, nat_digits, push_char, usize_to_decimal};

verus! {

/// Where a running daemon listens, and the token a client must send.
#[derive(Debug, PartialEq, Eq)]
pub struct IpcEndpoint {
    pub address: String,
    pub token: String,
    pub pid: u32,
}

/// A request together with the token that authorises it.
#[derive(Debug, PartialEq, Eq)]
pub struct IpcEnvelope {
    pub token: String,
    pub request: IpcRequest,
}

/// What a client can ask the daemon.
#[derive(Debug, PartialEq, Eq)]
pub enum IpcRequest {
    Status,
    Search { query: String, limit: Option<usize> },
    Execute { query: String, limit: Option<usize>, allow_shell: bool },
    ExecuteResult { result: SearchResult, allow_shell: bool },
    RecordClipboardText { text: String },
    ClearClipboardHistory,
    SetProviderEnabled { provider_id: String, enabled: bool },
    SetClipboardCapture { enabled: bool },
    RefreshAppIndex,
    ReloadConfig,
    Shutdown,
}

pub enum IpcRequestView {
    Status,
    Search { query: Seq<char>, limit: Option<usize> },
    Execute { query: Seq<char>, limit: Option<usize>, allow_shell: bool },
    ExecuteResult { result: SearchResultView, allow_shell: bool },
    RecordClipboardText { text: Seq<char> },
    ClearClipboardHistory,
    SetProviderEnabled { provider_id: Seq<char>, enabled: bool },
    SetClipboardCapture { enabled: bool },
    RefreshAppIndex,
    ReloadConfig,
    Shutdown,
}

impl View for IpcRequest {
    type V = IpcRequestView;

    open spec fn view(&self) -> IpcRequestView {
        match self {
            IpcRequest::Status => IpcRequestView::Status,
            IpcRequest::Search { query, limit } => IpcRequestView::Search { query: query@, limit: *limit },
            IpcRequest::Execute { query, limit, allow_shell } => IpcRequestView::Execute { query: query@, limit: *limit, allow_shell: *allow_shell },
            IpcRequest::ExecuteResult { result, allow_shell } => IpcRequestView::ExecuteResult { result: result@, allow_shell: *allow_shell },
            IpcRequest::RecordClipboardText { text } => IpcRequestView::RecordClipboardText { text: text@ },
            IpcRequest::ClearClipboardHistory => IpcRequestView::ClearClipboardHistory,
            IpcRequest::SetProviderEnabled { provider_id, enabled } => IpcRequestView::SetProviderEnabled { provider_id: provider_id@, enabled: *enabled },
            IpcRequest::SetClipboardCapture { enabled } => IpcRequestView::SetClipboardCapture { enabled: *enabled },
            IpcRequest::RefreshAppIndex => IpcRequestView::RefreshAppIndex,
            IpcRequest::ReloadConfig => IpcRequestView::ReloadConfig,
            IpcRequest::Shutdown => IpcRequestView::Shutdown,
        }
    }
}

/// What the daemon answers.
#[derive(Debug, PartialEq, Eq)]
pub enum IpcResponse {
    Status {
        providers: Vec<String>,
        config: Config,
        provider_config: ProviderConfig,
        clipboard_capture_enabled: bool,
        clipboard_history_len: usize,
        recent_result_count: usize,
        hotkey: String,
        local_state_path: Option<String>,
    },
    Search { results: Vec<RankedResult> },
    Executed { provider: String, title: String, message: String },
    ClipboardRecorded { outcome: ClipboardRecordOutcome, message: String },
    ClipboardCleared { removed: usize },
    ConfigUpdated {
        providers: Vec<String>,
        config: Config,
        provider_config: ProviderConfig,
        clipboard_capture_enabled: bool,
    },
    AppIndexRefreshed { report: Option<AppIndexReport> },
    Reloaded {
        providers: Vec<String>,
        config: Config,
        provider_config: ProviderConfig,
        clipboard_capture_enabled: bool,
    },
    ShuttingDown,
}

pub enum IpcResponseView {
    Status {
        providers: Seq<Seq<char>>,
        config: ConfigView,
        provider_config: ProviderConfig,
        clipboard_capture_enabled: bool,
        clipboard_history_len: usize,
        recent_result_count: usize,
        hotkey: Seq<char>,
        local_state_path: Option<Seq<char>>,
    },
    Search { results: Seq<RankedView> },
    Executed { provider: Seq<char>, title: Seq<char>, message: Seq<char> },
    ClipboardRecorded { outcome: ClipboardRecordOutcome, message: Seq<char> },
    ClipboardCleared { removed: usize },
    ConfigUpdated { providers: Seq<Seq<char>>, config: ConfigView, provider_config: ProviderConfig, clipboard_capture_enabled: bool },
    AppIndexRefreshed { report: Option<AppIndexReportView> },
    Reloaded { providers: Seq<Seq<char>>, config: ConfigView, provider_config: ProviderConfig, clipboard_capture_enabled: bool },
    ShuttingDown,
}

impl View for IpcResponse {
    type V = IpcResponseView;

    open spec fn view(&self) -> IpcResponseView {
        match self {
            IpcResponse::Status { providers, config, provider_config, clipboard_capture_enabled, clipboard_history_len, recent_result_count, hotkey, local_state_path } => IpcResponseView::Status {
                providers: providers.deep_view(),
                config: config@,
                provider_config: *provider_config,
                clipboard_capture_enabled: *clipboard_capture_enabled,
                clipboard_history_len: *clipboard_history_len,
                recent_result_count: *recent_result_count,
                hotkey: hotkey@,
                local_state_path: opt_seq_view(*local_state_path),
            },
            IpcResponse::Search { results } => IpcResponseView::Search { results: ranked_view(results@) },
            IpcResponse::Executed { provider, title, message } => IpcResponseView::Executed { provider: provider@, title: title@, message: message@ },
            IpcResponse::ClipboardRecorded { outcome, message } => IpcResponseView::ClipboardRecorded { outcome: *outcome, message: message@ },
            IpcResponse::ClipboardCleared { removed } => IpcResponseView::ClipboardCleared { removed: *removed },
            IpcResponse::ConfigUpdated { providers, config, provider_config, clipboard_capture_enabled } => IpcResponseView::ConfigUpdated {
                providers: providers.deep_view(),
                config: config@,
                provider_config: *provider_config,
                clipboard_capture_enabled: *clipboard_capture_enabled,
            },
            IpcResponse::AppIndexRefreshed { report } => IpcResponseView::AppIndexRefreshed { report: opt_report_view(*report) },
            IpcResponse::Reloaded { providers, config, provider_config, clipboard_capture_enabled } => IpcResponseView::Reloaded {
                providers: providers.deep_view(),
                config: config@,
                provider_config: *provider_config,
                clipboard_capture_enabled: *clipboard_capture_enabled,
            },
            IpcResponse::ShuttingDown => IpcResponseView::ShuttingDown,
        }
    }
}

/// One reply line: a response, or an error text.
#[derive(Debug, PartialEq, Eq)]
pub struct IpcReply {
    pub ok: bool,
    pub response: Option<IpcResponse>,
    pub error: Option<String>,
}

impl IpcReply {
    pub fn ok(response: IpcResponse) -> (r: Self)
        ensures
            r.ok,
            r.response == Some(response),
            r.error is None,
    {
        IpcReply { ok: true, response: Some(response), error: None }
    }

    pub fn error(error: String) -> (r: Self)
        ensures
            !r.ok,
            r.response is None,
            r.error == Some(error),
    {
        IpcReply { ok: false, response: None, error: Some(error) }
    }
}

/// What handling a request amounts to: an answer, or outside work that a
/// `finish_*` function completes.
#[derive(Debug)]
pub enum IpcStep {
    /// The answer.
    Respond(Result<IpcResponse, DaemonError>),
    /// Perform `effect` for the selected `result`, then call
    /// [`finish_ipc_execution`].
    Perform { result: SearchResult, effect: ActionEffect },
    /// Write `config` to `path`, then call [`finish_config_update`].
    WriteConfig { config: Config, path: String },
    /// Read the configuration again from the state's source, then call
    /// [`finish_reload`].
    ReloadConfig,
    /// Scan the platform's apps again, then call
    /// [`finish_app_index_refresh`].
    RescanApps,
}

pub open spec fn answer_view(r: Result<IpcResponse, DaemonError>) -> Result<IpcResponseView, DaemonError> {
    match r {
        Ok(x) => Ok(x@),
        Err(e) => Err(e),
    }
}

/// The text sent back after a clipboard record; it never repeats the text.
pub open spec fn clipboard_record_message_spec(outcome: ClipboardRecordOutcome) -> Seq<char> {
    match outcome {
        ClipboardRecordOutcome::Stored => "Stored current clipboard text"@,
        ClipboardRecordOutcome::CaptureDisabled => "Clipboard capture is disabled in config"@,
        ClipboardRecordOutcome::ProviderDisabled => "Clipboard provider is disabled in config"@,
        ClipboardRecordOutcome::RetentionDisabled => "Clipboard retention is disabled in config"@,
        ClipboardRecordOutcome::IgnoredEmpty => "Clipboard text is empty"@,
        ClipboardRecordOutcome::IgnoredTooLarge { byte_count, max_bytes } => "Clipboard text is too large: "@ + nat_digits(byte_count as nat) + " bytes exceeds "@ + nat_digits(max_bytes as nat),
    }
}

/// The text sent back after a clipboard record.
pub fn clipboard_record_message(outcome: &ClipboardRecordOutcome) -> (s: String)
    ensures
        s@ == clipboard_record_message_spec(*outcome),
{
    match outcome {
        ClipboardRecordOutcome::Stored => lit("Stored current clipboard text"),
        ClipboardRecordOutcome::CaptureDisabled => lit("Clipboard capture is disabled in config"),
        ClipboardRecordOutcome::ProviderDisabled => lit("Clipboard provider is disabled in config"),
        ClipboardRecordOutcome::RetentionDisabled => lit("Clipboard retention is disabled in config"),
        ClipboardRecordOutcome::IgnoredEmpty => lit("Clipboard text is empty"),
        ClipboardRecordOutcome::IgnoredTooLarge { byte_count, max_bytes } => {
            let b = usize_to_decimal(*byte_count);
            let m = usize_to_decimal(*max_bytes);
            let mut s = concat2("Clipboard text is too large: ", b.as_str());
            append_str(&mut s, " bytes exceeds ");
            append_str(&mut s, m.as_str());
            s
        },
    }
}

/// The status a well-formed state reports.
pub open spec fn status_view(s: &DaemonState) -> IpcResponseView {
    IpcResponseView::Status {
        providers: ids_of_providers(s.providers()),
        config: s.config_view(),
        provider_config: s.config_view().providers,
        clipboard_capture_enabled: s.config_view().providers.clipboard && s.config_view().clipboard.capture,
        clipboard_history_len: s.history().len() as usize,
        recent_result_count: s.recent().len() as usize,
        hotkey: hotkey_summary_spec(s.hotkey()),
        local_state_path: s.state_path(),
    }
}

/// The answer to a configuration change.
pub open spec fn config_updated_view(s: &DaemonState) -> IpcResponseView {
    IpcResponseView::ConfigUpdated {
        providers: ids_of_providers(s.providers()),
        config: s.config_view(),
        provider_config: s.config_view().providers,
        clipboard_capture_enabled: s.config_view().providers.clipboard && s.config_view().clipboard.capture,
    }
}

/// The answer to a reload.
pub open spec fn reloaded_view(s: &DaemonState) -> IpcResponseView {
    IpcResponseView::Reloaded {
        providers: ids_of_providers(s.providers()),
        config: s.config_view(),
        provider_config: s.config_view().providers,
        clipboard_capture_enabled: s.config_view().providers.clipboard && s.config_view().clipboard.capture,
    }
}

/// The configuration a provider toggle asks for, or `None` for an unknown
/// provider.
pub open spec fn toggled_config(c: ConfigView, provider_id: Seq<char>, enabled: bool) -> Option<ConfigView> {
    if provider_id == "apps"@ {
        Some(ConfigView { providers: ProviderConfig { apps: enabled, ..c.providers }, ..c })
    } else if provider_id == "calculator"@ {
        Some(ConfigView { providers: ProviderConfig { calculator: enabled, ..c.providers }, ..c })
    } else if provider_id == "shell"@ {
        Some(ConfigView { providers: ProviderConfig { shell: enabled, ..c.providers }, ..c })
    } else if provider_id == "clipboard"@ {
        Some(ConfigView { providers: ProviderConfig { clipboard: enabled, ..c.providers }, ..c })
    } else {
        None
    }
}

fn status_response(state: &DaemonState) -> (r: IpcResponse)
    requires
        state.wf(),
    ensures
        r@ == status_view(state),
{
    IpcResponse::Status {
        providers: state.provider_ids(),
        config: state.config().clone(),
        provider_config: state.config().providers,
        clipboard_capture_enabled: state.clipboard_capture_enabled(),
        clipboard_history_len: state.clipboard_history_len(),
        recent_result_count: state.recent_result_count(),
        hotkey: state.hotkey_state().summary(),
        local_state_path: state.local_state_path(),
    }
}

/// The answer after a configuration change.
pub fn config_updated_response(state: &DaemonState) -> (r: IpcResponse)
    requires
        state.wf(),
    ensures
        r@ == config_updated_view(state),
{
    IpcResponse::ConfigUpdated {
        providers: state.provider_ids(),
        config: state.config().clone(),
        provider_config: state.config().providers,
        clipboard_capture_enabled: state.clipboard_capture_enabled(),
    }
}

fn reloaded_response(state: &DaemonState) -> (r: IpcResponse)
    requires
        state.wf(),
    ensures
        r@ == reloaded_view(state),
{
    IpcResponse::Reloaded {
        providers: state.provider_ids(),
        config: state.config().clone(),
        provider_config: state.config().providers,
        clipboard_capture_enabled: state.clipboard_capture_enabled(),
    }
}

fn policy_for(allow_shell: bool) -> (p: ActionExecutionPolicy)
    ensures
        p == (if allow_shell { ActionExecutionPolicy::AllowShellCommands } else { ActionExecutionPolicy::BlockShellCommands }),
{
    if allow_shell {
        ActionExecutionPolicy::AllowShellCommands
    } else {
        ActionExecutionPolicy::BlockShellCommands
    }
}

/// Execute one selected result: an action that completes at once is
/// answered with its outcome, one that needs outside work is handed back.
fn execute_selected(state: &mut DaemonState, result: SearchResult, allow_shell: bool) -> (r: IpcStep)
    requires
        old(state).wf(),
    ensures
        crate::daemon::recent_step(old(state).recent(), final(state).recent()),
        final(state).wf(),
        crate::daemon::same_but_recent(&*final(state), &*old(state)),
        execute_fits(r, &*old(state), &*final(state), result@, allow_shell),
{
    let policy = policy_for(allow_shell);
    match state.execute_result(&result, policy) {
        Err(e) => IpcStep::Respond(Err(e)),
        Ok(ExecutionStep::Done(outcome)) => IpcStep::Respond(Ok(IpcResponse::Executed {
            provider: result.provider.id.clone(),
            title: result.title.clone(),
            message: outcome.message,
        })),
        Ok(ExecutionStep::Perform(effect)) => IpcStep::Perform { result, effect },
    }
}

/// How executing a selected result is answered: a blocked shell command is
/// refused, an action that completes at once is answered with its outcome and
/// remembered, and one that needs outside work is handed back.
pub open spec fn execute_fits(r: IpcStep, old_state: &DaemonState, new_state: &DaemonState, result: SearchResultView, allow_shell: bool) -> bool {
    &&& crate::daemon::same_but_recent(new_state, old_state)
    &&& result_blocked_spec(result, policy_spec(allow_shell)) ==> {
        &&& r matches IpcStep::Respond(Err(DaemonError::ShellCommandBlocked))
        &&& new_state.recent() == old_state.recent()
    }
    &&& !result_blocked_spec(result, policy_spec(allow_shell)) ==> match (r, daemon_execute_spec(old_state.config_view(), old_state.app_sources(), old_state.history(), result)) {
        (IpcStep::Respond(Ok(resp)), Ok(StepView::Done(m))) => {
            &&& resp@ == (IpcResponseView::Executed { provider: result.provider, title: result.title, message: m })
            &&& new_state.recent() == record_recent_spec(old_state.recent(), result)
        },
        (IpcStep::Perform { result: res, effect }, Ok(StepView::Perform(e))) => {
            &&& res@ == result
            &&& effect@ == e
            &&& new_state.recent() == old_state.recent()
        },
        (IpcStep::Respond(Err(DaemonError::Core(e))), Err(se)) => e@ == se && new_state.recent() == old_state.recent(),
        _ => false,
    }
}

pub open spec fn policy_spec(allow_shell: bool) -> ActionExecutionPolicy {
    if allow_shell { ActionExecutionPolicy::AllowShellCommands } else { ActionExecutionPolicy::BlockShellCommands }
}

/// Answer one request against the daemon state. `default_config_path` is the
/// default configuration location, used when a configuration loaded from
/// there is changed.
#[verifier::spinoff_prover]
#[verifier::rlimit(50)]
pub fn handle_ipc_request(state: &mut DaemonState, request: IpcRequest, default_config_path: Option<String>) -> (r: IpcStep)
    requires
        old(state).wf(),
    ensures
        crate::daemon::recent_step(old(state).recent(), final(state).recent()),
        final(state).wf(),
        match request {
            IpcRequest::Status => r matches IpcStep::Respond(Ok(resp)) && resp@ == status_view(&*old(state))
                && crate::daemon::same_state(&*final(state), &*old(state)),
            IpcRequest::Search { query, limit } => crate::daemon::same_state(&*final(state), &*old(state))
                && match (r, daemon_search_spec(old(state).config_view(), old(state).app_sources(), old(state).history(), old(state).recent(), query@, limit)) {
                    (IpcStep::Respond(Ok(IpcResponse::Search { results })), Ok(sv)) => ranked_view(results@) == sv,
                    (IpcStep::Respond(Err(DaemonError::Core(e))), Err(se)) => e@ == se,
                    _ => false,
                },
            IpcRequest::Execute { query, limit, allow_shell } => match daemon_search_spec(old(state).config_view(), old(state).app_sources(), old(state).history(), old(state).recent(), query@, limit) {
                Err(se) => r matches IpcStep::Respond(Err(DaemonError::Core(e))) && e@ == se,
                Ok(sv) => if sv.len() == 0 {
                    &&& r matches IpcStep::Respond(Ok(resp))
                    &&& resp@ == (IpcResponseView::Executed { provider: Seq::empty(), title: Seq::empty(), message: "Nothing to run"@ })
                    &&& crate::daemon::same_state(&*final(state), &*old(state))
                } else {
                    execute_fits(r, &*old(state), &*final(state), sv[0].result, allow_shell)
                },
            },
            IpcRequest::ExecuteResult { result, allow_shell } => execute_fits(r, &*old(state), &*final(state), result@, allow_shell),
            IpcRequest::RecordClipboardText { text } => {
                let (outcome, h) = record_clipboard_spec(old(state).config_view(), old(state).history(), text@);
                &&& r matches IpcStep::Respond(Ok(resp))
                &&& resp@ == (IpcResponseView::ClipboardRecorded { outcome, message: clipboard_record_message_spec(outcome) })
                &&& final(state).history() == h
                &&& final(state).config_view() == old(state).config_view()
                &&& final(state).recent() == old(state).recent()
            },
            IpcRequest::ClearClipboardHistory => {
                &&& r matches IpcStep::Respond(Ok(resp))
                &&& resp@ == (IpcResponseView::ClipboardCleared { removed: old(state).history().len() as usize })
                &&& final(state).history() == Seq::<Seq<char>>::empty()
                &&& final(state).config_view() == old(state).config_view()
            },
            IpcRequest::SetProviderEnabled { provider_id, enabled } => match toggled_config(old(state).config_view(), provider_id@, enabled) {
                None => r matches IpcStep::Respond(Err(DaemonError::UnknownProvider(p))) && p@ == provider_id@
                    && crate::daemon::same_state(&*final(state), &*old(state)),
                Some(c) => config_change_fits(r, &*old(state), &*final(state), c, opt_seq_view(default_config_path)),
            },
            IpcRequest::SetClipboardCapture { enabled } => {
                let c = ConfigView {
                    clipboard: crate::config::ClipboardConfig { capture: enabled, ..old(state).config_view().clipboard },
                    ..old(state).config_view()
                };
                config_change_fits(r, &*old(state), &*final(state), c, opt_seq_view(default_config_path))
            },
            IpcRequest::RefreshAppIndex => r is RescanApps && crate::daemon::same_state(&*final(state), &*old(state)),
            IpcRequest::ReloadConfig => match old(state).source() {
                ConfigSourceView::Provided => reload_fits(r, &*old(state), &*final(state), old(state).config_view()),
                _ => r is ReloadConfig && crate::daemon::same_state(&*final(state), &*old(state)),
            },
            IpcRequest::Shutdown => r matches IpcStep::Respond(Ok(IpcResponse::ShuttingDown))
                && crate::daemon::same_state(&*final(state), &*old(state)),
        },
{
    match request {
        IpcRequest::Status => IpcStep::Respond(Ok(status_response(state))),
        IpcRequest::Search { query, limit } => match state.search(query.as_str(), limit) {
            Ok(results) => IpcStep::Respond(Ok(IpcResponse::Search { results })),
            Err(e) => IpcStep::Respond(Err(e)),
        },
        IpcRequest::Execute { query, limit, allow_shell } => {
            let results = match state.search(query.as_str(), limit) {
                Ok(v) => v,
                Err(e) => return IpcStep::Respond(Err(e)),
            };
            if results.len() == 0 {
                return IpcStep::Respond(Ok(IpcResponse::Executed {
                    provider: String::new(),
                    title: String::new(),
                    message: lit("Nothing to run"),
                }));
            }
            let first = results[0].result.clone();
            execute_selected(state, first, allow_shell)
        },
        IpcRequest::ExecuteResult { result, allow_shell } => execute_selected(state, result, allow_shell),
        IpcRequest::RecordClipboardText { text } => {
            let outcome = match state.record_clipboard_text(text.as_str()) {
                Ok(o) => o,
                Err(e) => return IpcStep::Respond(Err(e)),
            };
            let message = clipboard_record_message(&outcome);
            IpcStep::Respond(Ok(IpcResponse::ClipboardRecorded { outcome, message }))
        },
        IpcRequest::ClearClipboardHistory => match state.clear_clipboard_history() {
            Ok(removed) => IpcStep::Respond(Ok(IpcResponse::ClipboardCleared { removed })),
            Err(e) => IpcStep::Respond(Err(e)),
        },
        IpcRequest::SetProviderEnabled { provider_id, enabled } => {
            let mut config = state.config().clone();
            proof {
                reveal_strlit("apps");
                reveal_strlit("calculator");
                reveal_strlit("shell");
                reveal_strlit("clipboard");
            }
            if provider_id == lit("apps") {
                config.providers.apps = enabled;
            } else if provider_id == lit("calculator") {
                config.providers.calculator = enabled;
            } else if provider_id == lit("shell") {
                config.providers.shell = enabled;
            } else if provider_id == lit("clipboard") {
                config.providers.clipboard = enabled;
            } else {
                return IpcStep::Respond(Err(DaemonError::UnknownProvider(provider_id)));
            }
            change_config(state, config, default_config_path)
        },
        IpcRequest::SetClipboardCapture { enabled } => {
            let mut config = state.config().clone();
            config.clipboard.capture = enabled;
            change_config(state, config, default_config_path)
        },
        IpcRequest::RefreshAppIndex => IpcStep::RescanApps,
        IpcRequest::ReloadConfig => match state.config_source() {
            crate::daemon::ConfigSource::Provided => {
                let config = state.config().clone();
                IpcStep::Respond(finish_reload(state, config))
            },
            _ => IpcStep::ReloadConfig,
        },
        IpcRequest::Shutdown => IpcStep::Respond(Ok(IpcResponse::ShuttingDown)),
    }
}

/// How a configuration change is answered: written first where the
/// configuration has a file, applied at once where it was given in memory.
pub open spec fn config_change_fits(r: IpcStep, old_state: &DaemonState, new_state: &DaemonState, c: ConfigView, default_path: Option<Seq<char>>) -> bool {
    match config_write_target_spec(old_state.source(), default_path) {
        Some(p) => r matches IpcStep::WriteConfig { config, path } && config@ == c && path@ == p
            && crate::daemon::same_state(new_state, old_state),
        None => match (r, crate::hotkey::hotkey_state_spec(c.hotkey, old_state.platform())) {
            (IpcStep::Respond(Ok(resp)), Ok(_)) => resp@ == config_updated_view(new_state)
                && new_state.config_view() == c
                && new_state.history() == apply_clipboard_config_spec(old_state.history(), c),
            (IpcStep::Respond(Err(DaemonError::Hotkey(e))), Err(he)) => e@ == he,
            _ => false,
        },
    }
}

/// How a reload with `c` is answered.
pub open spec fn reload_fits(r: IpcStep, old_state: &DaemonState, new_state: &DaemonState, c: ConfigView) -> bool {
    match (r, crate::hotkey::hotkey_state_spec(c.hotkey, old_state.platform())) {
        (IpcStep::Respond(Ok(resp)), Ok(_)) => resp@ == reloaded_view(new_state)
            && new_state.config_view() == c
            && new_state.history() == apply_clipboard_config_spec(old_state.history(), c),
        (IpcStep::Respond(Err(DaemonError::Hotkey(e))), Err(he)) => e@ == he,
        _ => false,
    }
}

fn change_config(state: &mut DaemonState, config: Config, default_config_path: Option<String>) -> (r: IpcStep)
    requires
        old(state).wf(),
    ensures
        crate::daemon::recent_step(old(state).recent(), final(state).recent()),
        final(state).wf(),
        config_change_fits(r, &*old(state), &*final(state), config@, opt_seq_view(default_config_path)),
{
    match state.config_write_target(default_config_path) {
        Some(path) => IpcStep::WriteConfig { config, path },
        None => IpcStep::Respond(finish_config_update(state, config, None)),
    }
}

/// Finish a configuration change once the configuration was written to
/// `written_path` (or needed no writing).
pub fn finish_config_update(state: &mut DaemonState, config: Config, written_path: Option<String>) -> (r: Result<IpcResponse, DaemonError>)
    requires
        old(state).wf(),
    ensures
        crate::daemon::recent_step(old(state).recent(), final(state).recent()),
        final(state).wf(),
        match (r, crate::hotkey::hotkey_state_spec(config@.hotkey, old(state).platform())) {
            (Ok(resp), Ok(_)) => resp@ == config_updated_view(&*final(state))
                && final(state).config_view() == config@
                && final(state).history() == apply_clipboard_config_spec(old(state).history(), config@),
            (Err(DaemonError::Hotkey(e)), Err(he)) => e@ == he,
            _ => false,
        },
{
    match state.update_config(config, written_path) {
        Ok(()) => Ok(config_updated_response(state)),
        Err(e) => Err(e),
    }
}

/// Finish a reload with the configuration read again from the source.
pub fn finish_reload(state: &mut DaemonState, config: Config) -> (r: Result<IpcResponse, DaemonError>)
    requires
        old(state).wf(),
    ensures
        crate::daemon::recent_step(old(state).recent(), final(state).recent()),
        final(state).wf(),
        match (r, crate::hotkey::hotkey_state_spec(config@.hotkey, old(state).platform())) {
            (Ok(resp), Ok(_)) => resp@ == reloaded_view(&*final(state))
                && final(state).config_view() == config@
                && final(state).history() == apply_clipboard_config_spec(old(state).history(), config@),
            (Err(DaemonError::Hotkey(e)), Err(he)) => e@ == he,
            _ => false,
        },
{
    match state.reload_config(config) {
        Ok(()) => Ok(reloaded_response(state)),
        Err(e) => Err(e),
    }
}

/// Finish an app index refresh with what the new scan found.
pub fn finish_app_index_refresh(state: &mut DaemonState, sources: AppSources) -> (r: Result<IpcResponse, DaemonError>)
    requires
        old(state).wf(),
    ensures
        crate::daemon::recent_step(old(state).recent(), final(state).recent()),
        final(state).wf(),
        final(state).app_sources() == sources@,
        final(state).config_view() == old(state).config_view(),
        final(state).history() == old(state).history(),
        final(state).recent() == old(state).recent(),
        r matches Ok(resp) && resp@ == (IpcResponseView::AppIndexRefreshed {
            report: crate::daemon::runtime_report_spec(old(state).config_view(), sources@),
        }),
{
    match state.refresh_app_index(sources) {
        Ok(report) => Ok(IpcResponse::AppIndexRefreshed { report }),
        Err(e) => Err(e),
    }
}

/// Finish an execution once its outside work was performed.
pub fn finish_ipc_execution(state: &mut DaemonState, result: &SearchResult, effect: &ActionEffect, report: &EffectReport) -> (r: Result<IpcResponse, DaemonError>)
    requires
        old(state).wf(),
        report_fits(*effect, *report),
    ensures
        crate::daemon::recent_step(old(state).recent(), final(state).recent()),
        final(state).wf(),
        match (r, effect_result_spec(*effect, *report)) {
            (Ok(resp), Ok(t)) => resp@ == (IpcResponseView::Executed { provider: result@.provider, title: result@.title, message: t })
                && final(state).recent() == record_recent_spec(old(state).recent(), result@),
            (Err(DaemonError::Core(crate::registry::CoreError::ProviderFailed { provider, source: crate::plugin_api::PluginError::Action(m) })), Err(_)) => {
                &&& provider@ == result@.provider
                &&& m@ == effect_error_text(*effect, *report)
                &&& final(state).recent() == old(state).recent()
            },
            _ => false,
        },
{
    match state.complete_execution(result, effect, report) {
        Ok(outcome) => Ok(IpcResponse::Executed {
            provider: result.provider.id.clone(),
            title: result.title.clone(),
            message: outcome.message,
        }),
        Err(e) => Err(e),
    }
}

/// Whether the daemon stops after answering a request.
pub fn is_shutdown(request: &IpcRequest) -> (b: bool)
    ensures
        b == (*request is Shutdown),
{
    match request {
        IpcRequest::Shutdown => true,
        _ => false,
    }
}

/// How an authenticated line is answered: a request with the wrong token is
/// refused, and a refused or failed request never echoes its contents.
pub fn check_token(envelope_token: &str, token: &str) -> (r: Result<(), IpcReply>)
    ensures
        envelope_token@ == token@ ==> r is Ok,
        envelope_token@ != token@ ==> (r matches Err(reply) && !reply.ok && reply.response is None
            && opt_seq_view(reply.error) == Some("invalid daemon IPC token"@)),
{
    if lit(envelope_token) == lit(token) {
        Ok(())
    } else {
        Err(IpcReply::error(lit("invalid daemon IPC token")))
    }
}

/// The reply to an unreadable request line; it names only the parser's
/// message.
pub fn malformed_request_reply(parse_error: &str) -> (r: IpcReply)
    ensures
        !r.ok,
        r.response is None,
        opt_seq_view(r.error) == Some("invalid daemon IPC request: "@ + parse_error@),
{
    IpcReply::error(concat2("invalid daemon IPC request: ", parse_error))
}

/// The reply to a handled request.
pub fn reply_for_answer(answer: Result<IpcResponse, DaemonError>) -> (r: IpcReply)
    ensures
        match answer {
            Ok(resp) => r.ok && r.response == Some(resp) && r.error is None,
            Err(e) => !r.ok && r.response is None && opt_seq_view(r.error) == Some(daemon_error_text(e)),
        },
{
    match answer {
        Ok(resp) => IpcReply::ok(resp),
        Err(e) => IpcReply::error(e.message()),
    }
}

pub open spec fn hex_digit_spec(v: u8) -> char {
    if v < 10 {
        ((48 + v) as u32) as char
    } else if v < 16 {
        ((97 + (v - 10)) as u32) as char
    } else {
        '0'
    }
}

/// A nibble as a lower-case hexadecimal digit.
pub fn hex_digit(value: u8) -> (c: char)
    ensures
        c == hex_digit_spec(value),
{
    if value < 10 {
        crate::text::char_from_ascii_code((48 + value) as u32)
    } else if value < 16 {
        crate::text::char_from_ascii_code((97 + (value - 10)) as u32)
    } else {
        '0'
    }
}

/// Two lower-case hexadecimal digits per byte, high nibble first.
pub open spec fn hex_encode_spec(bytes: Seq<u8>) -> Seq<char>
    decreases bytes.len(),
{
    if bytes.len() == 0 {
        Seq::empty()
    } else {
        hex_encode_spec(bytes.drop_last()).push(hex_digit_spec(bytes.last() / 16)).push(hex_digit_spec(bytes.last() % 16))
    }
}

/// The lower-case hexadecimal text of some bytes.
pub fn hex_encode(bytes: &[u8]) -> (s: String)
    ensures
        s@ == hex_encode_spec(bytes@),
        s@.len() == 2 * bytes@.len(),
{
    let mut out = String::new();
    let mut i: usize = 0;
    proof {
        assert(bytes@.take(0) =~= Seq::<u8>::empty());
    }
    while i < bytes.len()
        invariant
            i <= bytes@.len(),
            out@ == hex_encode_spec(bytes@.take(i as int)),
            out@.len() == 2 * i,
        decreases bytes@.len() - i,
    {
        let b = bytes[i];
        let hi = hex_digit(b >> 4);
        let lo = hex_digit(b & 0x0f);
        proof {
            assert(b >> 4 == b / 16) by (bit_vector);
            assert(b & 0x0f == b % 16) by (bit_vector);
            assert(bytes@.take(i + 1).drop_last() =~= bytes@.take(i as int));
        }
        push_char(&mut out, hi);
        push_char(&mut out, lo);
        i += 1;
    }
    proof {
        assert(bytes@.take(bytes@.len() as int) =~= bytes@);
    }
    out
}


/// `getrandom::Error`, carried through opaque.
#[verifier::external_type_specification]
#[verifier::external_body]
pub struct ExRandomError(getrandom::Error);

/// `getrandom::fill`: fills `dest` with bytes from the system's random
/// source, or fails. The bytes are chance; only the length is stated.
#[verifier::external_body]
fn fill_random(dest: &mut Vec<u8>) -> (r: Result<(), getrandom::Error>)
    ensures
        final(dest)@.len() == old(dest)@.len(),
{
    getrandom::fill(dest.as_mut_slice())
}

/// The display text of a `getrandom::Error`; nothing is stated of it.
#[verifier::external_body]
fn random_error_text(error: &getrandom::Error) -> String {
    error.to_string()
}

/// Why no daemon token could be made.
#[derive(Debug, PartialEq, Eq)]
pub enum IpcTokenError {
    Random(String),
}

impl IpcTokenError {
    pub fn message(&self) -> (s: String)
        ensures
            match self {
                IpcTokenError::Random(d) => s@ == "failed to generate daemon IPC token: "@ + d@,
            },
    {
        match self {
            IpcTokenError::Random(d) => concat2("failed to generate daemon IPC token: ", d.as_str()),
        }
    }
}

pub open spec fn is_lower_hex(c: char) -> bool {
    ('0' <= c && c <= '9') || ('a' <= c && c <= 'f')
}

proof fn lemma_hex_digit(v: u8)
    requires
        v < 16,
    ensures
        is_lower_hex(hex_digit_spec(v)),
{
    if v < 10 {
        assert(((48 + v) as u32) as char == ((48 + v) as u32) as char);
    }
}

proof fn lemma_hex_encode_lower(bytes: Seq<u8>)
    ensures
        forall|i: int| 0 <= i < hex_encode_spec(bytes).len() ==> is_lower_hex(#[trigger] hex_encode_spec(bytes)[i]),
        hex_encode_spec(bytes).len() == 2 * bytes.len(),
    decreases bytes.len(),
{
    if bytes.len() > 0 {
        lemma_hex_encode_lower(bytes.drop_last());
        lemma_hex_digit(bytes.last() / 16);
        lemma_hex_digit(bytes.last() % 16);
    }
}

/// The token made from what the random source gave: the bytes as
/// lower-case hexadecimal, or the source's failure text as the error.
pub fn token_from_random(random: Result<Vec<u8>, String>) -> (r: Result<String, IpcTokenError>)
    ensures
        match random {
            Ok(bytes) => r matches Ok(t) && t@ == hex_encode_spec(bytes@),
            Err(detail) => r matches Err(IpcTokenError::Random(d)) && d@ == detail@,
        },
{
    match random {
        Ok(bytes) => Ok(hex_encode(bytes.as_slice())),
        Err(detail) => Err(IpcTokenError::Random(detail)),
    }
}

/// A fresh daemon token: 32 random bytes as 64 lower-case hexadecimal
/// digits. When the random source fails, the error carries the source's own
/// description of the failure.
pub fn generate_token() -> (r: Result<String, IpcTokenError>)
    ensures
        r is Err ==> r matches Err(IpcTokenError::Random(_)),
        r matches Ok(t) ==> {
            &&& t@.len() == 64
            &&& exists|b: Seq<u8>| b.len() == 32 && t@ == #[trigger] hex_encode_spec(b)
            &&& forall|i: int| 0 <= i < t@.len() ==> is_lower_hex(#[trigger] t@[i])
        },
{
    let mut bytes: Vec<u8> = vec![0u8; 32];
    let random: Result<Vec<u8>, String> = match fill_random(&mut bytes) {
        Ok(()) => Ok(bytes),
        Err(e) => Err(random_error_text(&e)),
    };
    let ghost given = random;
    let token = token_from_random(random);
    proof {
        if given is Ok {
            lemma_hex_encode_lower(given->Ok_0@);
        }
    }
    token
}
} // verus!
