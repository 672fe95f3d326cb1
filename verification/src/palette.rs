//! The palette's visible state: query, ranked results, selection, status
//! line and the shell-confirmation step, on top of the daemon state.
//!
//! A palette either works on its own daemon state or is connected to a
//! daemon process. [`PaletteState::begin_operation`] decides which: in
//! process it hands the operation back to the method of the same name;
//! connected, it sends requests one at a time and takes each outcome with
//! [`PaletteState::answer_operation`], falling back to its own state when the
//! connection fails.

use vstd::prelude::*;

use crate::config::{Config, ConfigView};
use crate::daemon::{
    apply_clipboard_config_spec, result_blocked_spec, daemon_error_text, daemon_execute_spec,
    daemon_search_spec, ids_of_providers, opt_seq_view, record_clipboard_spec, record_recent_spec,
    ActionExecutionPolicy, ClipboardRecordOutcome, DaemonError, DaemonState,
};
use crate::hotkey::{hotkey_loop_error_text, hotkey_state_spec, hotkey_summary_spec, HotkeyLoopError, HotkeyState};
use crate::ipc::{
    clipboard_record_message, clipboard_record_message_spec, IpcEndpoint, IpcReply, IpcRequest,
    IpcRequestView, IpcResponse, IpcResponseView,
};
use crate::plugin_api::{
    effect_error_text, effect_result_spec, primary_action_spec, report_fits, Action,
    ActionEffect, ActionView, EffectReport, EffectView, ExecutionStep, SearchResult,
    SearchResultView, StepView,
};
use crate::ranking::{ranked_view, RankedResult, RankedView};
use crate::registry::core_error_text;
use crate::text::{append_str, chars_of, concat2, lit, nat_digits, trim_chars, trim_seq, usize_to_decimal};

verus! {

/// Why the hotkey bridge of the palette failed.
#[derive(Debug, PartialEq, Eq)]
pub enum UiHotkeyError {
    Hotkey(HotkeyLoopError),
}

/// Errors of the palette.
#[derive(Debug, PartialEq, Eq)]
pub enum UiError {
    Daemon(DaemonError),
    Hotkey(UiHotkeyError),
}

pub open spec fn ui_error_text(e: UiError) -> Seq<char> {
    match e {
        UiError::Daemon(d) => daemon_error_text(d),
        UiError::Hotkey(UiHotkeyError::Hotkey(h)) => hotkey_loop_error_text(h),
    }
}

impl UiError {
    /// The human-readable error text.
    pub fn message(&self) -> (s: String)
        ensures
            s@ == ui_error_text(*self),
    {
        match self {
            UiError::Daemon(d) => d.message(),
            UiError::Hotkey(UiHotkeyError::Hotkey(h)) => h.message(),
        }
    }
}

/// Moving the selection up or down.
#[derive(Debug, Clone, Copy, PartialEq, Eq, Structural)]
pub enum SelectionDirection {
    Previous,
    Next,
}

/// The status line under the query.
#[derive(Debug, PartialEq, Eq)]
pub enum PaletteStatus {
    Ready,
    Info(String),
    Error(String),
}

pub enum PaletteStatusView {
    Ready,
    Info(Seq<char>),
    Error(Seq<char>),
}

impl View for PaletteStatus {
    type V = PaletteStatusView;

    open spec fn view(&self) -> PaletteStatusView {
        match self {
            PaletteStatus::Ready => PaletteStatusView::Ready,
            PaletteStatus::Info(m) => PaletteStatusView::Info(m@),
            PaletteStatus::Error(m) => PaletteStatusView::Error(m@),
        }
    }
}

impl PaletteStatus {
    /// The status text, if any.
    pub fn message(&self) -> (r: Option<&str>)
        ensures
            match self@ {
                PaletteStatusView::Ready => r is None,
                PaletteStatusView::Info(m) => r matches Some(s) && s@ == m,
                PaletteStatusView::Error(m) => r matches Some(s) && s@ == m,
            },
    {
        match self {
            PaletteStatus::Ready => None,
            PaletteStatus::Info(m) => Some(m.as_str()),
            PaletteStatus::Error(m) => Some(m.as_str()),
        }
    }

    /// Whether the status reports an error.
    pub fn is_error(&self) -> (b: bool)
        ensures
            b == (self@ is Error),
    {
        match self {
            PaletteStatus::Error(_) => true,
            _ => false,
        }
    }
}

/// What executing the selection did.
#[derive(Debug, PartialEq, Eq)]
pub enum PaletteExecution {
    NoSelection,
    SelectedUnavailable,
    Blocked,
    NeedsShellConfirmation { command: String },
    /// The action needs outside work; perform it and report back with
    /// [`PaletteState::complete_pending_effect`].
    AwaitingEffect { effect: ActionEffect },
    Completed { hide_palette: bool },
    Failed,
}

pub enum PaletteExecutionView {
    NoSelection,
    SelectedUnavailable,
    Blocked,
    NeedsShellConfirmation { command: Seq<char> },
    AwaitingEffect { effect: EffectView },
    Completed { hide_palette: bool },
    Failed,
}

impl View for PaletteExecution {
    type V = PaletteExecutionView;

    open spec fn view(&self) -> PaletteExecutionView {
        match self {
            PaletteExecution::NoSelection => PaletteExecutionView::NoSelection,
            PaletteExecution::SelectedUnavailable => PaletteExecutionView::SelectedUnavailable,
            PaletteExecution::Blocked => PaletteExecutionView::Blocked,
            PaletteExecution::NeedsShellConfirmation { command } => PaletteExecutionView::NeedsShellConfirmation { command: command@ },
            PaletteExecution::AwaitingEffect { effect } => PaletteExecutionView::AwaitingEffect { effect: effect@ },
            PaletteExecution::Completed { hide_palette } => PaletteExecutionView::Completed { hide_palette: *hide_palette },
            PaletteExecution::Failed => PaletteExecutionView::Failed,
        }
    }
}

impl PaletteExecution {
    /// Whether the palette hides after this execution.
    pub fn should_hide_palette(&self) -> (b: bool)
        ensures
            b == (self@ == PaletteExecutionView::Completed { hide_palette: true }),
    {
        match self {
            PaletteExecution::Completed { hide_palette } => *hide_palette,
            _ => false,
        }
    }
}

/// Launching an app or opening a path hides the palette once it succeeded.
pub open spec fn hides_palette_spec(action: ActionView) -> bool {
    action is LaunchApp || action is OpenPath
}

pub fn action_hides_palette_after_success(action: &Action) -> (b: bool)
    ensures
        b == hides_palette_spec(action@),
{
    match action {
        Action::LaunchApp { .. } => true,
        Action::OpenPath { .. } => true,
        _ => false,
    }
}

/// A shell command waiting for the user's confirmation.
pub struct PendingShellConfirmation {
    pub result_id: String,
    pub command: String,
}

/// An action whose outside work is being performed.
pub struct PendingEffect {
    pub result: SearchResult,
    pub effect: ActionEffect,
    pub hide_palette: bool,
}

/// What refreshing the results for `query` shows: nothing for a blank query,
/// otherwise the daemon's results with the first selected, or the error.
pub open spec fn refresh_spec(d: &DaemonState, query: Seq<char>) -> (Seq<RankedView>, Option<usize>, PaletteStatusView) {
    if trim_seq(query).len() == 0 {
        (Seq::empty(), None, PaletteStatusView::Ready)
    } else {
        match daemon_search_spec(d.config_view(), d.app_sources(), d.history(), d.recent(), query, None) {
            Ok(v) => (v, if v.len() == 0 { None } else { Some(0usize) }, PaletteStatusView::Ready),
            Err(e) => (Seq::empty(), None, PaletteStatusView::Error(core_error_text(e))),
        }
    }
}

/// The selection after one move: up stops at the first result, down at the
/// last.
pub open spec fn move_spec(selected: Option<usize>, len: nat, direction: SelectionDirection) -> Option<usize> {
    match selected {
        None => None,
        Some(c) => Some(match direction {
            SelectionDirection::Previous => if c == 0 { 0usize } else { (c - 1) as usize },
            SelectionDirection::Next => {
                let last: int = if len == 0 { 0 } else { len - 1 };
                if c + 1 <= last { (c + 1) as usize } else { last as usize }
            },
        }),
    }
}

/// How the palette reaches its daemon.
#[derive(Debug, PartialEq, Eq)]
pub enum DaemonConnection {
    /// Its own daemon state, in this process.
    InProcess,
    /// A daemon process, over its connection.
    Connected,
    /// No daemon process could be started, for the reason given.
    StartUnavailable(String),
    /// Starting or reaching a daemon process failed, as described.
    StartFailed(String),
}

pub enum DaemonConnectionView {
    InProcess,
    Connected,
    StartUnavailable(Seq<char>),
    StartFailed(Seq<char>),
}

impl View for DaemonConnection {
    type V = DaemonConnectionView;

    open spec fn view(&self) -> DaemonConnectionView {
        match self {
            DaemonConnection::InProcess => DaemonConnectionView::InProcess,
            DaemonConnection::Connected => DaemonConnectionView::Connected,
            DaemonConnection::StartUnavailable(m) => DaemonConnectionView::StartUnavailable(m@),
            DaemonConnection::StartFailed(m) => DaemonConnectionView::StartFailed(m@),
        }
    }
}

/// What a palette connected to a daemon process last heard of that daemon.
#[derive(Debug)]
pub struct IpcStatus {
    pub providers: Vec<String>,
    pub config: Config,
    pub clipboard_capture_enabled: bool,
    pub clipboard_history_len: usize,
    pub recent_result_count: usize,
    pub hotkey: String,
    pub local_state_path: Option<String>,
}

pub struct IpcStatusView {
    pub providers: Seq<Seq<char>>,
    pub config: ConfigView,
    pub clipboard_capture_enabled: bool,
    pub clipboard_history_len: usize,
    pub recent_result_count: usize,
    pub hotkey: Seq<char>,
    pub local_state_path: Option<Seq<char>>,
}

impl View for IpcStatus {
    type V = IpcStatusView;

    open spec fn view(&self) -> IpcStatusView {
        IpcStatusView {
            providers: self.providers.deep_view(),
            config: self.config@,
            clipboard_capture_enabled: self.clipboard_capture_enabled,
            clipboard_history_len: self.clipboard_history_len,
            recent_result_count: self.recent_result_count,
            hotkey: self.hotkey@,
            local_state_path: opt_seq_view(self.local_state_path),
        }
    }
}

/// Why a request over the daemon connection brought no response.
#[derive(Debug, PartialEq, Eq)]
pub enum IpcFailure {
    /// The connection itself failed, as described.
    Transport(String),
    /// The daemon answered with this error.
    Daemon(String),
}

pub enum IpcFailureView {
    Transport(Seq<char>),
    Daemon(Seq<char>),
}

impl View for IpcFailure {
    type V = IpcFailureView;

    open spec fn view(&self) -> IpcFailureView {
        match self {
            IpcFailure::Transport(m) => IpcFailureView::Transport(m@),
            IpcFailure::Daemon(m) => IpcFailureView::Daemon(m@),
        }
    }
}

impl IpcFailure {
    /// The text that describes the failure.
    pub fn message(&self) -> (s: String)
        ensures
            s@ == match self@ {
                IpcFailureView::Transport(m) => m,
                IpcFailureView::Daemon(m) => m,
            },
    {
        match self {
            IpcFailure::Transport(m) => m.clone(),
            IpcFailure::Daemon(m) => m.clone(),
        }
    }
}

/// What came of one request over the daemon connection.
pub open spec fn exchange_view(x: Result<IpcResponse, IpcFailure>) -> Result<IpcResponseView, IpcFailureView> {
    match x {
        Ok(r) => Ok(r@),
        Err(f) => Err(f@),
    }
}

/// The response carried by a reply: a reply that is not ok is the daemon's
/// error, and an ok reply without a response is one too.
pub open spec fn reply_outcome_spec(ok: bool, response: Option<IpcResponseView>, error: Option<Seq<char>>) -> Result<IpcResponseView, IpcFailureView> {
    if !ok {
        Err(IpcFailureView::Daemon(match error {
            Some(e) => e,
            None => "daemon rejected request without a message"@,
        }))
    } else {
        match response {
            Some(r) => Ok(r),
            None => Err(IpcFailureView::Daemon("daemon returned an empty successful response"@)),
        }
    }
}

/// Read a reply received from the daemon as a response or the daemon's error.
pub fn ipc_reply_outcome(reply: IpcReply) -> (r: Result<IpcResponse, IpcFailure>)
    ensures
        exchange_view(r) == reply_outcome_spec(
            reply.ok,
            match reply.response { Some(x) => Some(x@), None => None },
            opt_seq_view(reply.error),
        ),
{
    if !reply.ok {
        let message = match reply.error {
            Some(e) => e,
            None => lit("daemon rejected request without a message"),
        };
        return Err(IpcFailure::Daemon(message));
    }
    match reply.response {
        Some(response) => Ok(response),
        None => Err(IpcFailure::Daemon(lit("daemon returned an empty successful response"))),
    }
}

/// The palette operations that go to the daemon process while one is
/// connected.
#[derive(Debug, PartialEq, Eq)]
pub enum PaletteOp {
    SetQuery(String),
    RecordClipboardText(String),
    RecordClipboardTextInBackground(String),
    ClearClipboardHistory,
    SetProviderEnabled { provider_id: String, enabled: bool },
    SetClipboardCapture { enabled: bool },
    ReloadConfig,
    ExecuteSelected,
    ExecuteConfirmedShell,
}

pub enum PaletteOpView {
    SetQuery(Seq<char>),
    RecordClipboardText(Seq<char>),
    RecordClipboardTextInBackground(Seq<char>),
    ClearClipboardHistory,
    SetProviderEnabled { provider_id: Seq<char>, enabled: bool },
    SetClipboardCapture { enabled: bool },
    ReloadConfig,
    ExecuteSelected,
    ExecuteConfirmedShell,
}

impl View for PaletteOp {
    type V = PaletteOpView;

    open spec fn view(&self) -> PaletteOpView {
        match self {
            PaletteOp::SetQuery(q) => PaletteOpView::SetQuery(q@),
            PaletteOp::RecordClipboardText(t) => PaletteOpView::RecordClipboardText(t@),
            PaletteOp::RecordClipboardTextInBackground(t) => PaletteOpView::RecordClipboardTextInBackground(t@),
            PaletteOp::ClearClipboardHistory => PaletteOpView::ClearClipboardHistory,
            PaletteOp::SetProviderEnabled { provider_id, enabled } => PaletteOpView::SetProviderEnabled { provider_id: provider_id@, enabled: *enabled },
            PaletteOp::SetClipboardCapture { enabled } => PaletteOpView::SetClipboardCapture { enabled: *enabled },
            PaletteOp::ReloadConfig => PaletteOpView::ReloadConfig,
            PaletteOp::ExecuteSelected => PaletteOpView::ExecuteSelected,
            PaletteOp::ExecuteConfirmedShell => PaletteOpView::ExecuteConfirmedShell,
        }
    }
}

/// What a palette operation came to.
#[derive(Debug, PartialEq, Eq)]
pub enum PaletteAnswer {
    Done,
    ClipboardRecorded(ClipboardRecordOutcome),
    ClipboardCleared(usize),
    Execution(PaletteExecution),
}

pub enum PaletteAnswerView {
    Done,
    ClipboardRecorded(ClipboardRecordOutcome),
    ClipboardCleared(usize),
    Execution(PaletteExecutionView),
}

impl View for PaletteAnswer {
    type V = PaletteAnswerView;

    open spec fn view(&self) -> PaletteAnswerView {
        match self {
            PaletteAnswer::Done => PaletteAnswerView::Done,
            PaletteAnswer::ClipboardRecorded(o) => PaletteAnswerView::ClipboardRecorded(*o),
            PaletteAnswer::ClipboardCleared(n) => PaletteAnswerView::ClipboardCleared(*n),
            PaletteAnswer::Execution(e) => PaletteAnswerView::Execution(e@),
        }
    }
}

/// What to do next for a palette operation.
#[derive(Debug)]
pub enum PaletteIpcStep {
    /// Send the request over the daemon connection and hand what came of it
    /// to [`PaletteState::answer_operation`].
    Send(IpcRequest),
    /// Run the operation on the palette's own daemon state, with the method
    /// of the same name.
    InProcess(PaletteOp),
    /// The operation is over.
    Finished(PaletteAnswer),
}

pub enum PaletteIpcStepView {
    Send(IpcRequestView),
    InProcess(PaletteOpView),
    Finished(PaletteAnswerView),
}

impl View for PaletteIpcStep {
    type V = PaletteIpcStepView;

    open spec fn view(&self) -> PaletteIpcStepView {
        match self {
            PaletteIpcStep::Send(r) => PaletteIpcStepView::Send(r@),
            PaletteIpcStep::InProcess(op) => PaletteIpcStepView::InProcess(op@),
            PaletteIpcStep::Finished(a) => PaletteIpcStepView::Finished(a@),
        }
    }
}

/// What remains of an operation once the daemon answered its request:
/// refresh the daemon status, then the results, then show `final_status`,
/// then finish with `answer`.
pub struct IpcPlanView {
    pub status: bool,
    pub refresh: bool,
    pub final_status: Option<PaletteStatusView>,
    pub answer: PaletteAnswerView,
}

/// The answer an operation is waiting for.
pub enum IpcWaitView {
    Idle,
    Record { text: Seq<char>, background: bool },
    Clear,
    Config { op: PaletteOpView, done: Seq<char> },
    Execute { hide: bool },
    Status(IpcPlanView),
    Search(IpcPlanView),
}

struct IpcPlan {
    status: bool,
    refresh: bool,
    final_status: Option<PaletteStatus>,
    answer: PaletteAnswer,
}

enum IpcWait {
    Idle,
    Record { text: String, background: bool },
    Clear,
    Config { op: PaletteOp, done: String },
    Execute { hide: bool },
    Status(IpcPlan),
    Search(IpcPlan),
}

spec fn plan_view(p: IpcPlan) -> IpcPlanView {
    IpcPlanView {
        status: p.status,
        refresh: p.refresh,
        final_status: match p.final_status { Some(st) => Some(st@), None => None },
        answer: p.answer@,
    }
}

spec fn wait_view(w: IpcWait) -> IpcWaitView {
    match w {
        IpcWait::Idle => IpcWaitView::Idle,
        IpcWait::Record { text, background } => IpcWaitView::Record { text: text@, background },
        IpcWait::Clear => IpcWaitView::Clear,
        IpcWait::Config { op, done } => IpcWaitView::Config { op: op@, done: done@ },
        IpcWait::Execute { hide } => IpcWaitView::Execute { hide },
        IpcWait::Status(p) => IpcWaitView::Status(plan_view(p)),
        IpcWait::Search(p) => IpcWaitView::Search(plan_view(p)),
    }
}

/// Everything the palette holds, as values.
pub struct PaletteView {
    pub query: Seq<char>,
    pub results: Seq<RankedView>,
    pub selected: Option<usize>,
    pub status: PaletteStatusView,
    pub daemon: DaemonState,
    pub pending_shell: Option<(Seq<char>, Seq<char>)>,
    pub pending_effect: Option<(SearchResultView, ActionEffect, bool)>,
    /// Address, token and process ID of the connected daemon.
    pub endpoint: Option<(Seq<char>, Seq<char>, u32)>,
    pub ipc_status: Option<IpcStatusView>,
    pub connection: DaemonConnectionView,
    pub wait: IpcWaitView,
}

/// The palette state.
pub struct PaletteState {
    query: String,
    results: Vec<RankedResult>,
    selected: Option<usize>,
    status: PaletteStatus,
    daemon: DaemonState,
    pending_shell_confirmation: Option<PendingShellConfirmation>,
    pending_effect: Option<PendingEffect>,
    ipc_endpoint: Option<IpcEndpoint>,
    ipc_status: Option<IpcStatus>,
    daemon_connection: DaemonConnection,
    ipc_wait: IpcWait,
}

impl PaletteState {
    pub closed spec fn query_view(&self) -> Seq<char> {
        self.query@
    }

    pub closed spec fn results_view(&self) -> Seq<RankedView> {
        ranked_view(self.results@)
    }

    pub closed spec fn selection(&self) -> Option<usize> {
        self.selected
    }

    pub closed spec fn status_view(&self) -> PaletteStatusView {
        self.status@
    }

    pub closed spec fn daemon_state(&self) -> &DaemonState {
        &self.daemon
    }

    /// The pending shell confirmation: result ID and command.
    pub closed spec fn pending_shell(&self) -> Option<(Seq<char>, Seq<char>)> {
        match self.pending_shell_confirmation {
            Some(p) => Some((p.result_id@, p.command@)),
            None => None,
        }
    }

    /// The action waiting for its outside work: result, effect and whether
    /// the palette hides after it.
    pub closed spec fn pending_effect_view(&self) -> Option<(SearchResultView, ActionEffect, bool)> {
        match self.pending_effect {
            Some(p) => Some((p.result@, p.effect, p.hide_palette)),
            None => None,
        }
    }

    /// The connected daemon's address, token and process ID.
    pub closed spec fn endpoint_view(&self) -> Option<(Seq<char>, Seq<char>, u32)> {
        match self.ipc_endpoint {
            Some(e) => Some((e.address@, e.token@, e.pid)),
            None => None,
        }
    }

    pub closed spec fn ipc_status_view(&self) -> Option<IpcStatusView> {
        match self.ipc_status {
            Some(st) => Some(st@),
            None => None,
        }
    }

    pub closed spec fn connection_view(&self) -> DaemonConnectionView {
        self.daemon_connection@
    }

    pub closed spec fn ipc_wait_view(&self) -> IpcWaitView {
        wait_view(self.ipc_wait)
    }

    /// Everything the palette holds.
    pub open spec fn snapshot(&self) -> PaletteView {
        PaletteView {
            query: self.query_view(),
            results: self.results_view(),
            selected: self.selection(),
            status: self.status_view(),
            daemon: *self.daemon_state(),
            pending_shell: self.pending_shell(),
            pending_effect: self.pending_effect_view(),
            endpoint: self.endpoint_view(),
            ipc_status: self.ipc_status_view(),
            connection: self.connection_view(),
            wait: self.ipc_wait_view(),
        }
    }

    /// The daemon state is well formed and a selection points at a result.
    pub closed spec fn wf(&self) -> bool {
        &&& self.daemon.wf()
        &&& self.selected matches Some(i) ==> i < self.results@.len()
    }

    /// A selection always points at one of the results.
    pub proof fn lemma_selection_in_bounds(&self)
        requires
            self.wf(),
        ensures
            self.selection() matches Some(i) ==> i < self.results_view().len(),
            self.daemon_state().wf(),
    {
    }

    /// A palette over a daemon state, with an empty query.
    pub fn from_daemon(daemon: DaemonState) -> (r: PaletteState)
        requires
            daemon.wf(),
        ensures
            r.wf(),
            r.query_view() == Seq::<char>::empty(),
            r.results_view() == Seq::<RankedView>::empty(),
            r.selection() is None,
            r.status_view() == PaletteStatusView::Ready,
            r.pending_shell() is None,
            r.pending_effect_view() is None,
            *r.daemon_state() == daemon,
            r.endpoint_view() is None,
            r.ipc_status_view() is None,
            r.connection_view() == DaemonConnectionView::InProcess,
            r.ipc_wait_view() == IpcWaitView::Idle,
    {
        let r = PaletteState {
            query: String::new(),
            results: Vec::new(),
            selected: None,
            status: PaletteStatus::Ready,
            daemon,
            pending_shell_confirmation: None,
            pending_effect: None,
            ipc_endpoint: None,
            ipc_status: None,
            daemon_connection: DaemonConnection::InProcess,
            ipc_wait: IpcWait::Idle,
        };
        proof {
            assert(r.results_view() =~= Seq::<RankedView>::empty());
        }
        r
    }

    /// A palette connected to the daemon process at `endpoint`, with an
    /// empty query; `daemon` is the state it falls back to.
    pub fn from_daemon_with_ipc_endpoint(daemon: DaemonState, endpoint: IpcEndpoint) -> (r: PaletteState)
        requires
            daemon.wf(),
        ensures
            r.wf(),
            r.snapshot() == (PaletteView {
                query: Seq::<char>::empty(),
                results: Seq::<RankedView>::empty(),
                selected: None,
                status: PaletteStatusView::Ready,
                daemon,
                pending_shell: None,
                pending_effect: None,
                endpoint: Some((endpoint.address@, endpoint.token@, endpoint.pid)),
                ipc_status: None,
                connection: DaemonConnectionView::Connected,
                wait: IpcWaitView::Idle,
            }),
    {
        let mut r = PaletteState::from_daemon(daemon);
        r.ipc_endpoint = Some(endpoint);
        r.daemon_connection = DaemonConnection::Connected;
        r
    }

    /// A palette over a fresh daemon state for `config` on `platform`.
    pub fn from_config(config: Config, platform: &str) -> (r: Result<PaletteState, UiError>)
        ensures
            match (r, hotkey_state_spec(config@.hotkey, platform@)) {
                (Ok(p), Ok(_)) => {
                    &&& p.wf()
                    &&& p.daemon_state().config_view() == config@
                    &&& p.daemon_state().history() == Seq::<Seq<char>>::empty()
                    &&& p.daemon_state().recent() == Seq::<Seq<char>>::empty()
                    &&& p.query_view() == Seq::<char>::empty()
                    &&& p.results_view() == Seq::<RankedView>::empty()
                    &&& p.selection() is None
                    &&& p.status_view() == PaletteStatusView::Ready
                },
                (Err(UiError::Daemon(DaemonError::Hotkey(e))), Err(he)) => e@ == he,
                _ => false,
            },
    {
        match DaemonState::from_config(config, platform) {
            Ok(d) => Ok(PaletteState::from_daemon(d)),
            Err(e) => Err(UiError::Daemon(e)),
        }
    }

    pub fn query(&self) -> (s: &str)
        ensures
            s@ == self.query_view(),
    {
        self.query.as_str()
    }

    pub fn results(&self) -> (r: &Vec<RankedResult>)
        ensures
            ranked_view(r@) == self.results_view(),
    {
        &self.results
    }

    pub fn selected_index(&self) -> (r: Option<usize>)
        ensures
            r == self.selection(),
    {
        self.selected
    }

    pub fn status(&self) -> (s: &PaletteStatus)
        ensures
            s@ == self.status_view(),
    {
        &self.status
    }

    /// The daemon state behind the palette.
    pub fn daemon(&self) -> (d: &DaemonState)
        ensures
            d == self.daemon_state(),
    {
        &self.daemon
    }

    /// The effect waiting to be performed, if any.
    pub fn pending_effect(&self) -> (e: Option<&ActionEffect>)
        ensures
            match self.pending_effect_view() {
                Some((_, ev, _)) => e == Some(&ev),
                None => e is None,
            },
    {
        match &self.pending_effect {
            Some(p) => Some(&p.effect),
            None => None,
        }
    }

    pub fn set_status_info(&mut self, message: &str)
        requires
            old(self).wf(),
        ensures
            confirmation_step(old(self).snapshot(), final(self).snapshot()),
            final(self).wf(),
            final(self).status_view() == PaletteStatusView::Info(message@),
            unchanged_but_status(&*old(self), &*final(self)),
    {
        self.status = PaletteStatus::Info(lit(message));
    }

    pub fn set_status_error(&mut self, message: &str)
        requires
            old(self).wf(),
        ensures
            confirmation_step(old(self).snapshot(), final(self).snapshot()),
            final(self).wf(),
            final(self).status_view() == PaletteStatusView::Error(message@),
            unchanged_but_status(&*old(self), &*final(self)),
    {
        self.status = PaletteStatus::Error(lit(message));
    }

    pub fn hotkey_state(&self) -> (h: &HotkeyState)
        ensures
            h@ == self.daemon_state().hotkey(),
    {
        self.daemon.hotkey_state()
    }

    /// The hotkey summary the connected daemon reported, or the own one.
    pub fn hotkey_summary(&self) -> (s: String)
        ensures
            s@ == match self.ipc_status_view() {
                Some(st) => st.hotkey,
                None => hotkey_summary_spec(self.daemon_state().hotkey()),
            },
    {
        match &self.ipc_status {
            Some(st) => st.hotkey.clone(),
            None => self.daemon.hotkey_state().summary(),
        }
    }

    pub fn provider_ids(&self) -> (r: Vec<String>)
        ensures
            r.deep_view() == match self.ipc_status_view() {
                Some(st) => st.providers,
                None => ids_of_providers(self.daemon_state().providers()),
            },
    {
        match &self.ipc_status {
            Some(st) => crate::plugin_api::clone_strings(&st.providers),
            None => self.daemon.provider_ids(),
        }
    }

    pub fn clipboard_history_len(&self) -> (n: usize)
        ensures
            n == match self.ipc_status_view() {
                Some(st) => st.clipboard_history_len as int,
                None => self.daemon_state().history().len() as int,
            },
    {
        match &self.ipc_status {
            Some(st) => st.clipboard_history_len,
            None => self.daemon.clipboard_history_len(),
        }
    }

    pub fn clipboard_capture_enabled(&self) -> (b: bool)
        ensures
            b == match self.ipc_status_view() {
                Some(st) => st.clipboard_capture_enabled,
                None => self.daemon_state().config_view().providers.clipboard && self.daemon_state().config_view().clipboard.capture,
            },
    {
        match &self.ipc_status {
            Some(st) => st.clipboard_capture_enabled,
            None => self.daemon.clipboard_capture_enabled(),
        }
    }

    pub fn recent_result_count(&self) -> (n: usize)
        ensures
            n == match self.ipc_status_view() {
                Some(st) => st.recent_result_count as int,
                None => self.daemon_state().recent().len() as int,
            },
    {
        match &self.ipc_status {
            Some(st) => st.recent_result_count,
            None => self.daemon.recent_result_count(),
        }
    }

    /// The local state path the connected daemon reported, else the own one.
    pub fn local_state_path(&self) -> (r: Option<String>)
        ensures
            opt_seq_view(r) == match self.ipc_status_view() {
                Some(IpcStatusView { local_state_path: Some(p), .. }) => Some(p),
                _ => self.daemon_state().state_path(),
            },
    {
        match &self.ipc_status {
            Some(IpcStatus { local_state_path: Some(p), .. }) => Some(p.clone()),
            _ => self.daemon.local_state_path(),
        }
    }

    /// The configuration the connected daemon reported, or the own one.
    pub fn config(&self) -> (c: &Config)
        ensures
            c@ == match self.ipc_status_view() {
                Some(st) => st.config,
                None => self.daemon_state().config_view(),
            },
    {
        match &self.ipc_status {
            Some(st) => &st.config,
            None => self.daemon.config(),
        }
    }

    /// How the palette reaches its daemon state.
    pub fn daemon_connection_summary(&self) -> (s: String)
        ensures
            s@ == match (self.endpoint_view(), self.connection_view()) {
                (Some((address, _, _)), _) => "daemon IPC at "@ + address,
                (None, DaemonConnectionView::StartUnavailable(m)) => "in-process palette state ("@ + m + ")"@,
                (None, DaemonConnectionView::StartFailed(m)) => "in-process palette state ("@ + m + ")"@,
                (None, _) => "in-process palette state"@,
            },
    {
        match (&self.ipc_endpoint, &self.daemon_connection) {
            (Some(endpoint), _) => concat2("daemon IPC at ", endpoint.address.as_str()),
            (None, DaemonConnection::StartUnavailable(message)) => {
                let mut s = concat2("in-process palette state (", message.as_str());
                append_str(&mut s, ")");
                s
            },
            (None, DaemonConnection::StartFailed(message)) => {
                let mut s = concat2("in-process palette state (", message.as_str());
                append_str(&mut s, ")");
                s
            },
            (None, _) => lit("in-process palette state"),
        }
    }

    /// The daemon process the palette is connected to, if any.
    pub fn ipc_endpoint(&self) -> (e: Option<&IpcEndpoint>)
        ensures
            match self.endpoint_view() {
                Some((a, t, p)) => e matches Some(x) && x.address@ == a && x.token@ == t && x.pid == p,
                None => e is None,
            },
    {
        match &self.ipc_endpoint {
            Some(x) => Some(x),
            None => None,
        }
    }

    fn refresh_results(&mut self)
        requires
            old(self).wf(),
        ensures
            final(self).wf(),
            (final(self).results_view(), final(self).selection(), final(self).status_view()) == refresh_spec(old(self).daemon_state(), old(self).query_view()),
            final(self).query_view() == old(self).query_view(),
            final(self).daemon_state() == old(self).daemon_state(),
            trim_seq(old(self).query_view()).len() == 0 ==> final(self).pending_shell() is None,
            trim_seq(old(self).query_view()).len() != 0 ==> final(self).pending_shell() == old(self).pending_shell(),
            final(self).pending_effect_view() == old(self).pending_effect_view(),
            final(self).snapshot() == refreshed_locally(old(self).snapshot()),
    {
        let chars = chars_of(self.query.as_str());
        let trimmed = trim_chars(&chars);
        if trimmed.len() == 0 {
            self.results = Vec::new();
            self.selected = None;
            self.status = PaletteStatus::Ready;
            self.pending_shell_confirmation = None;
            proof {
                assert(self.results_view() =~= Seq::<RankedView>::empty());
            }
            return;
        }
        match self.daemon.search(self.query.as_str(), None) {
            Ok(results) => {
                self.selected = if results.len() == 0 { None } else { Some(0) };
                self.results = results;
                self.status = PaletteStatus::Ready;
            },
            Err(error) => {
                self.results = Vec::new();
                self.selected = None;
                let message = match &error {
                    DaemonError::Core(e) => e.message(),
                    _ => error.message(),
                };
                self.status = PaletteStatus::Error(message);
                proof {
                    assert(self.results_view() =~= Seq::<RankedView>::empty());
                }
            },
        }
    }

    /// Show the results for a new query; a pending shell confirmation is
    /// dropped.
    pub fn set_query(&mut self, query: &str)
        requires
            old(self).wf(),
        ensures
            confirmation_step(old(self).snapshot(), final(self).snapshot()),
            final(self).wf(),
            same_connection(&*old(self), &*final(self)),
            final(self).query_view() == query@,
            (final(self).results_view(), final(self).selection(), final(self).status_view()) == refresh_spec(old(self).daemon_state(), query@),
            final(self).pending_shell() is None,
            final(self).daemon_state() == old(self).daemon_state(),
            final(self).pending_effect_view() == old(self).pending_effect_view(),
    {
        self.pending_shell_confirmation = None;
        self.query = lit(query);
        self.refresh_results();
    }
}

impl PaletteState {
    /// Record one clipboard text through the daemon and refresh the results;
    /// the status names the outcome, never the text.
    pub fn record_clipboard_text(&mut self, text: &str) -> (r: Result<ClipboardRecordOutcome, UiError>)
        requires
            old(self).wf(),
        ensures
            confirmation_step(old(self).snapshot(), final(self).snapshot()),
            final(self).wf(),
            same_connection(&*old(self), &*final(self)),
            final(self).pending_effect_view() == old(self).pending_effect_view(),
            final(self).selection() == refresh_spec(final(self).daemon_state(), old(self).query_view()).1,
            daemon_history_only(final(self).daemon_state(), old(self).daemon_state()),
            ({
                let (outcome, h) = record_clipboard_spec(old(self).daemon_state().config_view(), old(self).daemon_state().history(), text@);
                &&& r == Ok::<ClipboardRecordOutcome, UiError>(outcome)
                &&& final(self).daemon_state().history() == h
                &&& final(self).status_view() == PaletteStatusView::Info(clipboard_record_message_spec(outcome))
                &&& final(self).results_view() == refresh_spec(final(self).daemon_state(), old(self).query_view()).0
            }),
            final(self).query_view() == old(self).query_view(),
            final(self).pending_shell() is None,
    {
        self.pending_shell_confirmation = None;
        let outcome = match self.daemon.record_clipboard_text(text) {
            Ok(o) => o,
            Err(e) => return Err(UiError::Daemon(e)),
        };
        self.refresh_results();
        self.status = PaletteStatus::Info(clipboard_record_message(&outcome));
        Ok(outcome)
    }

    /// Record one clipboard text without touching the status line.
    pub fn record_clipboard_text_in_background(&mut self, text: &str) -> (r: Result<ClipboardRecordOutcome, UiError>)
        requires
            old(self).wf(),
        ensures
            confirmation_step(old(self).snapshot(), final(self).snapshot()),
            final(self).wf(),
            same_connection(&*old(self), &*final(self)),
            final(self).pending_effect_view() == old(self).pending_effect_view(),
            final(self).pending_shell() == (if trim_seq(old(self).query_view()).len() == 0 { None } else { old(self).pending_shell() }),
            daemon_history_only(final(self).daemon_state(), old(self).daemon_state()),
            ({
                let (outcome, h) = record_clipboard_spec(old(self).daemon_state().config_view(), old(self).daemon_state().history(), text@);
                &&& r == Ok::<ClipboardRecordOutcome, UiError>(outcome)
                &&& final(self).daemon_state().history() == h
                &&& (final(self).results_view(), final(self).selection(), final(self).status_view()) == refresh_spec(final(self).daemon_state(), old(self).query_view())
            }),
            final(self).query_view() == old(self).query_view(),
    {
        let outcome = match self.daemon.record_clipboard_text(text) {
            Ok(o) => o,
            Err(e) => return Err(UiError::Daemon(e)),
        };
        self.refresh_results();
        Ok(outcome)
    }

    /// Clear the clipboard history and refresh the results.
    pub fn clear_clipboard_history(&mut self) -> (r: Result<usize, UiError>)
        requires
            old(self).wf(),
        ensures
            confirmation_step(old(self).snapshot(), final(self).snapshot()),
            final(self).wf(),
            same_connection(&*old(self), &*final(self)),
            final(self).pending_effect_view() == old(self).pending_effect_view(),
            final(self).results_view() == refresh_spec(final(self).daemon_state(), old(self).query_view()).0,
            final(self).selection() == refresh_spec(final(self).daemon_state(), old(self).query_view()).1,
            daemon_history_only(final(self).daemon_state(), old(self).daemon_state()),
            r == Ok::<usize, UiError>(old(self).daemon_state().history().len() as usize),
            final(self).daemon_state().history() == Seq::<Seq<char>>::empty(),
            final(self).status_view() == PaletteStatusView::Info("Cleared "@ + nat_digits((old(self).daemon_state().history().len() as usize) as nat) + " clipboard item(s)"@),
            final(self).query_view() == old(self).query_view(),
            final(self).pending_shell() is None,
    {
        self.pending_shell_confirmation = None;
        let removed = match self.daemon.clear_clipboard_history() {
            Ok(n) => n,
            Err(e) => return Err(UiError::Daemon(e)),
        };
        self.refresh_results();
        let digits = usize_to_decimal(removed);
        let mut message = concat2("Cleared ", digits.as_str());
        append_str(&mut message, " clipboard item(s)");
        self.status = PaletteStatus::Info(message);
        Ok(removed)
    }

    fn apply_config(&mut self, config: Config, written_path: Option<String>, done: &str) -> (r: Result<(), UiError>)
        requires
            old(self).wf(),
        ensures
            final(self).wf(),
            same_connection(&*old(self), &*final(self)),
            final(self).pending_effect_view() == old(self).pending_effect_view(),
            final(self).pending_shell() == (if r is Ok && trim_seq(old(self).query_view()).len() == 0 { None } else { old(self).pending_shell() }),
            r is Ok ==> final(self).daemon_state().recent() == old(self).daemon_state().recent(),
            r is Ok ==> final(self).daemon_state().state_path() == old(self).daemon_state().state_path(),
            final(self).daemon_state().platform() == old(self).daemon_state().platform(),
            final(self).daemon_state().app_sources() == old(self).daemon_state().app_sources(),
            r is Ok ==> final(self).selection() == refresh_spec(final(self).daemon_state(), old(self).query_view()).1,
            final(self).query_view() == old(self).query_view(),
            match (r, hotkey_state_spec(config@.hotkey, old(self).daemon_state().platform())) {
                (Ok(_), Ok(_)) => {
                    &&& final(self).daemon_state().config_view() == config@
                    &&& final(self).daemon_state().history() == apply_clipboard_config_spec(old(self).daemon_state().history(), config@)
                    &&& final(self).status_view() == PaletteStatusView::Info(done@)
                    &&& final(self).results_view() == refresh_spec(final(self).daemon_state(), old(self).query_view()).0
                },
                (Err(UiError::Daemon(DaemonError::Hotkey(e))), Err(he)) => e@ == he,
                _ => false,
            },
    {
        match self.daemon.update_config(config, written_path) {
            Ok(()) => {},
            Err(e) => return Err(UiError::Daemon(e)),
        }
        self.refresh_results();
        self.status = PaletteStatus::Info(lit(done));
        Ok(())
    }

    /// Turn one provider on or off. `written_path` is where the changed
    /// configuration was written, if it was. An unknown provider only sets an
    /// error status.
    pub fn set_provider_enabled(&mut self, provider_id: &str, enabled: bool, written_path: Option<String>) -> (r: Result<(), UiError>)
        requires
            old(self).wf(),
        ensures
            confirmation_step(old(self).snapshot(), final(self).snapshot()),
            final(self).wf(),
            same_connection(&*old(self), &*final(self)),
            final(self).pending_effect_view() == old(self).pending_effect_view(),
            final(self).pending_shell() == (if (r is Ok && crate::ipc::toggled_config(old(self).daemon_state().config_view(), provider_id@, enabled) is Some) && trim_seq(old(self).query_view()).len() == 0 { None } else { old(self).pending_shell() }),
            (r is Ok && crate::ipc::toggled_config(old(self).daemon_state().config_view(), provider_id@, enabled) is Some) ==> final(self).daemon_state().recent() == old(self).daemon_state().recent(),
            (r is Ok && crate::ipc::toggled_config(old(self).daemon_state().config_view(), provider_id@, enabled) is Some) ==> final(self).daemon_state().state_path() == old(self).daemon_state().state_path(),
            final(self).daemon_state().app_sources() == old(self).daemon_state().app_sources(),
            crate::ipc::toggled_config(old(self).daemon_state().config_view(), provider_id@, enabled) is Some && r is Ok ==> final(self).selection() == refresh_spec(final(self).daemon_state(), old(self).query_view()).1,
            final(self).query_view() == old(self).query_view(),
            match crate::ipc::toggled_config(old(self).daemon_state().config_view(), provider_id@, enabled) {
                None => r is Ok && final(self).status_view() == PaletteStatusView::Error("Unknown provider: "@ + provider_id@)
                    && final(self).daemon_state() == old(self).daemon_state(),
                Some(c) => match (r, hotkey_state_spec(c.hotkey, old(self).daemon_state().platform())) {
                    (Ok(_), Ok(_)) => {
                        &&& final(self).daemon_state().config_view() == c
                        &&& final(self).status_view() == PaletteStatusView::Info("Config updated"@)
                        &&& final(self).results_view() == refresh_spec(final(self).daemon_state(), old(self).query_view()).0
                    },
                    (Err(UiError::Daemon(DaemonError::Hotkey(e))), Err(he)) => e@ == he,
                    _ => false,
                },
            },
    {
        let mut config = self.daemon.config().clone();
        proof {
            reveal_strlit("apps");
            reveal_strlit("calculator");
            reveal_strlit("shell");
            reveal_strlit("clipboard");
        }
        let id = lit(provider_id);
        if id == lit("apps") {
            config.providers.apps = enabled;
        } else if id == lit("calculator") {
            config.providers.calculator = enabled;
        } else if id == lit("shell") {
            config.providers.shell = enabled;
        } else if id == lit("clipboard") {
            config.providers.clipboard = enabled;
        } else {
            self.status = PaletteStatus::Error(concat2("Unknown provider: ", provider_id));
            return Ok(());
        }
        self.apply_config(config, written_path, "Config updated")
    }

    /// Turn clipboard capture on or off.
    pub fn set_clipboard_capture_enabled(&mut self, enabled: bool, written_path: Option<String>) -> (r: Result<(), UiError>)
        requires
            old(self).wf(),
        ensures
            confirmation_step(old(self).snapshot(), final(self).snapshot()),
            final(self).wf(),
            same_connection(&*old(self), &*final(self)),
            final(self).pending_effect_view() == old(self).pending_effect_view(),
            final(self).pending_shell() == (if r is Ok && trim_seq(old(self).query_view()).len() == 0 { None } else { old(self).pending_shell() }),
            r is Ok ==> final(self).daemon_state().recent() == old(self).daemon_state().recent(),
            r is Ok ==> final(self).daemon_state().state_path() == old(self).daemon_state().state_path(),
            final(self).daemon_state().app_sources() == old(self).daemon_state().app_sources(),
            r is Ok ==> final(self).results_view() == refresh_spec(final(self).daemon_state(), old(self).query_view()).0,
            r is Ok ==> final(self).selection() == refresh_spec(final(self).daemon_state(), old(self).query_view()).1,
            final(self).query_view() == old(self).query_view(),
            ({
                let c = ConfigView {
                    clipboard: crate::config::ClipboardConfig { capture: enabled, ..old(self).daemon_state().config_view().clipboard },
                    ..old(self).daemon_state().config_view()
                };
                match (r, hotkey_state_spec(c.hotkey, old(self).daemon_state().platform())) {
                    (Ok(_), Ok(_)) => {
                        &&& final(self).daemon_state().config_view() == c
                        &&& final(self).daemon_state().history() == apply_clipboard_config_spec(old(self).daemon_state().history(), c)
                        &&& final(self).status_view() == PaletteStatusView::Info("Clipboard capture setting updated"@)
                    },
                    (Err(UiError::Daemon(DaemonError::Hotkey(e))), Err(he)) => e@ == he,
                    _ => false,
                }
            }),
    {
        let mut config = self.daemon.config().clone();
        config.clipboard.capture = enabled;
        self.apply_config(config, written_path, "Clipboard capture setting updated")
    }

    /// Clear everything visible before the palette is shown again.
    pub fn reset_for_next_activation(&mut self)
        requires
            old(self).wf(),
        ensures
            confirmation_step(old(self).snapshot(), final(self).snapshot()),
            final(self).wf(),
            same_connection(&*old(self), &*final(self)),
            final(self).pending_effect_view() == old(self).pending_effect_view(),
            final(self).query_view() == Seq::<char>::empty(),
            final(self).results_view() == Seq::<RankedView>::empty(),
            final(self).selection() is None,
            final(self).status_view() == PaletteStatusView::Ready,
            final(self).pending_shell() is None,
            final(self).daemon_state() == old(self).daemon_state(),
    {
        self.query = String::new();
        self.results = Vec::new();
        self.selected = None;
        self.status = PaletteStatus::Ready;
        self.pending_shell_confirmation = None;
        proof {
            assert(self.results_view() =~= Seq::<RankedView>::empty());
        }
    }

    /// Move the selection; it never leaves the results.
    pub fn move_selection(&mut self, direction: SelectionDirection)
        requires
            old(self).wf(),
        ensures
            confirmation_step(old(self).snapshot(), final(self).snapshot()),
            final(self).wf(),
            same_connection(&*old(self), &*final(self)),
            final(self).pending_effect_view() == old(self).pending_effect_view(),
            final(self).selection() == move_spec(old(self).selection(), old(self).results_view().len(), direction),
            old(self).selection() is Some ==> final(self).pending_shell() is None,
            old(self).selection() is None ==> final(self).pending_shell() == old(self).pending_shell(),
            final(self).results_view() == old(self).results_view(),
            final(self).query_view() == old(self).query_view(),
            final(self).status_view() == old(self).status_view(),
            final(self).daemon_state() == old(self).daemon_state(),
    {
        let current = match self.selected {
            Some(c) => c,
            None => return,
        };
        self.pending_shell_confirmation = None;
        let next = match direction {
            SelectionDirection::Previous => current.saturating_sub(1),
            SelectionDirection::Next => {
                let last = self.results.len().saturating_sub(1);
                let up = current + 1;
                if up <= last { up } else { last }
            },
        };
        self.selected = Some(next);
    }

    /// Forget a pending shell confirmation.
    pub fn cancel_shell_confirmation(&mut self)
        requires
            old(self).wf(),
        ensures
            confirmation_step(old(self).snapshot(), final(self).snapshot()),
            final(self).wf(),
            same_connection(&*old(self), &*final(self)),
            final(self).pending_effect_view() == old(self).pending_effect_view(),
            final(self).pending_shell() is None,
            final(self).status_view() == PaletteStatusView::Info("Shell command was not run"@),
            final(self).query_view() == old(self).query_view(),
            final(self).results_view() == old(self).results_view(),
            final(self).selection() == old(self).selection(),
            final(self).daemon_state() == old(self).daemon_state(),
    {
        self.pending_shell_confirmation = None;
        self.status = PaletteStatus::Info(lit("Shell command was not run"));
    }

    /// Reload with the configuration read again from its source, keeping the
    /// current query.
    pub fn reload_config(&mut self, config: Config)
        requires
            old(self).wf(),
        ensures
            confirmation_step(old(self).snapshot(), final(self).snapshot()),
            final(self).wf(),
            same_connection(&*old(self), &*final(self)),
            final(self).pending_effect_view() == old(self).pending_effect_view(),
            final(self).pending_shell() is None,
            final(self).daemon_state().recent() == old(self).daemon_state().recent(),
            final(self).daemon_state().app_sources() == old(self).daemon_state().app_sources(),
            final(self).query_view() == old(self).query_view(),
            match hotkey_state_spec(config@.hotkey, old(self).daemon_state().platform()) {
                Ok(_) => {
                    &&& final(self).daemon_state().config_view() == config@
                    &&& final(self).status_view() == PaletteStatusView::Info("Config reloaded"@)
                    &&& final(self).results_view() == refresh_spec(final(self).daemon_state(), old(self).query_view()).0
                    &&& final(self).selection() == refresh_spec(final(self).daemon_state(), old(self).query_view()).1
                },
                Err(he) => final(self).status_view() == PaletteStatusView::Error(crate::hotkey::hotkey_error_text(he))
                    && final(self).daemon_state().config_view() == old(self).daemon_state().config_view(),
            },
    {
        self.pending_shell_confirmation = None;
        match self.daemon.reload_config(config) {
            Ok(()) => {
                let query = self.query.clone();
                self.set_query(query.as_str());
                self.status = PaletteStatus::Info(lit("Config reloaded"));
            },
            Err(error) => {
                self.status = PaletteStatus::Error(error.message());
            },
        }
    }
}

/// What executing the selected result does to the palette, once the
/// selection points at `res` and no confirmation step is involved: a result
/// the policy refuses fails without running anything.
pub open spec fn run_fits(
    r: PaletteExecution,
    old_state: &PaletteState,
    new_state: &PaletteState,
    res: SearchResultView,
    hide: bool,
    allow_shell: bool,
) -> bool {
    &&& new_state.daemon_state().wf()
    &&& crate::daemon::same_but_recent(new_state.daemon_state(), old_state.daemon_state())
    &&& if result_blocked_spec(res, if allow_shell { ActionExecutionPolicy::AllowShellCommands } else { ActionExecutionPolicy::BlockShellCommands }) {
        &&& r@ == PaletteExecutionView::Failed
        &&& new_state.status_view() == PaletteStatusView::Error("refusing to run shell command without explicit permission"@)
        &&& new_state.daemon_state().recent() == old_state.daemon_state().recent()
        &&& new_state.pending_effect_view() == old_state.pending_effect_view()
    } else {
        match daemon_execute_spec(old_state.daemon_state().config_view(), old_state.daemon_state().app_sources(), old_state.daemon_state().history(), res) {
        Ok(StepView::Done(m)) => {
            &&& r@ == PaletteExecutionView::Completed { hide_palette: hide }
            &&& new_state.status_view() == PaletteStatusView::Info(m)
            &&& new_state.daemon_state().recent() == record_recent_spec(old_state.daemon_state().recent(), res)
            &&& new_state.pending_effect_view() == old_state.pending_effect_view()
        },
        Ok(StepView::Perform(e)) => {
            &&& r matches PaletteExecution::AwaitingEffect { effect } && effect@ == e
            &&& new_state.pending_effect_view() matches Some((pres, peff, phide)) && pres == res && peff@ == e && phide == hide
            &&& new_state.daemon_state().recent() == old_state.daemon_state().recent()
        },
        Err(ce) => {
            &&& r@ == PaletteExecutionView::Failed
            &&& new_state.status_view() == PaletteStatusView::Error(core_error_text(ce))
            &&& new_state.daemon_state().recent() == old_state.daemon_state().recent()
            &&& new_state.pending_effect_view() == old_state.pending_effect_view()
        },
        }
    }
}

impl PaletteState {
    fn run_result(&mut self, result: SearchResult, allow_shell: bool, hide: bool) -> (r: PaletteExecution)
        requires
            old(self).wf(),
        ensures
            final(self).wf(),
            same_connection(&*old(self), &*final(self)),
            run_fits(r, &*old(self), &*final(self), result@, hide, allow_shell),
            final(self).query_view() == old(self).query_view(),
            final(self).results_view() == old(self).results_view(),
            final(self).selection() == old(self).selection(),
            final(self).pending_shell() == old(self).pending_shell(),
    {
        let policy = if allow_shell { ActionExecutionPolicy::AllowShellCommands } else { ActionExecutionPolicy::BlockShellCommands };
        match self.daemon.execute_result(&result, policy) {
            Ok(ExecutionStep::Done(outcome)) => {
                self.status = PaletteStatus::Info(outcome.message);
                PaletteExecution::Completed { hide_palette: hide }
            },
            Ok(ExecutionStep::Perform(effect)) => {
                let shown = effect.clone();
                self.pending_effect = Some(PendingEffect { result, effect, hide_palette: hide });
                PaletteExecution::AwaitingEffect { effect: shown }
            },
            Err(error) => {
                let message = match &error {
                    DaemonError::Core(e) => e.message(),
                    _ => error.message(),
                };
                self.status = PaletteStatus::Error(message);
                PaletteExecution::Failed
            },
        }
    }

    /// Execute the selected result. A shell command is not run: it waits
    /// for confirmation. Anything else runs under the policy that blocks
    /// shell commands.
    pub fn execute_selected(&mut self) -> (r: PaletteExecution)
        requires
            old(self).wf(),
        ensures
            confirmation_step(old(self).snapshot(), final(self).snapshot()),
            final(self).wf(),
            same_connection(&*old(self), &*final(self)),
            final(self).query_view() == old(self).query_view(),
            final(self).results_view() == old(self).results_view(),
            match old(self).selection() {
                None => {
                    &&& r@ == PaletteExecutionView::NoSelection
                    &&& final(self).status_view() == PaletteStatusView::Info("No result selected"@)
                    &&& final(self).daemon_state() == old(self).daemon_state()
                },
                Some(i) => {
                    let res = old(self).results_view()[i as int].result;
                    match primary_action_spec(res) {
                        ActionView::RunShell { command } => {
                            &&& r@ == (PaletteExecutionView::NeedsShellConfirmation { command })
                            &&& final(self).pending_shell() == Some((res.id, command))
                            &&& final(self).status_view() == PaletteStatusView::Info("Confirm shell command before running"@)
                            &&& final(self).daemon_state() == old(self).daemon_state()
                        },
                        a => {
                            &&& final(self).pending_shell() is None
                            &&& run_fits(r, &*old(self), &*final(self), res, hides_palette_spec(a), false)
                        },
                    }
                },
            },
    {
        let index = match self.selected {
            Some(i) => i,
            None => {
                self.status = PaletteStatus::Info(lit("No result selected"));
                return PaletteExecution::NoSelection;
            },
        };
        if index >= self.results.len() {
            self.status = PaletteStatus::Error(lit("Selected result is unavailable"));
            self.selected = None;
            return PaletteExecution::SelectedUnavailable;
        }
        let result = self.results[index].result.clone();
        match result.primary_action() {
            Action::RunShell { command } => {
                let command = command.clone();
                self.pending_shell_confirmation = Some(PendingShellConfirmation { result_id: result.id.clone(), command: command.clone() });
                self.status = PaletteStatus::Info(lit("Confirm shell command before running"));
                return PaletteExecution::NeedsShellConfirmation { command };
            },
            _ => {},
        }
        self.pending_shell_confirmation = None;
        let hide = action_hides_palette_after_success(result.primary_action());
        self.run_result(result, false, hide)
    }

    /// Run the selected shell command after the user confirmed it; the
    /// confirmation must still match the selection.
    pub fn execute_confirmed_shell(&mut self) -> (r: PaletteExecution)
        requires
            old(self).wf(),
        ensures
            confirmation_step(old(self).snapshot(), final(self).snapshot()),
            final(self).wf(),
            same_connection(&*old(self), &*final(self)),
            final(self).query_view() == old(self).query_view(),
            final(self).results_view() == old(self).results_view(),
            match old(self).selection() {
                None => {
                    &&& r@ == PaletteExecutionView::NoSelection
                    &&& final(self).pending_shell() is None
                    &&& final(self).status_view() == PaletteStatusView::Info("No result selected"@)
                    &&& final(self).daemon_state() == old(self).daemon_state()
                },
                Some(i) => {
                    let res = old(self).results_view()[i as int].result;
                    match primary_action_spec(res) {
                        ActionView::RunShell { command } => match old(self).pending_shell() {
                            None => {
                                &&& r@ == PaletteExecutionView::Blocked
                                &&& final(self).status_view() == PaletteStatusView::Error("Shell confirmation expired; select the command again"@)
                                &&& final(self).daemon_state() == old(self).daemon_state()
                            },
                            Some((rid, cmd)) => if rid != res.id || cmd != command {
                                &&& r@ == PaletteExecutionView::Blocked
                                &&& final(self).pending_shell() is None
                                &&& final(self).status_view() == PaletteStatusView::Error("Shell confirmation no longer matches the selected command"@)
                                &&& final(self).daemon_state() == old(self).daemon_state()
                            } else {
                                &&& final(self).pending_shell() is None
                                &&& run_fits(r, &*old(self), &*final(self), res, false, true)
                            },
                        },
                        _ => {
                            &&& r@ == PaletteExecutionView::SelectedUnavailable
                            &&& final(self).pending_shell() is None
                            &&& final(self).status_view() == PaletteStatusView::Error("Selected result is not a shell command"@)
                            &&& final(self).daemon_state() == old(self).daemon_state()
                        },
                    }
                },
            },
    {
        let index = match self.selected {
            Some(i) => i,
            None => {
                self.pending_shell_confirmation = None;
                self.status = PaletteStatus::Info(lit("No result selected"));
                return PaletteExecution::NoSelection;
            },
        };
        if index >= self.results.len() {
            self.pending_shell_confirmation = None;
            self.status = PaletteStatus::Error(lit("Selected result is unavailable"));
            self.selected = None;
            return PaletteExecution::SelectedUnavailable;
        }
        let result = self.results[index].result.clone();
        let command = match result.primary_action() {
            Action::RunShell { command } => command.clone(),
            _ => {
                self.pending_shell_confirmation = None;
                self.status = PaletteStatus::Error(lit("Selected result is not a shell command"));
                return PaletteExecution::SelectedUnavailable;
            },
        };
        let matches = match &self.pending_shell_confirmation {
            None => {
                self.status = PaletteStatus::Error(lit("Shell confirmation expired; select the command again"));
                return PaletteExecution::Blocked;
            },
            Some(pending) => pending.result_id == result.id && pending.command == command,
        };
        if !matches {
            self.pending_shell_confirmation = None;
            self.status = PaletteStatus::Error(lit("Shell confirmation no longer matches the selected command"));
            return PaletteExecution::Blocked;
        }
        self.pending_shell_confirmation = None;
        self.run_result(result, true, false)
    }

    /// Finish the action that waited for outside work, with the report of
    /// that work.
    pub fn complete_pending_effect(&mut self, report: &EffectReport) -> (r: PaletteExecution)
        requires
            old(self).wf(),
            old(self).pending_effect_view() matches Some((_, e, _)) && report_fits(e, *report),
        ensures
            confirmation_step(old(self).snapshot(), final(self).snapshot()),
            final(self).wf(),
            same_connection(&*old(self), &*final(self)),
            final(self).pending_effect_view() is None,
            final(self).query_view() == old(self).query_view(),
            final(self).results_view() == old(self).results_view(),
            crate::daemon::same_but_recent(final(self).daemon_state(), old(self).daemon_state()),
            old(self).pending_effect_view() matches Some((res, e, hide)) && match effect_result_spec(e, *report) {
                Ok(t) => {
                    &&& r@ == PaletteExecutionView::Completed { hide_palette: hide }
                    &&& final(self).status_view() == PaletteStatusView::Info(t)
                    &&& final(self).daemon_state().recent() == record_recent_spec(old(self).daemon_state().recent(), res)
                },
                Err(_) => {
                    &&& r@ == PaletteExecutionView::Failed
                    &&& final(self).status_view() == PaletteStatusView::Error(
                        "provider '"@ + res.provider + "' failed: "@ + ("action failed: "@ + effect_error_text(e, *report)))
                    &&& final(self).daemon_state().recent() == old(self).daemon_state().recent()
                },
            },
    {
        let pending = match self.pending_effect.take() {
            Some(p) => p,
            None => return PaletteExecution::Failed,
        };
        match self.daemon.complete_execution(&pending.result, &pending.effect, report) {
            Ok(outcome) => {
                self.status = PaletteStatus::Info(outcome.message);
                PaletteExecution::Completed { hide_palette: pending.hide_palette }
            },
            Err(error) => {
                self.status = PaletteStatus::Error(error.message());
                PaletteExecution::Failed
            },
        }
    }
}

/// What the palette window does when it is asked to close.
#[derive(Debug, Clone, Copy, PartialEq, Eq, Structural)]
pub enum WindowClosePolicy {
    CloseProcess,
    HideToBackground,
}

impl WindowClosePolicy {
    /// Hide to the background while a hotkey or a tray icon can bring the
    /// palette back; otherwise closing ends the process.
    pub fn from_lifecycle(hotkey_active: bool, tray_active: bool) -> (r: WindowClosePolicy)
        ensures
            r == (if hotkey_active || tray_active { WindowClosePolicy::HideToBackground } else { WindowClosePolicy::CloseProcess }),
    {
        if hotkey_active || tray_active {
            WindowClosePolicy::HideToBackground
        } else {
            WindowClosePolicy::CloseProcess
        }
    }
}

/// The text of the selected result when it is a clipboard entry that copies
/// text.
pub open spec fn selected_clipboard_text_spec(p: &PaletteState) -> Option<Seq<char>> {
    match p.selection() {
        None => None,
        Some(i) => if i >= p.results_view().len() {
            None
        } else {
            let r = p.results_view()[i as int].result;
            if r.kind != crate::plugin_api::ResultKind::Clipboard {
                None
            } else {
                match primary_action_spec(r) {
                    ActionView::CopyText { text } => Some(text),
                    _ => None,
                }
            }
        },
    }
}

/// The text to put on the system clipboard for the selection, if the
/// selection is a clipboard entry.
pub fn selected_clipboard_text(palette: &PaletteState) -> (r: Option<String>)
    ensures
        crate::daemon::opt_seq_view(r) == selected_clipboard_text_spec(palette),
{
    let selected = match palette.selected_index() {
        Some(i) => i,
        None => return None,
    };
    let results = palette.results();
    if selected >= results.len() {
        return None;
    }
    let result = &results[selected].result;
    if result.kind != crate::plugin_api::ResultKind::Clipboard {
        return None;
    }
    match result.primary_action() {
        Action::CopyText { text } => Some(text.clone()),
        _ => None,
    }
}

/// Moving the selection never leaves the results: a selection that points
/// at a result still does after any move.
pub proof fn law_move_stays_in_bounds(selected: Option<usize>, len: nat, direction: SelectionDirection)
    requires
        selected matches Some(i) ==> i < len,
    ensures
        move_spec(selected, len, direction) matches Some(j) ==> j < len,
{
}

/// The daemon connection is as it was.
pub open spec fn same_connection(a: &PaletteState, b: &PaletteState) -> bool {
    &&& a.endpoint_view() == b.endpoint_view()
    &&& a.ipc_status_view() == b.ipc_status_view()
    &&& a.connection_view() == b.connection_view()
    &&& a.ipc_wait_view() == b.ipc_wait_view()
}

/// Of the daemon state only the clipboard history changed.
pub open spec fn daemon_history_only(a: &DaemonState, b: &DaemonState) -> bool {
    &&& a.config_view() == b.config_view()
    &&& a.recent() == b.recent()
    &&& a.report() == b.report()
    &&& a.hotkey() == b.hotkey()
    &&& a.source() == b.source()
    &&& a.state_path() == b.state_path()
    &&& a.platform() == b.platform()
    &&& a.app_sources() == b.app_sources()
}

/// Only the status line changed.
pub open spec fn unchanged_but_status(a: &PaletteState, b: &PaletteState) -> bool {
    &&& a.query_view() == b.query_view()
    &&& a.results_view() == b.results_view()
    &&& a.selection() == b.selection()
    &&& a.daemon_state() == b.daemon_state()
    &&& a.pending_shell() == b.pending_shell()
    &&& a.pending_effect_view() == b.pending_effect_view()
    &&& same_connection(a, b)
}


/// The palette after its connection to the daemon process failed with
/// `error`: it falls back to its own daemon state.
pub open spec fn disconnected(s: PaletteView, error: Seq<char>) -> PaletteView {
    PaletteView {
        endpoint: None,
        ipc_status: None,
        connection: DaemonConnectionView::StartFailed("daemon IPC unavailable: "@ + error),
        ..s
    }
}

/// The palette after refreshing its results from its own daemon state.
pub open spec fn refreshed_locally(s: PaletteView) -> PaletteView {
    let (results, selected, status) = refresh_spec(&s.daemon, s.query);
    PaletteView {
        results,
        selected,
        status,
        pending_shell: if trim_seq(s.query).len() == 0 { None } else { s.pending_shell },
        ..s
    }
}

/// The palette after a status response: a status replaces what the palette
/// knew of the daemon; any other response changes nothing.
pub open spec fn status_applied(s: PaletteView, r: IpcResponseView) -> PaletteView {
    match r {
        IpcResponseView::Status {
            providers,
            config,
            clipboard_capture_enabled,
            clipboard_history_len,
            recent_result_count,
            hotkey,
            local_state_path,
            ..
        } => PaletteView {
            ipc_status: Some(IpcStatusView {
                providers,
                config,
                clipboard_capture_enabled,
                clipboard_history_len,
                recent_result_count,
                hotkey,
                local_state_path,
            }),
            ..s
        },
        _ => s,
    }
}

/// What the palette knows of the daemon after a configuration change:
/// providers, configuration and capture from the response, the rest from
/// before (or its defaults).
pub open spec fn with_new_config(s: PaletteView, providers: Seq<Seq<char>>, config: ConfigView, capture: bool) -> PaletteView {
    PaletteView {
        ipc_status: Some(IpcStatusView {
            providers,
            config,
            clipboard_capture_enabled: capture,
            clipboard_history_len: match s.ipc_status { Some(p) => p.clipboard_history_len, None => 0 },
            recent_result_count: match s.ipc_status { Some(p) => p.recent_result_count, None => 0 },
            hotkey: match s.ipc_status { Some(p) => p.hotkey, None => "global hotkey disabled"@ },
            local_state_path: match s.ipc_status { Some(p) => p.local_state_path, None => None },
        }),
        ..s
    }
}

/// The palette after a response to a configuration change, and whether the
/// daemon status is to be asked for again.
pub open spec fn config_applied(s: PaletteView, r: IpcResponseView) -> (PaletteView, bool) {
    match r {
        IpcResponseView::ConfigUpdated { providers, config, clipboard_capture_enabled, .. } =>
            (with_new_config(s, providers, config, clipboard_capture_enabled), true),
        IpcResponseView::Reloaded { providers, config, clipboard_capture_enabled, .. } =>
            (with_new_config(s, providers, config, clipboard_capture_enabled), true),
        _ => (status_applied(s, r), false),
    }
}

/// Finish an operation: show its final status, if it has one, and answer.
pub open spec fn finished(s: PaletteView, plan: IpcPlanView) -> (PaletteView, PaletteIpcStepView) {
    (
        PaletteView {
            status: match plan.final_status { Some(st) => st, None => s.status },
            wait: IpcWaitView::Idle,
            ..s
        },
        PaletteIpcStepView::Finished(plan.answer),
    )
}

/// Refresh the results if the plan says so (through the daemon while it is
/// connected and the query is not blank), then finish.
pub open spec fn refresh_then_finish(s: PaletteView, plan: IpcPlanView) -> (PaletteView, PaletteIpcStepView) {
    if !plan.refresh {
        finished(s, plan)
    } else if trim_seq(s.query).len() == 0 || s.endpoint is None {
        finished(refreshed_locally(s), plan)
    } else {
        (
            PaletteView { wait: IpcWaitView::Search(IpcPlanView { status: false, refresh: false, ..plan }), ..s },
            PaletteIpcStepView::Send(IpcRequestView::Search { query: s.query, limit: None }),
        )
    }
}

/// Carry out the rest of an operation: ask the connected daemon for its
/// status if the plan says so, then refresh and finish.
pub open spec fn advance_spec(s: PaletteView, plan: IpcPlanView) -> (PaletteView, PaletteIpcStepView) {
    if plan.status && s.endpoint is Some {
        (
            PaletteView { wait: IpcWaitView::Status(IpcPlanView { status: false, ..plan }), ..s },
            PaletteIpcStepView::Send(IpcRequestView::Status),
        )
    } else {
        refresh_then_finish(s, plan)
    }
}

/// Stop with `answer` after setting `status`.
pub open spec fn stop_with(s: PaletteView, status: PaletteStatusView, answer: PaletteAnswerView) -> (PaletteView, PaletteIpcStepView) {
    (PaletteView { status, wait: IpcWaitView::Idle, ..s }, PaletteIpcStepView::Finished(answer))
}

/// Hand the operation back to be run in process, after the connection
/// failed with `error`.
pub open spec fn fall_back(s: PaletteView, error: Seq<char>, op: PaletteOpView) -> (PaletteView, PaletteIpcStepView) {
    (PaletteView { wait: IpcWaitView::Idle, ..disconnected(s, error) }, PaletteIpcStepView::InProcess(op))
}

pub open spec fn plan(status: bool, refresh: bool, final_status: Option<PaletteStatusView>, answer: PaletteAnswerView) -> IpcPlanView {
    IpcPlanView { status, refresh, final_status, answer }
}

/// Start executing the selected result through the daemon: the same checks
/// as in process, then the request. `confirmed` is true for a confirmed
/// shell command.
pub open spec fn execute_begin_spec(s: PaletteView, confirmed: bool) -> (PaletteView, PaletteIpcStepView) {
    match s.selected {
        None => stop_with(
            PaletteView { pending_shell: if confirmed { None } else { s.pending_shell }, ..s },
            PaletteStatusView::Info("No result selected"@),
            PaletteAnswerView::Execution(PaletteExecutionView::NoSelection),
        ),
        Some(i) => if i >= s.results.len() {
            stop_with(
                PaletteView { selected: None, pending_shell: if confirmed { None } else { s.pending_shell }, ..s },
                PaletteStatusView::Error("Selected result is unavailable"@),
                PaletteAnswerView::Execution(PaletteExecutionView::SelectedUnavailable),
            )
        } else {
            let res = s.results[i as int].result;
            if !confirmed {
                match primary_action_spec(res) {
                    ActionView::RunShell { command } => stop_with(
                        PaletteView { pending_shell: Some((res.id, command)), ..s },
                        PaletteStatusView::Info("Confirm shell command before running"@),
                        PaletteAnswerView::Execution(PaletteExecutionView::NeedsShellConfirmation { command }),
                    ),
                    a => (
                        PaletteView { pending_shell: None, wait: IpcWaitView::Execute { hide: hides_palette_spec(a) }, ..s },
                        PaletteIpcStepView::Send(IpcRequestView::ExecuteResult { result: res, allow_shell: false }),
                    ),
                }
            } else {
                match primary_action_spec(res) {
                    ActionView::RunShell { command } => match s.pending_shell {
                        None => stop_with(
                            s,
                            PaletteStatusView::Error("Shell confirmation expired; select the command again"@),
                            PaletteAnswerView::Execution(PaletteExecutionView::Blocked),
                        ),
                        Some((rid, cmd)) => if rid != res.id || cmd != command {
                            stop_with(
                                PaletteView { pending_shell: None, ..s },
                                PaletteStatusView::Error("Shell confirmation no longer matches the selected command"@),
                                PaletteAnswerView::Execution(PaletteExecutionView::Blocked),
                            )
                        } else {
                            (
                                PaletteView { pending_shell: None, wait: IpcWaitView::Execute { hide: false }, ..s },
                                PaletteIpcStepView::Send(IpcRequestView::ExecuteResult { result: res, allow_shell: true }),
                            )
                        },
                    },
                    _ => stop_with(
                        PaletteView { pending_shell: None, ..s },
                        PaletteStatusView::Error("Selected result is not a shell command"@),
                        PaletteAnswerView::Execution(PaletteExecutionView::SelectedUnavailable),
                    ),
                }
            }
        },
    }
}

/// How a palette operation starts: in process when no daemon is connected,
/// otherwise with its request to the daemon.
pub open spec fn begin_spec(s: PaletteView, op: PaletteOpView) -> (PaletteView, PaletteIpcStepView) {
    if s.endpoint is None {
        (s, PaletteIpcStepView::InProcess(op))
    } else {
        match op {
            PaletteOpView::SetQuery(q) => refresh_then_finish(
                PaletteView { pending_shell: None, query: q, ..s },
                plan(false, true, None, PaletteAnswerView::Done),
            ),
            PaletteOpView::RecordClipboardText(t) => (
                PaletteView { pending_shell: None, wait: IpcWaitView::Record { text: t, background: false }, ..s },
                PaletteIpcStepView::Send(IpcRequestView::RecordClipboardText { text: t }),
            ),
            PaletteOpView::RecordClipboardTextInBackground(t) => (
                PaletteView { wait: IpcWaitView::Record { text: t, background: true }, ..s },
                PaletteIpcStepView::Send(IpcRequestView::RecordClipboardText { text: t }),
            ),
            PaletteOpView::ClearClipboardHistory => (
                PaletteView { pending_shell: None, wait: IpcWaitView::Clear, ..s },
                PaletteIpcStepView::Send(IpcRequestView::ClearClipboardHistory),
            ),
            PaletteOpView::SetProviderEnabled { provider_id, enabled } => (
                PaletteView { wait: IpcWaitView::Config { op, done: "Config updated"@ }, ..s },
                PaletteIpcStepView::Send(IpcRequestView::SetProviderEnabled { provider_id, enabled }),
            ),
            PaletteOpView::SetClipboardCapture { enabled } => (
                PaletteView { wait: IpcWaitView::Config { op, done: "Clipboard capture setting updated"@ }, ..s },
                PaletteIpcStepView::Send(IpcRequestView::SetClipboardCapture { enabled }),
            ),
            PaletteOpView::ReloadConfig => (
                PaletteView { pending_shell: None, wait: IpcWaitView::Config { op, done: "Config reloaded"@ }, ..s },
                PaletteIpcStepView::Send(IpcRequestView::ReloadConfig),
            ),
            PaletteOpView::ExecuteSelected => execute_begin_spec(s, false),
            PaletteOpView::ExecuteConfirmedShell => execute_begin_spec(s, true),
        }
    }
}

/// How the palette takes what came of the request it is waiting for.
pub open spec fn answer_spec(s: PaletteView, x: Result<IpcResponseView, IpcFailureView>) -> (PaletteView, PaletteIpcStepView) {
    match s.wait {
        IpcWaitView::Idle => (s, PaletteIpcStepView::Finished(PaletteAnswerView::Done)),
        IpcWaitView::Search(p) => match x {
            Ok(IpcResponseView::Search { results }) => finished(
                PaletteView {
                    results,
                    selected: if results.len() == 0 { None } else { Some(0usize) },
                    status: PaletteStatusView::Ready,
                    ..s
                },
                p,
            ),
            Ok(_) => finished(
                PaletteView {
                    results: Seq::empty(),
                    selected: None,
                    status: PaletteStatusView::Error("daemon returned an unexpected search response"@),
                    ..s
                },
                p,
            ),
            Err(IpcFailureView::Transport(e)) => finished(refreshed_locally(disconnected(s, e)), p),
            Err(IpcFailureView::Daemon(m)) => finished(
                PaletteView { results: Seq::empty(), selected: None, status: PaletteStatusView::Error(m), ..s },
                p,
            ),
        },
        IpcWaitView::Status(p) => match x {
            Ok(r) => refresh_then_finish(status_applied(s, r), p),
            Err(IpcFailureView::Transport(e)) => refresh_then_finish(disconnected(s, e), p),
            Err(IpcFailureView::Daemon(m)) => refresh_then_finish(PaletteView { status: PaletteStatusView::Error(m), ..s }, p),
        },
        IpcWaitView::Record { text, background } => if !background {
            match x {
                Ok(IpcResponseView::ClipboardRecorded { outcome, message }) => advance_spec(
                    s,
                    plan(true, true, Some(PaletteStatusView::Info(message)), PaletteAnswerView::ClipboardRecorded(outcome)),
                ),
                Ok(_) => stop_with(
                    s,
                    PaletteStatusView::Error("daemon returned an unexpected clipboard response"@),
                    PaletteAnswerView::ClipboardRecorded(ClipboardRecordOutcome::CaptureDisabled),
                ),
                Err(IpcFailureView::Transport(e)) => fall_back(s, e, PaletteOpView::RecordClipboardText(text)),
                Err(IpcFailureView::Daemon(m)) => stop_with(
                    s,
                    PaletteStatusView::Error(m),
                    PaletteAnswerView::ClipboardRecorded(ClipboardRecordOutcome::CaptureDisabled),
                ),
            }
        } else {
            match x {
                Ok(IpcResponseView::ClipboardRecorded { outcome, .. }) => advance_spec(
                    s,
                    plan(true, true, None, PaletteAnswerView::ClipboardRecorded(outcome)),
                ),
                Err(IpcFailureView::Transport(e)) => fall_back(s, e, PaletteOpView::RecordClipboardTextInBackground(text)),
                _ => advance_spec(
                    s,
                    plan(false, true, None, PaletteAnswerView::ClipboardRecorded(ClipboardRecordOutcome::CaptureDisabled)),
                ),
            }
        },
        IpcWaitView::Clear => match x {
            Ok(IpcResponseView::ClipboardCleared { removed }) => advance_spec(
                s,
                plan(
                    true,
                    true,
                    Some(PaletteStatusView::Info("Cleared "@ + nat_digits(removed as nat) + " clipboard item(s)"@)),
                    PaletteAnswerView::ClipboardCleared(removed),
                ),
            ),
            Ok(_) => stop_with(
                s,
                PaletteStatusView::Error("daemon returned an unexpected clipboard clear response"@),
                PaletteAnswerView::ClipboardCleared(0),
            ),
            Err(IpcFailureView::Transport(e)) => fall_back(s, e, PaletteOpView::ClearClipboardHistory),
            Err(IpcFailureView::Daemon(m)) => stop_with(s, PaletteStatusView::Error(m), PaletteAnswerView::ClipboardCleared(0)),
        },
        IpcWaitView::Config { op, done } => match x {
            Ok(r) => {
                let (s2, ask_status) = config_applied(s, r);
                advance_spec(s2, plan(ask_status, true, Some(PaletteStatusView::Info(done)), PaletteAnswerView::Done))
            },
            Err(IpcFailureView::Transport(e)) => fall_back(s, e, op),
            Err(IpcFailureView::Daemon(m)) => stop_with(s, PaletteStatusView::Error(m), PaletteAnswerView::Done),
        },
        IpcWaitView::Execute { hide } => match x {
            Ok(IpcResponseView::Executed { message, .. }) => advance_spec(
                s,
                plan(
                    true,
                    false,
                    Some(PaletteStatusView::Info(message)),
                    PaletteAnswerView::Execution(PaletteExecutionView::Completed { hide_palette: hide }),
                ),
            ),
            Ok(_) => stop_with(
                s,
                PaletteStatusView::Error("daemon returned an unexpected execution response"@),
                PaletteAnswerView::Execution(PaletteExecutionView::Failed),
            ),
            Err(IpcFailureView::Transport(e)) => stop_with(
                disconnected(s, e),
                PaletteStatusView::Error("daemon IPC execution failed: "@ + e),
                PaletteAnswerView::Execution(PaletteExecutionView::Failed),
            ),
            Err(IpcFailureView::Daemon(m)) => stop_with(
                s,
                PaletteStatusView::Error(m),
                PaletteAnswerView::Execution(PaletteExecutionView::Failed),
            ),
        },
    }
}


impl PaletteState {
    fn disconnect_ipc_after_error(&mut self, error: &str)
        requires
            old(self).wf(),
        ensures
            final(self).wf(),
            final(self).snapshot() == disconnected(old(self).snapshot(), error@),
    {
        self.ipc_endpoint = None;
        self.ipc_status = None;
        self.daemon_connection = DaemonConnection::StartFailed(concat2("daemon IPC unavailable: ", error));
    }

    fn apply_ipc_status_response(&mut self, response: IpcResponse)
        requires
            old(self).wf(),
        ensures
            final(self).wf(),
            final(self).snapshot() == status_applied(old(self).snapshot(), response@),
    {
        match response {
            IpcResponse::Status {
                providers,
                config,
                provider_config: _,
                clipboard_capture_enabled,
                clipboard_history_len,
                recent_result_count,
                hotkey,
                local_state_path,
            } => {
                self.ipc_status = Some(IpcStatus {
                    providers,
                    config,
                    clipboard_capture_enabled,
                    clipboard_history_len,
                    recent_result_count,
                    hotkey,
                    local_state_path,
                });
            },
            _ => {},
        }
    }

    fn set_config_status(&mut self, providers: Vec<String>, config: Config, capture: bool)
        requires
            old(self).wf(),
        ensures
            final(self).wf(),
            final(self).snapshot() == with_new_config(old(self).snapshot(), providers.deep_view(), config@, capture),
    {
        let (history_len, recent_count, hotkey, local_state_path) = match &self.ipc_status {
            Some(previous) => (
                previous.clipboard_history_len,
                previous.recent_result_count,
                previous.hotkey.clone(),
                match &previous.local_state_path {
                    Some(p) => Some(p.clone()),
                    None => None,
                },
            ),
            None => (0, 0, lit("global hotkey disabled"), None),
        };
        self.ipc_status = Some(IpcStatus {
            providers,
            config,
            clipboard_capture_enabled: capture,
            clipboard_history_len: history_len,
            recent_result_count: recent_count,
            hotkey,
            local_state_path,
        });
    }

    fn apply_ipc_config_response(&mut self, response: IpcResponse) -> (ask_status: bool)
        requires
            old(self).wf(),
        ensures
            final(self).wf(),
            (final(self).snapshot(), ask_status) == config_applied(old(self).snapshot(), response@),
    {
        match response {
            IpcResponse::ConfigUpdated { providers, config, provider_config: _, clipboard_capture_enabled } => {
                self.set_config_status(providers, config, clipboard_capture_enabled);
                true
            },
            IpcResponse::Reloaded { providers, config, provider_config: _, clipboard_capture_enabled } => {
                self.set_config_status(providers, config, clipboard_capture_enabled);
                true
            },
            other => {
                self.apply_ipc_status_response(other);
                false
            },
        }
    }

    fn finish_plan(&mut self, plan: IpcPlan) -> (r: PaletteIpcStep)
        requires
            old(self).wf(),
        ensures
            final(self).wf(),
            (final(self).snapshot(), r@) == finished(old(self).snapshot(), plan_view(plan)),
    {
        let IpcPlan { status: _, refresh: _, final_status, answer } = plan;
        match final_status {
            Some(st) => {
                self.status = st;
            },
            None => {},
        }
        self.ipc_wait = IpcWait::Idle;
        PaletteIpcStep::Finished(answer)
    }

    fn refresh_and_finish(&mut self, plan: IpcPlan) -> (r: PaletteIpcStep)
        requires
            old(self).wf(),
        ensures
            final(self).wf(),
            (final(self).snapshot(), r@) == refresh_then_finish(old(self).snapshot(), plan_view(plan)),
    {
        if !plan.refresh {
            return self.finish_plan(plan);
        }
        let chars = chars_of(self.query.as_str());
        let trimmed = trim_chars(&chars);
        if trimmed.len() == 0 || self.ipc_endpoint.is_none() {
            self.refresh_results();
            return self.finish_plan(plan);
        }
        let query = self.query.clone();
        let IpcPlan { status: _, refresh: _, final_status, answer } = plan;
        self.ipc_wait = IpcWait::Search(IpcPlan { status: false, refresh: false, final_status, answer });
        PaletteIpcStep::Send(IpcRequest::Search { query, limit: None })
    }

    fn advance(&mut self, plan: IpcPlan) -> (r: PaletteIpcStep)
        requires
            old(self).wf(),
        ensures
            final(self).wf(),
            (final(self).snapshot(), r@) == advance_spec(old(self).snapshot(), plan_view(plan)),
    {
        if plan.status && self.ipc_endpoint.is_some() {
            let IpcPlan { status: _, refresh, final_status, answer } = plan;
            self.ipc_wait = IpcWait::Status(IpcPlan { status: false, refresh, final_status, answer });
            return PaletteIpcStep::Send(IpcRequest::Status);
        }
        self.refresh_and_finish(plan)
    }

    fn stop_with(&mut self, status: PaletteStatus, answer: PaletteAnswer) -> (r: PaletteIpcStep)
        requires
            old(self).wf(),
        ensures
            final(self).wf(),
            (final(self).snapshot(), r@) == stop_with(old(self).snapshot(), status@, answer@),
    {
        self.status = status;
        self.ipc_wait = IpcWait::Idle;
        PaletteIpcStep::Finished(answer)
    }

    fn fall_back(&mut self, error: &str, op: PaletteOp) -> (r: PaletteIpcStep)
        requires
            old(self).wf(),
        ensures
            final(self).wf(),
            (final(self).snapshot(), r@) == fall_back(old(self).snapshot(), error@, op@),
    {
        self.disconnect_ipc_after_error(error);
        self.ipc_wait = IpcWait::Idle;
        PaletteIpcStep::InProcess(op)
    }
}


impl PaletteState {
    fn begin_execute(&mut self, confirmed: bool) -> (r: PaletteIpcStep)
        requires
            old(self).wf(),
        ensures
            final(self).wf(),
            (final(self).snapshot(), r@) == execute_begin_spec(old(self).snapshot(), confirmed),
    {
        let index = match self.selected {
            Some(i) => i,
            None => {
                if confirmed {
                    self.pending_shell_confirmation = None;
                }
                return self.stop_with(
                    PaletteStatus::Info(lit("No result selected")),
                    PaletteAnswer::Execution(PaletteExecution::NoSelection),
                );
            },
        };
        if index >= self.results.len() {
            if confirmed {
                self.pending_shell_confirmation = None;
            }
            self.selected = None;
            return self.stop_with(
                PaletteStatus::Error(lit("Selected result is unavailable")),
                PaletteAnswer::Execution(PaletteExecution::SelectedUnavailable),
            );
        }
        let result = self.results[index].result.clone();
        if !confirmed {
            match result.primary_action() {
                Action::RunShell { command } => {
                    let command = command.clone();
                    self.pending_shell_confirmation = Some(
                        PendingShellConfirmation { result_id: result.id.clone(), command: command.clone() },
                    );
                    return self.stop_with(
                        PaletteStatus::Info(lit("Confirm shell command before running")),
                        PaletteAnswer::Execution(PaletteExecution::NeedsShellConfirmation { command }),
                    );
                },
                _ => {},
            }
            self.pending_shell_confirmation = None;
            let hide = action_hides_palette_after_success(result.primary_action());
            self.ipc_wait = IpcWait::Execute { hide };
            return PaletteIpcStep::Send(IpcRequest::ExecuteResult { result, allow_shell: false });
        }
        let command = match result.primary_action() {
            Action::RunShell { command } => command.clone(),
            _ => {
                self.pending_shell_confirmation = None;
                return self.stop_with(
                    PaletteStatus::Error(lit("Selected result is not a shell command")),
                    PaletteAnswer::Execution(PaletteExecution::SelectedUnavailable),
                );
            },
        };
        let matches = match &self.pending_shell_confirmation {
            None => {
                return self.stop_with(
                    PaletteStatus::Error(lit("Shell confirmation expired; select the command again")),
                    PaletteAnswer::Execution(PaletteExecution::Blocked),
                );
            },
            Some(pending) => pending.result_id == result.id && pending.command == command,
        };
        self.pending_shell_confirmation = None;
        if !matches {
            return self.stop_with(
                PaletteStatus::Error(lit("Shell confirmation no longer matches the selected command")),
                PaletteAnswer::Execution(PaletteExecution::Blocked),
            );
        }
        self.ipc_wait = IpcWait::Execute { hide: false };
        PaletteIpcStep::Send(IpcRequest::ExecuteResult { result, allow_shell: true })
    }

    /// Start a palette operation. With no daemon process connected the
    /// operation is handed back to run in process; otherwise the palette
    /// does what it can itself and asks the daemon with a request, whose
    /// outcome goes to [`PaletteState::answer_operation`].
    pub fn begin_operation(&mut self, op: PaletteOp) -> (r: PaletteIpcStep)
        requires
            old(self).wf(),
        ensures
            confirmation_step(old(self).snapshot(), final(self).snapshot()),
            final(self).wf(),
            (final(self).snapshot(), r@) == begin_spec(old(self).snapshot(), op@),
    {
        if self.ipc_endpoint.is_none() {
            return PaletteIpcStep::InProcess(op);
        }
        match op {
            PaletteOp::SetQuery(q) => {
                self.pending_shell_confirmation = None;
                self.query = q;
                self.refresh_and_finish(IpcPlan { status: false, refresh: true, final_status: None, answer: PaletteAnswer::Done })
            },
            PaletteOp::RecordClipboardText(t) => {
                self.pending_shell_confirmation = None;
                let request = IpcRequest::RecordClipboardText { text: t.clone() };
                self.ipc_wait = IpcWait::Record { text: t, background: false };
                PaletteIpcStep::Send(request)
            },
            PaletteOp::RecordClipboardTextInBackground(t) => {
                let request = IpcRequest::RecordClipboardText { text: t.clone() };
                self.ipc_wait = IpcWait::Record { text: t, background: true };
                PaletteIpcStep::Send(request)
            },
            PaletteOp::ClearClipboardHistory => {
                self.pending_shell_confirmation = None;
                self.ipc_wait = IpcWait::Clear;
                PaletteIpcStep::Send(IpcRequest::ClearClipboardHistory)
            },
            PaletteOp::SetProviderEnabled { provider_id, enabled } => {
                let request = IpcRequest::SetProviderEnabled { provider_id: provider_id.clone(), enabled };
                self.ipc_wait = IpcWait::Config {
                    op: PaletteOp::SetProviderEnabled { provider_id, enabled },
                    done: lit("Config updated"),
                };
                PaletteIpcStep::Send(request)
            },
            PaletteOp::SetClipboardCapture { enabled } => {
                self.ipc_wait = IpcWait::Config {
                    op: PaletteOp::SetClipboardCapture { enabled },
                    done: lit("Clipboard capture setting updated"),
                };
                PaletteIpcStep::Send(IpcRequest::SetClipboardCapture { enabled })
            },
            PaletteOp::ReloadConfig => {
                self.pending_shell_confirmation = None;
                self.ipc_wait = IpcWait::Config { op: PaletteOp::ReloadConfig, done: lit("Config reloaded") };
                PaletteIpcStep::Send(IpcRequest::ReloadConfig)
            },
            PaletteOp::ExecuteSelected => self.begin_execute(false),
            PaletteOp::ExecuteConfirmedShell => self.begin_execute(true),
        }
    }

    fn answer_search(&mut self, plan: IpcPlan, answer: Result<IpcResponse, IpcFailure>) -> (r: PaletteIpcStep)
        requires
            old(self).wf(),
        ensures
            final(self).wf(),
            (final(self).snapshot(), r@) == answer_spec(
                PaletteView { wait: IpcWaitView::Search(plan_view(plan)), ..old(self).snapshot() },
                exchange_view(answer),
            ),
    {
        match answer {
            Ok(IpcResponse::Search { results }) => {
                self.selected = if results.len() == 0 { None } else { Some(0) };
                self.results = results;
                self.status = PaletteStatus::Ready;
            },
            Ok(_) => {
                self.results = Vec::new();
                self.selected = None;
                self.status = PaletteStatus::Error(lit("daemon returned an unexpected search response"));
                proof {
                    assert(self.results_view() =~= Seq::<RankedView>::empty());
                }
            },
            Err(IpcFailure::Transport(e)) => {
                self.disconnect_ipc_after_error(e.as_str());
                self.refresh_results();
            },
            Err(IpcFailure::Daemon(m)) => {
                self.results = Vec::new();
                self.selected = None;
                self.status = PaletteStatus::Error(m);
                proof {
                    assert(self.results_view() =~= Seq::<RankedView>::empty());
                }
            },
        }
        self.finish_plan(plan)
    }

    /// Take what came of the request the palette is waiting for, and say
    /// what comes next.
    pub fn answer_operation(&mut self, answer: Result<IpcResponse, IpcFailure>) -> (r: PaletteIpcStep)
        requires
            old(self).wf(),
        ensures
            confirmation_step(old(self).snapshot(), final(self).snapshot()),
            final(self).wf(),
            (final(self).snapshot(), r@) == answer_spec(old(self).snapshot(), exchange_view(answer)),
    {
        let mut wait = IpcWait::Idle;
        std::mem::swap(&mut wait, &mut self.ipc_wait);
        match wait {
            IpcWait::Idle => PaletteIpcStep::Finished(PaletteAnswer::Done),
            IpcWait::Search(plan) => self.answer_search(plan, answer),
            IpcWait::Status(plan) => {
                match answer {
                    Ok(response) => self.apply_ipc_status_response(response),
                    Err(IpcFailure::Transport(e)) => self.disconnect_ipc_after_error(e.as_str()),
                    Err(IpcFailure::Daemon(m)) => {
                        self.status = PaletteStatus::Error(m);
                    },
                }
                self.refresh_and_finish(plan)
            },
            IpcWait::Record { text, background } => {
                if !background {
                    match answer {
                        Ok(IpcResponse::ClipboardRecorded { outcome, message }) => self.advance(IpcPlan {
                            status: true,
                            refresh: true,
                            final_status: Some(PaletteStatus::Info(message)),
                            answer: PaletteAnswer::ClipboardRecorded(outcome),
                        }),
                        Ok(_) => self.stop_with(
                            PaletteStatus::Error(lit("daemon returned an unexpected clipboard response")),
                            PaletteAnswer::ClipboardRecorded(ClipboardRecordOutcome::CaptureDisabled),
                        ),
                        Err(IpcFailure::Transport(e)) => self.fall_back(e.as_str(), PaletteOp::RecordClipboardText(text)),
                        Err(IpcFailure::Daemon(m)) => self.stop_with(
                            PaletteStatus::Error(m),
                            PaletteAnswer::ClipboardRecorded(ClipboardRecordOutcome::CaptureDisabled),
                        ),
                    }
                } else {
                    match answer {
                        Ok(IpcResponse::ClipboardRecorded { outcome, .. }) => self.advance(IpcPlan {
                            status: true,
                            refresh: true,
                            final_status: None,
                            answer: PaletteAnswer::ClipboardRecorded(outcome),
                        }),
                        Err(IpcFailure::Transport(e)) => self.fall_back(
                            e.as_str(),
                            PaletteOp::RecordClipboardTextInBackground(text),
                        ),
                        _ => self.advance(IpcPlan {
                            status: false,
                            refresh: true,
                            final_status: None,
                            answer: PaletteAnswer::ClipboardRecorded(ClipboardRecordOutcome::CaptureDisabled),
                        }),
                    }
                }
            },
            IpcWait::Clear => match answer {
                Ok(IpcResponse::ClipboardCleared { removed }) => {
                    let digits = usize_to_decimal(removed);
                    let mut message = concat2("Cleared ", digits.as_str());
                    append_str(&mut message, " clipboard item(s)");
                    self.advance(IpcPlan {
                        status: true,
                        refresh: true,
                        final_status: Some(PaletteStatus::Info(message)),
                        answer: PaletteAnswer::ClipboardCleared(removed),
                    })
                },
                Ok(_) => self.stop_with(
                    PaletteStatus::Error(lit("daemon returned an unexpected clipboard clear response")),
                    PaletteAnswer::ClipboardCleared(0),
                ),
                Err(IpcFailure::Transport(e)) => self.fall_back(e.as_str(), PaletteOp::ClearClipboardHistory),
                Err(IpcFailure::Daemon(m)) => self.stop_with(PaletteStatus::Error(m), PaletteAnswer::ClipboardCleared(0)),
            },
            IpcWait::Config { op, done } => match answer {
                Ok(response) => {
                    let ask_status = self.apply_ipc_config_response(response);
                    self.advance(IpcPlan {
                        status: ask_status,
                        refresh: true,
                        final_status: Some(PaletteStatus::Info(done)),
                        answer: PaletteAnswer::Done,
                    })
                },
                Err(IpcFailure::Transport(e)) => self.fall_back(e.as_str(), op),
                Err(IpcFailure::Daemon(m)) => self.stop_with(PaletteStatus::Error(m), PaletteAnswer::Done),
            },
            IpcWait::Execute { hide } => match answer {
                Ok(IpcResponse::Executed { message, .. }) => self.advance(IpcPlan {
                    status: true,
                    refresh: false,
                    final_status: Some(PaletteStatus::Info(message)),
                    answer: PaletteAnswer::Execution(PaletteExecution::Completed { hide_palette: hide }),
                }),
                Ok(_) => self.stop_with(
                    PaletteStatus::Error(lit("daemon returned an unexpected execution response")),
                    PaletteAnswer::Execution(PaletteExecution::Failed),
                ),
                Err(IpcFailure::Transport(e)) => {
                    self.disconnect_ipc_after_error(e.as_str());
                    self.stop_with(
                        PaletteStatus::Error(concat2("daemon IPC execution failed: ", e.as_str())),
                        PaletteAnswer::Execution(PaletteExecution::Failed),
                    )
                },
                Err(IpcFailure::Daemon(m)) => self.stop_with(
                    PaletteStatus::Error(m),
                    PaletteAnswer::Execution(PaletteExecution::Failed),
                ),
            },
        }
    }
}


/// Why starting a daemon process failed.
#[derive(Debug, PartialEq, Eq)]
pub enum DaemonStartFailure {
    ExecutableNotFound,
    /// Any other failure, as described.
    Failed(String),
}

pub open spec fn failure_text(f: IpcFailureView) -> Seq<char> {
    match f {
        IpcFailureView::Transport(m) => m,
        IpcFailureView::Daemon(m) => m,
    }
}

/// The palette connected to the daemon process at `endpoint`, which
/// answered the status request with `response`.
pub open spec fn connected_to(s: PaletteView, endpoint: &IpcEndpoint, response: IpcResponseView) -> PaletteView {
    status_applied(
        PaletteView {
            endpoint: Some((endpoint.address@, endpoint.token@, endpoint.pid)),
            connection: DaemonConnectionView::Connected,
            ..s
        },
        response,
    )
}

impl PaletteState {
    /// Connect to the daemon process at `endpoint`, given what came of
    /// asking it for its status: only a response connects.
    pub fn connect_ipc(&mut self, endpoint: IpcEndpoint, status: Result<IpcResponse, IpcFailure>) -> (connected: bool)
        requires
            old(self).wf(),
        ensures
            confirmation_step(old(self).snapshot(), final(self).snapshot()),
            final(self).wf(),
            match status {
                Ok(response) => connected && final(self).snapshot() == connected_to(old(self).snapshot(), &endpoint, response@),
                Err(_) => !connected && final(self).snapshot() == old(self).snapshot(),
            },
    {
        match status {
            Ok(response) => {
                self.ipc_endpoint = Some(endpoint);
                self.daemon_connection = DaemonConnection::Connected;
                self.apply_ipc_status_response(response);
                true
            },
            Err(_) => false,
        }
    }

    /// Take how starting a daemon process went: the endpoint it listens on
    /// and what came of asking it for its status, or why it did not start.
    /// A status response connects; anything else is remembered as the
    /// reason the palette stays in process.
    pub fn apply_daemon_start(&mut self, started: Result<(IpcEndpoint, Result<IpcResponse, IpcFailure>), DaemonStartFailure>)
        requires
            old(self).wf(),
        ensures
            confirmation_step(old(self).snapshot(), final(self).snapshot()),
            final(self).wf(),
            match started {
                Ok((endpoint, Ok(response))) => final(self).snapshot() == connected_to(old(self).snapshot(), &endpoint, response@),
                Ok((_, Err(f))) => final(self).snapshot() == (PaletteView {
                    connection: DaemonConnectionView::StartFailed("daemon status failed: "@ + failure_text(f@)),
                    ..old(self).snapshot()
                }),
                Err(DaemonStartFailure::ExecutableNotFound) => final(self).snapshot() == (PaletteView {
                    connection: DaemonConnectionView::StartUnavailable("daemon executable not found"@),
                    ..old(self).snapshot()
                }),
                Err(DaemonStartFailure::Failed(m)) => final(self).snapshot() == (PaletteView {
                    connection: DaemonConnectionView::StartFailed(m@),
                    ..old(self).snapshot()
                }),
            },
    {
        match started {
            Ok((endpoint, Ok(response))) => {
                self.ipc_endpoint = Some(endpoint);
                self.daemon_connection = DaemonConnection::Connected;
                self.apply_ipc_status_response(response);
            },
            Ok((_, Err(f))) => {
                let text = f.message();
                self.daemon_connection = DaemonConnection::StartFailed(concat2("daemon status failed: ", text.as_str()));
            },
            Err(DaemonStartFailure::ExecutableNotFound) => {
                self.daemon_connection = DaemonConnection::StartUnavailable(lit("daemon executable not found"));
            },
            Err(DaemonStartFailure::Failed(m)) => {
                self.daemon_connection = DaemonConnection::StartFailed(m);
            },
        }
    }
}


/// A connection that failed is not used again: whatever answer the palette
/// was waiting for, a transport failure leaves it without a daemon
/// connection.
pub proof fn law_transport_failure_disconnects(s: PaletteView, error: Seq<char>)
    requires
        !(s.wait is Idle),
    ensures
        answer_spec(s, Err(IpcFailureView::Transport(error))).0.endpoint is None,
        answer_spec(s, Err(IpcFailureView::Transport(error))).0.connection
            == DaemonConnectionView::StartFailed("daemon IPC unavailable: "@ + error),
{
}

/// Without a daemon connection every operation runs in process, and the
/// palette is left as it was.
pub proof fn law_unconnected_operations_run_in_process(s: PaletteView, op: PaletteOpView)
    requires
        s.endpoint is None,
    ensures
        begin_spec(s, op) == (s, PaletteIpcStepView::InProcess(op)),
{
}


/// The selection direction named by the palette window: `previous` or
/// `next`.
pub fn selection_direction(direction: &str) -> (r: Result<SelectionDirection, String>)
    ensures
        direction@ == "previous"@ ==> r == Ok::<SelectionDirection, String>(SelectionDirection::Previous),
        direction@ == "next"@ ==> r == Ok::<SelectionDirection, String>(SelectionDirection::Next),
        direction@ != "previous"@ && direction@ != "next"@ ==> (r matches Err(e) && e@ == "unknown selection direction: "@ + direction@),
{
    proof {
        reveal_strlit("previous");
        reveal_strlit("next");
        assert("next"@.len() != "previous"@.len());
    }
    let d = lit(direction);
    if d == lit("previous") {
        Ok(SelectionDirection::Previous)
    } else if d == lit("next") {
        Ok(SelectionDirection::Next)
    } else {
        Err(concat2("unknown selection direction: ", direction))
    }
}

/// The status after copying a clipboard entry back to the system clipboard;
/// it gives the size, not the text.
pub fn copied_clipboard_message(text: &str) -> (s: String)
    ensures
        s@ == "Copied "@ + nat_digits(crate::text::utf8_len(text@) as usize as nat) + " bytes from clipboard history"@,
{
    let n = crate::text::byte_len(text);
    let digits = usize_to_decimal(n);
    let mut s = concat2("Copied ", digits.as_str());
    append_str(&mut s, " bytes from clipboard history");
    s
}


/// The shell command the selection points at, with its result's ID: what
/// executing the selection asks to confirm.
pub open spec fn selected_shell(v: PaletteView) -> Option<(Seq<char>, Seq<char>)> {
    match v.selected {
        Some(i) => if (i as int) < v.results.len() {
            match primary_action_spec(v.results[i as int].result) {
                ActionView::RunShell { command } => Some((v.results[i as int].result.id, command)),
                _ => None,
            }
        } else {
            None
        },
        None => None,
    }
}

/// What one palette call may do to the pending shell confirmation: drop it,
/// keep it, or take it from the current selection.
pub open spec fn confirmation_step(a: PaletteView, b: PaletteView) -> bool {
    ||| b.pending_shell is None
    ||| b.pending_shell == a.pending_shell
    ||| b.pending_shell == selected_shell(a)
}

/// Across palette calls (each a `confirmation_step`, as every public method
/// ensures) starting without a pending confirmation, as every constructor
/// leaves the palette: a pending confirmation was taken from the selected
/// shell command of an earlier state and has been carried unchanged since.
pub proof fn law_confirmation_comes_from_selection(states: Seq<PaletteView>)
    requires
        states.len() > 0,
        states[0].pending_shell is None,
        forall|k: int| 0 <= k < states.len() - 1 ==> confirmation_step(#[trigger] states[k], states[k + 1]),
    ensures
        states.last().pending_shell is Some ==> exists|k: int| 0 <= k < states.len() - 1 && #[trigger] selected_shell(states[k]) == states.last().pending_shell
            && forall|j: int| k < j < states.len() ==> #[trigger] states[j].pending_shell == states.last().pending_shell,
    decreases states.len(),
{
    let n = states.len();
    if n > 1 && states.last().pending_shell is Some {
        let p = states.drop_last();
        assert forall|k: int| 0 <= k < p.len() - 1 implies confirmation_step(#[trigger] p[k], p[k + 1]) by {
            assert(p[k] == states[k] && p[k + 1] == states[k + 1]);
            assert(confirmation_step(states[k], states[k + 1]));
        }
        assert(confirmation_step(states[n - 2], states[n - 1]));
        if states.last().pending_shell == selected_shell(states[n - 2]) {
            assert forall|j: int| n - 2 < j < n implies #[trigger] states[j].pending_shell == states.last().pending_shell by {
                assert(j == n - 1);
            }
        } else {
            assert(states.last().pending_shell == states[n - 2].pending_shell);
            law_confirmation_comes_from_selection(p);
            assert(p.last() == states[n - 2]);
            let k = choose|k: int| 0 <= k < p.len() - 1 && #[trigger] selected_shell(p[k]) == p.last().pending_shell
                && forall|j: int| k < j < p.len() ==> #[trigger] p[j].pending_shell == p.last().pending_shell;
            assert(p[k] == states[k]);
            assert forall|j: int| k < j < n implies #[trigger] states[j].pending_shell == states.last().pending_shell by {
                if j < n - 1 {
                    assert(p[j] == states[j]);
                }
            }
        }
    }
}
} // verus!
