//! Local daemon state shared by the command line, the palette and the IPC
//! server: configuration, provider registry, clipboard history, recency and
//! the action execution policy.

use vstd::prelude::*;

use crate::config::{Config, ConfigView};
use crate::hotkey::{
    hotkey_error_text, hotkey_loop_error_text, hotkey_state_spec, run_hotkey_loop, HotkeyError,
    HotkeyErrorView, HotkeyLoopError, HotkeyLoopStep, HotkeyState, HotkeyStateView,
    run_hotkey_loop_spec,
};
use crate::plugin_api::{
    complete_effect, effect_result_spec, primary_action_spec, report_fits, step_result_view,
    Action, ActionEffect, ActionOutcome, ActionView, EffectReport, ExecutionStep, PluginError,
    PluginErrorView, ResultKind, SearchResult, SearchResultView, StepView,
};
use crate::providers::app::{
    provider_apps_spec, provider_status_spec, report_spec, unindexed_sources, AppIndexReport,
    AppIndexReportView, AppLauncherProvider, AppSources, AppSourcesView,
};
use crate::providers::{
    builtin_views, enabled_ids_spec, enabled_providers_spec, lemma_registry_by_views,
    registry_with_history, views_execute_spec, views_search_spec, BuiltinProvider,
};
use crate::ranking::{
    insert_ranked_exec, ranked_view, sort_ranked, RankedResult, RankedView,
};
use crate::registry::{
    core_error_text, registry_execute_spec, registry_search_spec, CoreError, CoreErrorView,
    ProviderRegistry,
};
use crate::text::{append_str, byte_len, chars_of, concat2, lit, trim_chars, trim_seq, utf8_len};

verus! {

/// How many executed results are remembered for ranking.
pub const RECENT_RESULT_LIMIT: usize = 25;
/// Score added to the most recent result; each older one gets one less.
pub const RECENT_RESULT_SCORE_BOOST: i64 = 90;
/// Version written into saved local state.
pub const LOCAL_STATE_VERSION: u32 = 1;

/// Errors of the daemon state.
#[derive(Debug, PartialEq, Eq)]
pub enum DaemonError {
    Core(CoreError),
    Hotkey(HotkeyError),
    HotkeyLoop(HotkeyLoopError),
    StateRead { path: String, detail: String },
    StateParse { path: String, detail: String },
    StateSerialize { path: String, detail: String },
    StateWrite { path: String, detail: String },
    UnknownProvider(String),
    ShellCommandBlocked,
}

pub open spec fn daemon_error_text(e: DaemonError) -> Seq<char> {
    match e {
        DaemonError::Core(c) => core_error_text(c@),
        DaemonError::Hotkey(h) => hotkey_error_text(h@),
        DaemonError::HotkeyLoop(h) => hotkey_loop_error_text(h),
        DaemonError::StateRead { path, detail } => "failed to read local state at "@ + path@ + ": "@ + detail@,
        DaemonError::StateParse { path, detail } => "failed to parse local state at "@ + path@ + ": "@ + detail@,
        DaemonError::StateSerialize { path, detail } => "failed to serialize local state for "@ + path@ + ": "@ + detail@,
        DaemonError::StateWrite { path, detail } => "failed to write local state at "@ + path@ + ": "@ + detail@,
        DaemonError::UnknownProvider(p) => "unknown provider: "@ + p@,
        DaemonError::ShellCommandBlocked => "refusing to run shell command without explicit permission"@,
    }
}

fn join4(a: &str, b: &str, c: &str, d: &str) -> (r: String)
    ensures
        r@ == a@ + b@ + c@ + d@,
{
    let mut r = concat2(a, b);
    append_str(&mut r, c);
    append_str(&mut r, d);
    r
}

impl DaemonError {
    /// The human-readable error text.
    pub fn message(&self) -> (s: String)
        ensures
            s@ == daemon_error_text(*self),
    {
        match self {
            DaemonError::Core(c) => c.message(),
            DaemonError::Hotkey(h) => h.message(),
            DaemonError::HotkeyLoop(h) => h.message(),
            DaemonError::StateRead { path, detail } => join4("failed to read local state at ", path.as_str(), ": ", detail.as_str()),
            DaemonError::StateParse { path, detail } => join4("failed to parse local state at ", path.as_str(), ": ", detail.as_str()),
            DaemonError::StateSerialize { path, detail } => join4("failed to serialize local state for ", path.as_str(), ": ", detail.as_str()),
            DaemonError::StateWrite { path, detail } => join4("failed to write local state at ", path.as_str(), ": ", detail.as_str()),
            DaemonError::UnknownProvider(p) => concat2("unknown provider: ", p.as_str()),
            DaemonError::ShellCommandBlocked => lit("refusing to run shell command without explicit permission"),
        }
    }
}

/// Policy for executing actions that can have local side effects.
#[derive(Debug, Clone, Copy, PartialEq, Eq, Structural)]
pub enum ActionExecutionPolicy {
    /// Allow app launches, no-op actions and copy actions, but block shell commands.
    BlockShellCommands,
    /// Allow shell commands after the caller has made that permission explicit.
    AllowShellCommands,
}

/// Where the configuration came from, which decides how it is reloaded.
#[derive(Debug, PartialEq, Eq)]
pub enum ConfigSource {
    Default,
    Path(String),
    Provided,
}

pub enum ConfigSourceView {
    Default,
    Path(Seq<char>),
    Provided,
}

impl View for ConfigSource {
    type V = ConfigSourceView;

    open spec fn view(&self) -> ConfigSourceView {
        match self {
            ConfigSource::Default => ConfigSourceView::Default,
            ConfigSource::Path(p) => ConfigSourceView::Path(p@),
            ConfigSource::Provided => ConfigSourceView::Provided,
        }
    }
}

impl Clone for ConfigSource {
    fn clone(&self) -> (r: Self)
        ensures
            r@ == self@,
    {
        match self {
            ConfigSource::Default => ConfigSource::Default,
            ConfigSource::Path(p) => ConfigSource::Path(p.clone()),
            ConfigSource::Provided => ConfigSource::Provided,
        }
    }
}

/// What recording one clipboard text did.
#[derive(Debug, Clone, Copy, PartialEq, Eq, Structural)]
pub enum ClipboardRecordOutcome {
    Stored,
    CaptureDisabled,
    ProviderDisabled,
    RetentionDisabled,
    IgnoredEmpty,
    IgnoredTooLarge { byte_count: usize, max_bytes: usize },
}

/// The part of the daemon state that is saved between runs.
#[derive(Debug, PartialEq, Eq)]
pub struct LocalState {
    pub version: u32,
    pub clipboard_history: Vec<String>,
    pub recent_result_ids: Vec<String>,
}

pub struct LocalStateView {
    pub version: u32,
    pub clipboard_history: Seq<Seq<char>>,
    pub recent_result_ids: Seq<Seq<char>>,
}

impl View for LocalState {
    type V = LocalStateView;

    open spec fn view(&self) -> LocalStateView {
        LocalStateView {
            version: self.version,
            clipboard_history: self.clipboard_history.deep_view(),
            recent_result_ids: self.recent_result_ids.deep_view(),
        }
    }
}

impl Default for LocalState {
    fn default() -> (r: Self)
        ensures
            r@ == (LocalStateView { version: 0, clipboard_history: Seq::empty(), recent_result_ids: Seq::empty() }),
    {
        let r = LocalState { version: 0, clipboard_history: Vec::new(), recent_result_ids: Vec::new() };
        proof {
            assert(r.clipboard_history.deep_view() =~= Seq::<Seq<char>>::empty());
            assert(r.recent_result_ids.deep_view() =~= Seq::<Seq<char>>::empty());
        }
        r
    }
}

/// `s` without the entries equal to `x`, in order.
pub open spec fn without(s: Seq<Seq<char>>, x: Seq<char>) -> Seq<Seq<char>>
    decreases s.len(),
{
    if s.len() == 0 {
        s
    } else {
        let p = without(s.drop_last(), x);
        if s.last() == x { p } else { p.push(s.last()) }
    }
}

/// The entries of `s` whose UTF-8 encoding takes at most `max` bytes.
pub open spec fn within_bytes(s: Seq<Seq<char>>, max: usize) -> Seq<Seq<char>>
    decreases s.len(),
{
    if s.len() == 0 {
        s
    } else {
        let p = within_bytes(s.drop_last(), max);
        if utf8_len(s.last()) as usize <= max { p.push(s.last()) } else { p }
    }
}

/// The first `n` entries of `s`, or all of them when there are fewer.
pub open spec fn at_most<A>(s: Seq<A>, n: nat) -> Seq<A> {
    if s.len() <= n { s } else { s.take(n as int) }
}

/// The clipboard history a configuration keeps: none while the clipboard
/// provider or capture is off, otherwise the entries that fit the byte limit,
/// cut to the entry limit.
pub open spec fn apply_clipboard_config_spec(history: Seq<Seq<char>>, config: ConfigView) -> Seq<Seq<char>> {
    if !config.providers.clipboard || !config.clipboard.capture {
        Seq::empty()
    } else {
        at_most(within_bytes(history, config.clipboard.max_entry_bytes), config.clipboard.max_entries as nat)
    }
}

/// What recording `text` gives: the outcome and the new history.
pub open spec fn record_clipboard_spec(config: ConfigView, history: Seq<Seq<char>>, text: Seq<char>) -> (ClipboardRecordOutcome, Seq<Seq<char>>) {
    if !config.providers.clipboard {
        (ClipboardRecordOutcome::ProviderDisabled, history)
    } else if !config.clipboard.capture {
        (ClipboardRecordOutcome::CaptureDisabled, history)
    } else if config.clipboard.max_entries == 0 {
        (ClipboardRecordOutcome::RetentionDisabled, history)
    } else if trim_seq(text).len() == 0 {
        (ClipboardRecordOutcome::IgnoredEmpty, history)
    } else if history.len() > 0 && history[0] == text {
        (ClipboardRecordOutcome::Stored, history)
    } else if utf8_len(text) as usize > config.clipboard.max_entry_bytes {
        (ClipboardRecordOutcome::IgnoredTooLarge {
            byte_count: utf8_len(text) as usize,
            max_bytes: config.clipboard.max_entry_bytes,
        }, history)
    } else {
        (ClipboardRecordOutcome::Stored, at_most(seq![text] + without(history, text), config.clipboard.max_entries as nat))
    }
}

/// The key under which an executed result is remembered: `provider:id`.
pub open spec fn identity_spec(r: SearchResultView) -> Seq<char> {
    r.provider + ":"@ + r.id
}

/// Position of the first entry equal to `x`.
pub open spec fn first_index(s: Seq<Seq<char>>, x: Seq<char>) -> Option<int>
    decreases s.len(),
{
    if s.len() == 0 {
        None
    } else if s[0] == x {
        Some(0)
    } else {
        match first_index(s.drop_first(), x) {
            Some(i) => Some(i + 1),
            None => None,
        }
    }
}

/// The recency list after `r` was executed: clipboard results are not
/// remembered; anything else moves to the front, and the list keeps at most
/// `RECENT_RESULT_LIMIT` entries.
pub open spec fn record_recent_spec(recent: Seq<Seq<char>>, r: SearchResultView) -> Seq<Seq<char>> {
    if r.kind == ResultKind::Clipboard {
        recent
    } else {
        let id = identity_spec(r);
        at_most(seq![id] + without(recent, id), RECENT_RESULT_LIMIT as nat)
    }
}

/// The boost a result gets from its place in the recency list.
pub open spec fn boost_one(r: RankedView, recent: Seq<Seq<char>>) -> RankedView {
    match first_index(recent, identity_spec(r.result)) {
        Some(p) => RankedView {
            result: r.result,
            score: r.score.wrapping_add(RECENT_RESULT_SCORE_BOOST.wrapping_sub((p as usize) as i64)),
        },
        None => r,
    }
}

/// Boost recently executed results and order everything again; with no
/// recency the results stay as they are.
pub open spec fn recency_boost_spec(rs: Seq<RankedView>, recent: Seq<Seq<char>>) -> Seq<RankedView> {
    if recent.len() == 0 {
        rs
    } else {
        sort_ranked(rs.map_values(|r: RankedView| boost_one(r, recent)))
    }
}

/// What a daemon search answers: the registry is asked for `limit` plus one
/// result per remembered entry, the recency boost is applied and the list is
/// cut to `limit` (the configured maximum when none is given).
pub open spec fn daemon_search_spec(
    config: ConfigView,
    sources: AppSourcesView,
    history: Seq<Seq<char>>,
    recent: Seq<Seq<char>>,
    query: Seq<char>,
    limit: Option<usize>,
) -> Result<Seq<RankedView>, CoreErrorView> {
    let l = match limit {
        Some(l) => l,
        None => config.general.max_results,
    };
    let sl: usize = if l + recent.len() > usize::MAX { usize::MAX } else { (l + recent.len()) as usize };
    match views_search_spec(enabled_providers_spec(config, sources, history), query, sl) {
        Err(e) => Err(e),
        Ok(v) => Ok(at_most(recency_boost_spec(v, recent), l as nat)),
    }
}

/// What executing a result through the daemon's providers gives back, before
/// any outside work.
pub open spec fn daemon_execute_spec(config: ConfigView, sources: AppSourcesView, history: Seq<Seq<char>>, result: SearchResultView) -> Result<StepView, CoreErrorView> {
    views_execute_spec(enabled_providers_spec(config, sources, history), result.provider, result.action)
}

/// The app index report the daemon keeps for a configuration and the apps
/// the platform offers.
pub open spec fn runtime_report_spec(config: ConfigView, sources: AppSourcesView) -> Option<AppIndexReportView> {
    if config.providers.apps {
        Some(report_spec(provider_apps_spec(config.apps, sources.index, sources.known), provider_status_spec(sources.index)))
    } else {
        None
    }
}

/// Whether an action is blocked by a policy: shell commands need explicit
/// permission.
pub open spec fn blocked_spec(action: ActionView, policy: ActionExecutionPolicy) -> bool {
    action is RunShell && policy == ActionExecutionPolicy::BlockShellCommands
}

/// Whether a policy refuses a result: it is refused when either the action
/// it names as primary or the action it dispatches is a blocked shell
/// command.
pub open spec fn result_blocked_spec(result: SearchResultView, policy: ActionExecutionPolicy) -> bool {
    blocked_spec(primary_action_spec(result), policy) || blocked_spec(result.action, policy)
}

fn without_exec(v: &Vec<String>, x: &String) -> (r: Vec<String>)
    ensures
        r.deep_view() == without(v.deep_view(), x@),
{
    let mut out: Vec<String> = Vec::new();
    let mut i: usize = 0;
    proof {
        assert(v.deep_view().take(0) =~= Seq::<Seq<char>>::empty());
        assert(out.deep_view() =~= Seq::<Seq<char>>::empty());
    }
    while i < v.len()
        invariant
            i <= v@.len(),
            out.deep_view() == without(v.deep_view().take(i as int), x@),
        decreases v@.len() - i,
    {
        let ghost before = out.deep_view();
        proof {
            assert(v.deep_view().take(i + 1).drop_last() =~= v.deep_view().take(i as int));
            assert(v.deep_view().take(i + 1).last() == v@[i as int]@);
        }
        if v[i] != *x {
            out.push(v[i].clone());
            proof {
                assert(out.deep_view() =~= before.push(v@[i as int]@));
            }
        }
        i += 1;
    }
    proof {
        assert(v.deep_view().take(v@.len() as int) =~= v.deep_view());
    }
    out
}

fn within_bytes_exec(v: &Vec<String>, max: usize) -> (r: Vec<String>)
    ensures
        r.deep_view() == within_bytes(v.deep_view(), max),
{
    let mut out: Vec<String> = Vec::new();
    let mut i: usize = 0;
    proof {
        assert(v.deep_view().take(0) =~= Seq::<Seq<char>>::empty());
        assert(out.deep_view() =~= Seq::<Seq<char>>::empty());
    }
    while i < v.len()
        invariant
            i <= v@.len(),
            out.deep_view() == within_bytes(v.deep_view().take(i as int), max),
        decreases v@.len() - i,
    {
        let ghost before = out.deep_view();
        proof {
            assert(v.deep_view().take(i + 1).drop_last() =~= v.deep_view().take(i as int));
            assert(v.deep_view().take(i + 1).last() == v@[i as int]@);
        }
        let n = byte_len(v[i].as_str());
        if n <= max {
            out.push(v[i].clone());
            proof {
                assert(out.deep_view() =~= before.push(v@[i as int]@));
            }
        }
        i += 1;
    }
    proof {
        assert(v.deep_view().take(v@.len() as int) =~= v.deep_view());
    }
    out
}

fn truncate_strings(v: &mut Vec<String>, n: usize)
    ensures
        final(v).deep_view() == at_most(old(v).deep_view(), n as nat),
{
    let ghost before = v.deep_view();
    v.truncate(n);
    proof {
        if n < before.len() {
            assert(v.deep_view() =~= before.take(n as int));
        } else {
            assert(v.deep_view() =~= before);
        }
    }
}


proof fn lemma_first_index(s: Seq<Seq<char>>, x: Seq<char>)
    ensures
        match first_index(s, x) {
            Some(i) => 0 <= i < s.len() && s[i] == x && forall|j: int| 0 <= j < i ==> s[j] != x,
            None => forall|j: int| 0 <= j < s.len() ==> s[j] != x,
        },
    decreases s.len(),
{
    if s.len() > 0 && s[0] != x {
        lemma_first_index(s.drop_first(), x);
        assert forall|j: int| 0 < j < s.len() implies s[j] == s.drop_first()[j - 1] by {}
    }
}

fn position_of(v: &Vec<String>, x: &String) -> (r: Option<usize>)
    ensures
        match first_index(v.deep_view(), x@) {
            Some(i) => r == Some(i as usize),
            None => r is None,
        },
{
    proof {
        lemma_first_index(v.deep_view(), x@);
    }
    let mut i: usize = 0;
    while i < v.len()
        invariant
            i <= v@.len(),
            forall|j: int| 0 <= j < i ==> v.deep_view()[j] != x@,
            match first_index(v.deep_view(), x@) {
                Some(k) => 0 <= k < v@.len() && v.deep_view()[k] == x@ && forall|j: int| 0 <= j < k ==> v.deep_view()[j] != x@,
                None => forall|j: int| 0 <= j < v@.len() ==> v.deep_view()[j] != x@,
            },
        decreases v@.len() - i,
    {
        if v[i] == *x {
            proof {
                assert(v.deep_view()[i as int] == x@);
                match first_index(v.deep_view(), x@) {
                    Some(k) => {
                        if k > i {
                        }
                    },
                    None => {},
                }
            }
            return Some(i);
        }
        proof {
            assert(v.deep_view()[i as int] == v@[i as int]@);
        }
        i += 1;
    }
    None
}

/// The key under which an executed result is remembered: `provider:id`.
pub fn result_identity(result: &SearchResult) -> (s: String)
    ensures
        s@ == identity_spec(result@),
{
    let mut s = concat2(result.provider.as_str(), ":");
    append_str(&mut s, result.id.as_str());
    s
}

fn boost_exec(r: &RankedResult, recent: &Vec<String>) -> (b: RankedResult)
    ensures
        b@ == boost_one(r@, recent.deep_view()),
{
    let identity = result_identity(&r.result);
    match position_of(recent, &identity) {
        Some(p) => {
            let delta = RECENT_RESULT_SCORE_BOOST.wrapping_sub(p as i64);
            RankedResult { result: r.result.clone(), score: r.score.wrapping_add(delta) }
        },
        None => r.clone(),
    }
}

/// Boost results that were executed recently, the most recent the most, and
/// order them again by score, title and ID.
pub fn apply_recency_boost(results: &mut Vec<RankedResult>, recent_result_ids: &Vec<String>)
    ensures
        ranked_view(final(results)@) == recency_boost_spec(ranked_view(old(results)@), recent_result_ids.deep_view()),
{
    if recent_result_ids.len() == 0 {
        return;
    }
    let ghost recent = recent_result_ids.deep_view();
    let ghost boosted = ranked_view(results@).map_values(|r: RankedView| boost_one(r, recent));
    let mut sorted: Vec<RankedResult> = Vec::new();
    let mut i: usize = 0;
    proof {
        assert(boosted.take(0) =~= Seq::<RankedView>::empty());
        assert(ranked_view(sorted@) =~= Seq::<RankedView>::empty());
    }
    while i < results.len()
        invariant
            i <= results@.len(),
            recent == recent_result_ids.deep_view(),
            boosted == ranked_view(results@).map_values(|r: RankedView| boost_one(r, recent)),
            ranked_view(sorted@) == sort_ranked(boosted.take(i as int)),
        decreases results@.len() - i,
    {
        let b = boost_exec(&results[i], recent_result_ids);
        proof {
            assert(boosted.take(i + 1).drop_last() =~= boosted.take(i as int));
            assert(boosted.take(i + 1).last() == b@);
        }
        insert_ranked_exec(&mut sorted, b);
        i += 1;
    }
    proof {
        assert(boosted.take(results@.len() as int) =~= boosted);
    }
    *results = sorted;
}

/// The clipboard history a configuration keeps.
pub fn apply_clipboard_config(clipboard_history: &Vec<String>, config: &Config) -> (r: Vec<String>)
    ensures
        r.deep_view() == apply_clipboard_config_spec(clipboard_history.deep_view(), config@),
{
    if !config.providers.clipboard || !config.clipboard.capture {
        let r: Vec<String> = Vec::new();
        proof {
            assert(r.deep_view() =~= Seq::<Seq<char>>::empty());
        }
        return r;
    }
    let mut kept = within_bytes_exec(clipboard_history, config.clipboard.max_entry_bytes);
    truncate_strings(&mut kept, config.clipboard.max_entries);
    kept
}

/// Whether a policy blocks an action.
pub fn ensure_action_allowed(action: &Action, policy: ActionExecutionPolicy) -> (r: Result<(), DaemonError>)
    ensures
        blocked_spec(action@, policy) ==> r == Err::<(), DaemonError>(DaemonError::ShellCommandBlocked),
        !blocked_spec(action@, policy) ==> r is Ok,
{
    match action {
        Action::RunShell { .. } => match policy {
            ActionExecutionPolicy::BlockShellCommands => Err(DaemonError::ShellCommandBlocked),
            ActionExecutionPolicy::AllowShellCommands => Ok(()),
        },
        _ => Ok(()),
    }
}

/// A clipboard history fits a configuration: nothing is kept while capture
/// is off, and the entry and byte limits hold.
pub open spec fn history_fits(h: Seq<Seq<char>>, config: ConfigView) -> bool {
    &&& (!config.providers.clipboard || !config.clipboard.capture) ==> h.len() == 0
    &&& h.len() <= config.clipboard.max_entries
    &&& forall|i: int| 0 <= i < h.len() ==> utf8_len(#[trigger] h[i]) as usize <= config.clipboard.max_entry_bytes
}

proof fn lemma_within_bytes_fits(s: Seq<Seq<char>>, max: usize)
    ensures
        forall|i: int| 0 <= i < within_bytes(s, max).len() ==> utf8_len(#[trigger] within_bytes(s, max)[i]) as usize <= max,
        within_bytes(s, max).len() <= s.len(),
    decreases s.len(),
{
    if s.len() > 0 {
        lemma_within_bytes_fits(s.drop_last(), max);
    }
}

proof fn lemma_without_keeps(s: Seq<Seq<char>>, x: Seq<char>, max: usize)
    requires
        forall|i: int| 0 <= i < s.len() ==> utf8_len(#[trigger] s[i]) as usize <= max,
    ensures
        forall|i: int| 0 <= i < without(s, x).len() ==> utf8_len(#[trigger] without(s, x)[i]) as usize <= max,
        without(s, x).len() <= s.len(),
    decreases s.len(),
{
    if s.len() > 0 {
        let p = s.drop_last();
        assert forall|i: int| 0 <= i < p.len() implies utf8_len(#[trigger] p[i]) as usize <= max by {
            assert(p[i] == s[i]);
        }
        lemma_without_keeps(p, x, max);
    }
}

proof fn lemma_apply_fits(h: Seq<Seq<char>>, config: ConfigView)
    ensures
        history_fits(apply_clipboard_config_spec(h, config), config),
{
    lemma_within_bytes_fits(h, config.clipboard.max_entry_bytes);
}

proof fn lemma_record_fits(config: ConfigView, h: Seq<Seq<char>>, text: Seq<char>)
    requires
        history_fits(h, config),
    ensures
        history_fits(record_clipboard_spec(config, h, text).1, config),
{
    let max = config.clipboard.max_entry_bytes;
    lemma_without_keeps(h, text, max);
    let n = seq![text] + without(h, text);
    if config.providers.clipboard && config.clipboard.capture && config.clipboard.max_entries > 0
        && trim_seq(text).len() > 0 && !(h.len() > 0 && h[0] == text) && utf8_len(text) as usize <= max {
        assert forall|i: int| 0 <= i < n.len() implies utf8_len(#[trigger] n[i]) as usize <= max by {
            if i > 0 {
                assert(n[i] == without(h, text)[i - 1]);
            }
        }
        let r = at_most(n, config.clipboard.max_entries as nat);
        assert forall|i: int| 0 <= i < r.len() implies utf8_len(#[trigger] r[i]) as usize <= max by {
            assert(r[i] == n[i]);
        }
    }
}

/// The daemon state: configuration, the registry built from it, clipboard
/// history, recently executed results and the hotkey state.
pub struct DaemonState {
    config_source: ConfigSource,
    config: Config,
    registry: ProviderRegistry<BuiltinProvider>,
    app_index_report: Option<AppIndexReport>,
    clipboard_history: Vec<String>,
    recent_result_ids: Vec<String>,
    local_state_path: Option<String>,
    hotkey_state: HotkeyState,
    platform: String,
    app_sources: AppSources,
}

pub open spec fn opt_report_view(r: Option<AppIndexReport>) -> Option<AppIndexReportView> {
    match r {
        Some(x) => Some(x@),
        None => None,
    }
}

pub open spec fn opt_seq_view(r: Option<String>) -> Option<Seq<char>> {
    match r {
        Some(x) => Some(x@),
        None => None,
    }
}

impl DaemonState {
    pub closed spec fn config_view(&self) -> ConfigView {
        self.config@
    }

    pub closed spec fn history(&self) -> Seq<Seq<char>> {
        self.clipboard_history.deep_view()
    }

    pub closed spec fn recent(&self) -> Seq<Seq<char>> {
        self.recent_result_ids.deep_view()
    }

    pub closed spec fn providers(&self) -> Seq<BuiltinProvider> {
        self.registry.providers()
    }

    pub closed spec fn report(&self) -> Option<AppIndexReportView> {
        opt_report_view(self.app_index_report)
    }

    pub closed spec fn hotkey(&self) -> HotkeyStateView {
        self.hotkey_state@
    }

    pub closed spec fn platform(&self) -> Seq<char> {
        self.platform@
    }

    pub closed spec fn source(&self) -> ConfigSourceView {
        self.config_source@
    }

    pub closed spec fn state_path(&self) -> Option<Seq<char>> {
        opt_seq_view(self.local_state_path)
    }

    /// What the platform offered the app provider when it was last indexed.
    pub closed spec fn app_sources(&self) -> AppSourcesView {
        self.app_sources@
    }

    /// The registry, the app index report and the hotkey state are the ones
    /// the configuration and the clipboard history give, and the history fits
    /// the configuration.
    pub closed spec fn wf(&self) -> bool {
        &&& self.registry.wf()
        &&& builtin_views(self.registry.providers()) == enabled_providers_spec(self.config@, self.app_sources@, self.history())
        &&& self.registry.ids() == enabled_ids_spec(self.config.providers)
        &&& self.report() == runtime_report_spec(self.config@, self.app_sources@)
        &&& hotkey_state_spec(self.config@.hotkey, self.platform@) == Ok::<HotkeyStateView, HotkeyErrorView>(self.hotkey_state@)
        &&& history_fits(self.history(), self.config@)
    }

    /// What a well-formed state holds, stated over its views.
    pub proof fn lemma_wf(&self)
        requires
            self.wf(),
        ensures
            builtin_views(self.providers()) == enabled_providers_spec(self.config_view(), self.app_sources(), self.history()),
            ids_of_providers(self.providers()) == enabled_ids_spec(self.config_view().providers),
            self.report() == runtime_report_spec(self.config_view(), self.app_sources()),
            hotkey_state_spec(self.config_view().hotkey, self.platform()) == Ok::<HotkeyStateView, HotkeyErrorView>(self.hotkey()),
            history_fits(self.history(), self.config_view()),
    {
    }
}

pub open spec fn ids_of_providers(ps: Seq<BuiltinProvider>) -> Seq<Seq<char>> {
    crate::registry::ids_of(ps)
}


/// The registry, app index report and hotkey state for a configuration and
/// a clipboard history.
pub struct DaemonRuntime {
    pub registry: ProviderRegistry<BuiltinProvider>,
    pub app_index_report: Option<AppIndexReport>,
    pub hotkey_state: HotkeyState,
}

fn build_runtime(config: &Config, clipboard_history: &Vec<String>, platform: &str, sources: &AppSources) -> (r: Result<DaemonRuntime, DaemonError>)
    ensures
        match (r, hotkey_state_spec(config@.hotkey, platform@)) {
            (Ok(rt), Ok(h)) => {
                &&& rt.registry.wf()
                &&& builtin_views(rt.registry.providers()) == enabled_providers_spec(config@, sources@, clipboard_history.deep_view())
                &&& rt.registry.ids() == enabled_ids_spec(config.providers)
                &&& opt_report_view(rt.app_index_report) == runtime_report_spec(config@, sources@)
                &&& rt.hotkey_state@ == h
            },
            (Err(DaemonError::Hotkey(e)), Err(he)) => e@ == he,
            _ => false,
        },
{
    let hotkey_state = match HotkeyState::from_config(&config.hotkey, platform) {
        Ok(h) => h,
        Err(e) => return Err(DaemonError::Hotkey(e)),
    };
    let history = crate::plugin_api::clone_strings(clipboard_history);
    let registry = registry_with_history(config, history, sources);
    let app_index_report = if config.providers.apps {
        let copy = sources.duplicate();
        Some(AppLauncherProvider::from_config_sources(config, copy.index, copy.known, copy.platform.as_str()).index_report())
    } else {
        None
    };
    Ok(DaemonRuntime { registry, app_index_report, hotkey_state })
}

fn clone_opt_report(r: &Option<AppIndexReport>) -> (c: Option<AppIndexReport>)
    ensures
        opt_report_view(c) == opt_report_view(*r),
{
    match r {
        Some(x) => Some(x.clone()),
        None => None,
    }
}

impl DaemonState {
    /// Build state from a configuration, with saved local state and the path
    /// it is saved at, on `platform`, whose apps are `sources`. The clipboard
    /// history is first cut to what the configuration keeps. Fails only when
    /// the hotkey configuration is invalid.
    pub fn from_loaded_config(
        config_source: ConfigSource,
        config: Config,
        local_state_path: Option<String>,
        local_state: LocalState,
        platform: &str,
        sources: AppSources,
    ) -> (r: Result<DaemonState, DaemonError>)
        ensures
            match (r, hotkey_state_spec(config@.hotkey, platform@)) {
                (Ok(s), Ok(h)) => {
                    &&& s.wf()
                    &&& s.config_view() == config@
                    &&& s.history() == apply_clipboard_config_spec(local_state@.clipboard_history, config@)
                    &&& s.recent() == local_state@.recent_result_ids
                    &&& s.source() == config_source@
                    &&& s.state_path() == opt_seq_view(local_state_path)
                    &&& s.platform() == platform@
                    &&& s.app_sources() == sources@
                },
                (Err(DaemonError::Hotkey(e)), Err(he)) => e@ == he,
                _ => false,
            },
    {
        let clipboard_history = apply_clipboard_config(&local_state.clipboard_history, &config);
        proof {
            lemma_apply_fits(local_state@.clipboard_history, config@);
        }
        let runtime = match build_runtime(&config, &clipboard_history, platform, &sources) {
            Ok(rt) => rt,
            Err(e) => return Err(e),
        };
        Ok(DaemonState {
            config_source,
            config,
            registry: runtime.registry,
            app_index_report: runtime.app_index_report,
            clipboard_history,
            recent_result_ids: local_state.recent_result_ids,
            local_state_path,
            hotkey_state: runtime.hotkey_state,
            platform: lit(platform),
            app_sources: sources,
        })
    }

    /// Build state from an in-memory configuration, with no saved state.
    pub fn from_config(config: Config, platform: &str) -> (r: Result<DaemonState, DaemonError>)
        ensures
            match (r, hotkey_state_spec(config@.hotkey, platform@)) {
                (Ok(s), Ok(h)) => {
                    &&& s.wf()
                    &&& s.config_view() == config@
                    &&& s.history() == Seq::<Seq<char>>::empty()
                    &&& s.recent() == Seq::<Seq<char>>::empty()
                    &&& s.source() == ConfigSourceView::Provided
                    &&& s.state_path() is None
                    &&& s.platform() == platform@
                    &&& s.app_sources() == unindexed_sources(platform@)
                },
                (Err(DaemonError::Hotkey(e)), Err(he)) => e@ == he,
                _ => false,
            },
    {
        let local = LocalState::default();
        proof {
            assert(apply_clipboard_config_spec(Seq::<Seq<char>>::empty(), config@) =~= Seq::<Seq<char>>::empty()) by {
                assert(within_bytes(Seq::<Seq<char>>::empty(), config@.clipboard.max_entry_bytes) =~= Seq::<Seq<char>>::empty());
            }
        }
        Self::from_loaded_config(ConfigSource::Provided, config, None, local, platform, AppSources::unavailable(platform))
    }

    /// The same as `from_config`.
    pub fn new(config: Config, platform: &str) -> (r: Result<DaemonState, DaemonError>)
        ensures
            match (r, hotkey_state_spec(config@.hotkey, platform@)) {
                (Ok(s), Ok(h)) => {
                    &&& s.wf()
                    &&& s.config_view() == config@
                    &&& s.history() == Seq::<Seq<char>>::empty()
                    &&& s.recent() == Seq::<Seq<char>>::empty()
                    &&& s.source() == ConfigSourceView::Provided
                    &&& s.state_path() is None
                    &&& s.platform() == platform@
                    &&& s.app_sources() == unindexed_sources(platform@)
                },
                (Err(DaemonError::Hotkey(e)), Err(he)) => e@ == he,
                _ => false,
            },
    {
        Self::from_config(config, platform)
    }

    /// Search the enabled providers with an explicit limit or the configured
    /// default; recently executed results get a small boost.
    pub fn search(&self, query: &str, limit: Option<usize>) -> (r: Result<Vec<RankedResult>, DaemonError>)
        requires
            self.wf(),
        ensures
            match (r, daemon_search_spec(self.config_view(), self.app_sources(), self.history(), self.recent(), query@, limit)) {
                (Ok(v), Ok(sv)) => ranked_view(v@) == sv,
                (Err(DaemonError::Core(e)), Err(se)) => e@ == se,
                _ => false,
            },
    {
        let limit = match limit {
            Some(l) => l,
            None => self.config.general.max_results,
        };
        let search_limit = limit.saturating_add(self.recent_result_ids.len());
        proof {
            lemma_registry_by_views(self.registry.providers(), query@, search_limit, Seq::empty(), ActionView::Noop { message: Seq::empty() });
        }
        let mut results = match self.registry.search(query, search_limit) {
            Ok(v) => v,
            Err(e) => return Err(DaemonError::Core(e)),
        };
        apply_recency_boost(&mut results, &self.recent_result_ids);
        let ghost boosted = ranked_view(results@);
        results.truncate(limit);
        proof {
            if limit < boosted.len() {
                assert(ranked_view(results@) =~= boosted.take(limit as int));
            } else {
                assert(ranked_view(results@) =~= boosted);
            }
        }
        Ok(results)
    }

    /// The app index report, when the app provider is enabled.
    pub fn app_index_report(&self) -> (r: Option<&AppIndexReport>)
        ensures
            match r {
                Some(x) => self.report() == Some(x@),
                None => self.report() is None,
            },
    {
        match &self.app_index_report {
            Some(x) => Some(x),
            None => None,
        }
    }

    /// The registered provider identifiers, in registry order.
    pub fn provider_ids(&self) -> (r: Vec<String>)
        ensures
            r.deep_view() == ids_of_providers(self.providers()),
    {
        let ids = self.registry.provider_ids();
        let mut out: Vec<String> = Vec::new();
        let mut i: usize = 0;
        while i < ids.len()
            invariant
                i <= ids@.len(),
                out@.len() == i,
                ids@.map_values(|p: crate::plugin_api::ProviderId| p@) == self.registry.ids(),
                forall|j: int| 0 <= j < i ==> (#[trigger] out@[j])@ == ids@[j]@,
            decreases ids@.len() - i,
        {
            out.push(ids[i].id.clone());
            i += 1;
        }
        proof {
            assert(out.deep_view() =~= ids@.map_values(|p: crate::plugin_api::ProviderId| p@));
        }
        out
    }

    /// Number of clipboard entries held.
    pub fn clipboard_history_len(&self) -> (n: usize)
        ensures
            n == self.history().len(),
    {
        self.clipboard_history.len()
    }

    /// Whether clipboard text is recorded: the clipboard provider and capture
    /// are both on.
    pub fn clipboard_capture_enabled(&self) -> (b: bool)
        ensures
            b == (self.config_view().providers.clipboard && self.config_view().clipboard.capture),
    {
        self.config.providers.clipboard && self.config.clipboard.capture
    }

    /// Number of executed results remembered for ranking.
    pub fn recent_result_count(&self) -> (n: usize)
        ensures
            n == self.recent().len(),
    {
        self.recent_result_ids.len()
    }

    /// Where local state is saved, when anywhere.
    pub fn local_state_path(&self) -> (r: Option<String>)
        ensures
            opt_seq_view(r) == self.state_path(),
    {
        match &self.local_state_path {
            Some(p) => Some(p.clone()),
            None => None,
        }
    }

    /// The loaded configuration.
    pub fn config(&self) -> (c: &Config)
        ensures
            c@ == self.config_view(),
    {
        &self.config
    }

    /// Where the configuration came from.
    pub fn config_source(&self) -> (c: &ConfigSource)
        ensures
            c@ == self.source(),
    {
        &self.config_source
    }

    /// The global hotkey state.
    pub fn hotkey_state(&self) -> (h: &HotkeyState)
        ensures
            h@ == self.hotkey(),
    {
        &self.hotkey_state
    }

    /// What running the hotkey loop amounts to on this state's platform.
    pub fn run_hotkey_loop(&self) -> (r: HotkeyLoopStep)
        ensures
            r@ == run_hotkey_loop_spec(self.hotkey(), self.platform()),
    {
        run_hotkey_loop(&self.hotkey_state, self.platform.as_str())
    }

    /// The local state this state saves.
    pub open spec fn local_state_view(&self) -> LocalStateView {
        LocalStateView { version: LOCAL_STATE_VERSION, clipboard_history: self.history(), recent_result_ids: self.recent() }
    }

    /// The state to save: version, clipboard history and recency.
    pub fn local_state(&self) -> (r: LocalState)
        ensures
            r@ == self.local_state_view(),
    {
        LocalState {
            version: LOCAL_STATE_VERSION,
            clipboard_history: crate::plugin_api::clone_strings(&self.clipboard_history),
            recent_result_ids: crate::plugin_api::clone_strings(&self.recent_result_ids),
        }
    }
}


/// Two daemon states hold the same configuration, providers, history,
/// recency, report, hotkey state, source, path and platform.
pub open spec fn same_state(a: &DaemonState, b: &DaemonState) -> bool {
    &&& a.config_view() == b.config_view()
    &&& a.history() == b.history()
    &&& a.recent() == b.recent()
    &&& builtin_views(a.providers()) == builtin_views(b.providers())
    &&& a.report() == b.report()
    &&& a.hotkey() == b.hotkey()
    &&& a.source() == b.source()
    &&& a.state_path() == b.state_path()
    &&& a.platform() == b.platform()
    &&& a.app_sources() == b.app_sources()
}

/// The same state, except for the recency list.
pub open spec fn same_but_recent(a: &DaemonState, b: &DaemonState) -> bool {
    &&& a.config_view() == b.config_view()
    &&& a.history() == b.history()
    &&& builtin_views(a.providers()) == builtin_views(b.providers())
    &&& a.report() == b.report()
    &&& a.hotkey() == b.hotkey()
    &&& a.source() == b.source()
    &&& a.state_path() == b.state_path()
    &&& a.platform() == b.platform()
    &&& a.app_sources() == b.app_sources()
}

/// Where an updated configuration is written: the file it was loaded from,
/// the default location when it came from there, nowhere when it was given
/// in memory.
pub open spec fn config_write_target_spec(source: ConfigSourceView, default_path: Option<Seq<char>>) -> Option<Seq<char>> {
    match source {
        ConfigSourceView::Path(p) => Some(p),
        ConfigSourceView::Default => default_path,
        ConfigSourceView::Provided => None,
    }
}

fn record_recent(recent: &mut Vec<String>, result: &SearchResult)
    ensures
        final(recent).deep_view() == record_recent_spec(old(recent).deep_view(), result@),
{
    if result.kind == ResultKind::Clipboard {
        return;
    }
    let identity = result_identity(result);
    let kept = without_exec(recent, &identity);
    let mut next: Vec<String> = Vec::new();
    next.push(identity);
    let ghost first = next.deep_view();
    let mut kept = kept;
    let ghost kept_view = kept.deep_view();
    next.append(&mut kept);
    proof {
        assert(next.deep_view() =~= first + kept_view);
        assert(first =~= seq![identity_spec(result@)]);
    }
    truncate_strings(&mut next, RECENT_RESULT_LIMIT);
    *recent = next;
}

impl DaemonState {
    /// Execute a selected result under a policy. A blocked shell command is
    /// refused before its provider sees it. An action that completes at once
    /// is remembered for ranking; one that needs outside work is handed back
    /// and finished by [`DaemonState::complete_execution`].
    pub fn execute_result(&mut self, result: &SearchResult, policy: ActionExecutionPolicy) -> (r: Result<ExecutionStep, DaemonError>)
        requires
            old(self).wf(),
        ensures
            recent_step(old(self).recent(), final(self).recent()),
            final(self).wf(),
            same_but_recent(&*final(self), &*old(self)),
            result_blocked_spec(result@, policy) ==> {
                &&& r == Err::<ExecutionStep, DaemonError>(DaemonError::ShellCommandBlocked)
                &&& final(self).recent() == old(self).recent()
            },
            !result_blocked_spec(result@, policy) ==> match (r, daemon_execute_spec(old(self).config_view(), old(self).app_sources(), old(self).history(), result@)) {
                (Ok(step), Ok(sv)) => step@ == sv && final(self).recent() == (if sv is Done { record_recent_spec(old(self).recent(), result@) } else { old(self).recent() }),
                (Err(DaemonError::Core(e)), Err(se)) => e@ == se && final(self).recent() == old(self).recent(),
                _ => false,
            },
    {
        if let Err(e) = ensure_action_allowed(result.primary_action(), policy) {
            return Err(e);
        }
        if let Err(e) = ensure_action_allowed(&result.action, policy) {
            return Err(e);
        }
        proof {
            lemma_registry_by_views(self.registry.providers(), Seq::empty(), 0, result.provider@, result.action@);
        }
        match self.registry.execute(result) {
            Err(e) => Err(DaemonError::Core(e)),
            Ok(ExecutionStep::Done(outcome)) => {
                record_recent(&mut self.recent_result_ids, result);
                Ok(ExecutionStep::Done(outcome))
            },
            Ok(ExecutionStep::Perform(effect)) => Ok(ExecutionStep::Perform(effect)),
        }
    }

    /// Finish an execution whose outside work was performed: the report
    /// decides the outcome, and a successful result is remembered for
    /// ranking.
    pub fn complete_execution(&mut self, result: &SearchResult, effect: &ActionEffect, report: &EffectReport) -> (r: Result<ActionOutcome, DaemonError>)
        requires
            old(self).wf(),
            report_fits(*effect, *report),
        ensures
            recent_step(old(self).recent(), final(self).recent()),
            final(self).wf(),
            same_but_recent(&*final(self), &*old(self)),
            match (r, effect_result_spec(*effect, *report)) {
                (Ok(o), Ok(t)) => o.message@ == t && final(self).recent() == record_recent_spec(old(self).recent(), result@),
                (Err(DaemonError::Core(CoreError::ProviderFailed { provider, source: PluginError::Action(m) })), Err(_)) => {
                    &&& provider@ == result.provider@
                    &&& m@ == crate::plugin_api::effect_error_text(*effect, *report)
                    &&& final(self).recent() == old(self).recent()
                },
                _ => false,
            },
    {
        match complete_effect(effect, report) {
            Ok(outcome) => {
                record_recent(&mut self.recent_result_ids, result);
                Ok(outcome)
            },
            Err(source) => Err(DaemonError::Core(CoreError::ProviderFailed { provider: result.provider.id.clone(), source })),
        }
    }

    /// Add one clipboard text to the history, most recent first, when the
    /// configuration records clipboard text; empty and oversized texts are
    /// ignored, and the history keeps at most the configured number of
    /// entries.
    pub fn record_clipboard_text(&mut self, text: &str) -> (r: Result<ClipboardRecordOutcome, DaemonError>)
        requires
            old(self).wf(),
        ensures
            recent_step(old(self).recent(), final(self).recent()),
            final(self).wf(),
            final(self).app_sources() == old(self).app_sources(),
            r == Ok::<ClipboardRecordOutcome, DaemonError>(record_clipboard_spec(old(self).config_view(), old(self).history(), text@).0),
            final(self).history() == record_clipboard_spec(old(self).config_view(), old(self).history(), text@).1,
            final(self).config_view() == old(self).config_view(),
            final(self).recent() == old(self).recent(),
            final(self).report() == old(self).report(),
            final(self).hotkey() == old(self).hotkey(),
            final(self).source() == old(self).source(),
            final(self).state_path() == old(self).state_path(),
            final(self).platform() == old(self).platform(),
    {
        proof {
            lemma_record_fits(self.config@, self.history(), text@);
        }
        if !self.config.providers.clipboard {
            return Ok(ClipboardRecordOutcome::ProviderDisabled);
        }
        if !self.config.clipboard.capture {
            return Ok(ClipboardRecordOutcome::CaptureDisabled);
        }
        if self.config.clipboard.max_entries == 0 {
            return Ok(ClipboardRecordOutcome::RetentionDisabled);
        }
        let chars = chars_of(text);
        let trimmed = trim_chars(&chars);
        if trimmed.len() == 0 {
            return Ok(ClipboardRecordOutcome::IgnoredEmpty);
        }
        let owned = lit(text);
        if self.clipboard_history.len() > 0 && self.clipboard_history[0] == owned {
            proof {
                assert(self.history()[0] == self.clipboard_history@[0]@);
            }
            return Ok(ClipboardRecordOutcome::Stored);
        }
        let byte_count = byte_len(text);
        if byte_count > self.config.clipboard.max_entry_bytes {
            return Ok(ClipboardRecordOutcome::IgnoredTooLarge { byte_count, max_bytes: self.config.clipboard.max_entry_bytes });
        }
        let kept = without_exec(&self.clipboard_history, &owned);
        let mut next: Vec<String> = Vec::new();
        next.push(owned);
        let ghost first = next.deep_view();
        let mut kept = kept;
        let ghost kept_view = kept.deep_view();
        next.append(&mut kept);
        proof {
            assert(next.deep_view() =~= first + kept_view);
            assert(first =~= seq![text@]);
        }
        truncate_strings(&mut next, self.config.clipboard.max_entries);
        self.clipboard_history = next;
        let history = crate::plugin_api::clone_strings(&self.clipboard_history);
        self.registry = registry_with_history(&self.config, history, &self.app_sources);
        Ok(ClipboardRecordOutcome::Stored)
    }

    /// Remove every clipboard entry and say how many there were.
    pub fn clear_clipboard_history(&mut self) -> (r: Result<usize, DaemonError>)
        requires
            old(self).wf(),
        ensures
            recent_step(old(self).recent(), final(self).recent()),
            final(self).wf(),
            final(self).app_sources() == old(self).app_sources(),
            r == Ok::<usize, DaemonError>(old(self).history().len() as usize),
            final(self).history() == Seq::<Seq<char>>::empty(),
            final(self).config_view() == old(self).config_view(),
            final(self).recent() == old(self).recent(),
            final(self).report() == old(self).report(),
            final(self).hotkey() == old(self).hotkey(),
            final(self).source() == old(self).source(),
            final(self).state_path() == old(self).state_path(),
            final(self).platform() == old(self).platform(),
    {
        let removed = self.clipboard_history.len();
        self.clipboard_history = Vec::new();
        proof {
            assert(self.history() =~= Seq::<Seq<char>>::empty());
        }
        let history: Vec<String> = Vec::new();
        proof {
            assert(history.deep_view() =~= Seq::<Seq<char>>::empty());
        }
        self.registry = registry_with_history(&self.config, history, &self.app_sources);
        Ok(removed)
    }

    /// Replace the configuration and rebuild what depends on it; the
    /// clipboard history is cut to what the new configuration keeps. An
    /// invalid hotkey configuration is refused and nothing changes.
    pub fn replace_config(&mut self, config: Config) -> (r: Result<(), DaemonError>)
        requires
            old(self).wf(),
        ensures
            recent_step(old(self).recent(), final(self).recent()),
            final(self).wf(),
            final(self).app_sources() == old(self).app_sources(),
            final(self).platform() == old(self).platform(),
            match (r, hotkey_state_spec(config@.hotkey, old(self).platform())) {
                (Ok(_), Ok(h)) => {
                    &&& final(self).config_view() == config@
                    &&& final(self).history() == apply_clipboard_config_spec(old(self).history(), config@)
                    &&& final(self).recent() == old(self).recent()
                    &&& final(self).source() == old(self).source()
                    &&& final(self).state_path() == old(self).state_path()
                    &&& final(self).platform() == old(self).platform()
                },
                (Err(DaemonError::Hotkey(e)), Err(he)) => e@ == he && same_state(&*final(self), &*old(self)),
                _ => false,
            },
    {
        let history = apply_clipboard_config(&self.clipboard_history, &config);
        proof {
            lemma_apply_fits(self.history(), config@);
        }
        let runtime = match build_runtime(&config, &history, self.platform.as_str(), &self.app_sources) {
            Ok(rt) => rt,
            Err(e) => return Err(e),
        };
        self.config = config;
        self.clipboard_history = history;
        self.registry = runtime.registry;
        self.app_index_report = runtime.app_index_report;
        self.hotkey_state = runtime.hotkey_state;
        Ok(())
    }

    /// Reload: take the configuration read again from this state's source
    /// and rebuild provider state from it.
    pub fn reload_config(&mut self, config: Config) -> (r: Result<(), DaemonError>)
        requires
            old(self).wf(),
        ensures
            recent_step(old(self).recent(), final(self).recent()),
            final(self).wf(),
            final(self).app_sources() == old(self).app_sources(),
            final(self).platform() == old(self).platform(),
            match (r, hotkey_state_spec(config@.hotkey, old(self).platform())) {
                (Ok(_), Ok(h)) => {
                    &&& final(self).config_view() == config@
                    &&& final(self).history() == apply_clipboard_config_spec(old(self).history(), config@)
                    &&& final(self).recent() == old(self).recent()
                    &&& final(self).source() == old(self).source()
                    &&& final(self).state_path() == old(self).state_path()
                },
                (Err(DaemonError::Hotkey(e)), Err(he)) => e@ == he && same_state(&*final(self), &*old(self)),
                _ => false,
            },
    {
        self.replace_config(config)
    }

    /// Where an updated configuration is to be written.
    pub fn config_write_target(&self, default_path: Option<String>) -> (r: Option<String>)
        ensures
            opt_seq_view(r) == config_write_target_spec(self.source(), opt_seq_view(default_path)),
    {
        match &self.config_source {
            ConfigSource::Path(p) => Some(p.clone()),
            ConfigSource::Default => default_path,
            ConfigSource::Provided => None,
        }
    }

    /// Replace the configuration after it was written to `written_path`; a
    /// configuration that came from the default location is from then on
    /// read from the file it was written to.
    pub fn update_config(&mut self, config: Config, written_path: Option<String>) -> (r: Result<(), DaemonError>)
        requires
            old(self).wf(),
        ensures
            recent_step(old(self).recent(), final(self).recent()),
            final(self).wf(),
            final(self).app_sources() == old(self).app_sources(),
            final(self).platform() == old(self).platform(),
            final(self).source() == (match (old(self).source(), written_path) {
                (ConfigSourceView::Default, Some(p)) => ConfigSourceView::Path(p@),
                (s, _) => s,
            }),
            match (r, hotkey_state_spec(config@.hotkey, old(self).platform())) {
                (Ok(_), Ok(h)) => {
                    &&& final(self).config_view() == config@
                    &&& final(self).history() == apply_clipboard_config_spec(old(self).history(), config@)
                    &&& final(self).recent() == old(self).recent()
                    &&& final(self).state_path() == old(self).state_path()
                },
                (Err(DaemonError::Hotkey(e)), Err(he)) => {
                    &&& e@ == he
                    &&& final(self).config_view() == old(self).config_view()
                    &&& final(self).history() == old(self).history()
                    &&& final(self).recent() == old(self).recent()
                    &&& builtin_views(final(self).providers()) == builtin_views(old(self).providers())
                    &&& final(self).report() == old(self).report()
                    &&& final(self).hotkey() == old(self).hotkey()
                    &&& final(self).state_path() == old(self).state_path()
                },
                _ => false,
            },
    {
        match (&self.config_source, written_path) {
            (ConfigSource::Default, Some(p)) => {
                self.config_source = ConfigSource::Path(p);
            },
            _ => {},
        }
        self.replace_config(config)
    }

    /// Take what a new scan of the platform's apps found, rebuild the
    /// provider state from it, and return the new app index report.
    pub fn refresh_app_index(&mut self, sources: AppSources) -> (r: Result<Option<AppIndexReport>, DaemonError>)
        requires
            old(self).wf(),
        ensures
            recent_step(old(self).recent(), final(self).recent()),
            final(self).wf(),
            final(self).app_sources() == sources@,
            final(self).config_view() == old(self).config_view(),
            final(self).history() == old(self).history(),
            final(self).recent() == old(self).recent(),
            final(self).hotkey() == old(self).hotkey(),
            final(self).source() == old(self).source(),
            final(self).state_path() == old(self).state_path(),
            final(self).platform() == old(self).platform(),
            r matches Ok(rep) && opt_report_view(rep) == runtime_report_spec(old(self).config_view(), sources@)
                && opt_report_view(rep) == final(self).report(),
    {
        let runtime = match build_runtime(&self.config, &self.clipboard_history, self.platform.as_str(), &sources) {
            Ok(rt) => rt,
            Err(e) => return Err(e),
        };
        self.registry = runtime.registry;
        self.app_index_report = runtime.app_index_report;
        self.hotkey_state = runtime.hotkey_state;
        self.app_sources = sources;
        Ok(clone_opt_report(&self.app_index_report))
    }
}

/// Under the blocking policy a shell command never runs: every result whose
/// primary or dispatched action is a shell command is refused, and every
/// other result is executed by a provider that never asks for a shell.
pub proof fn law_shell_guard(config: ConfigView, sources: AppSourcesView, history: Seq<Seq<char>>, result: SearchResultView)
    ensures
        (primary_action_spec(result) is RunShell || result.action is RunShell) ==> result_blocked_spec(result, ActionExecutionPolicy::BlockShellCommands),
        !result_blocked_spec(result, ActionExecutionPolicy::BlockShellCommands) ==> !(daemon_execute_spec(config, sources, history, result) matches Ok(StepView::Perform(crate::plugin_api::EffectView::Shell { .. }))),
{
}

/// A daemon search never answers more results than the limit asked for (the
/// configured maximum when none is given).
pub proof fn law_search_within_limit(config: ConfigView, sources: AppSourcesView, history: Seq<Seq<char>>, recent: Seq<Seq<char>>, query: Seq<char>, limit: Option<usize>)
    ensures
        daemon_search_spec(config, sources, history, recent, query, limit) matches Ok(v) ==> v.len() <= match limit {
            Some(l) => l,
            None => config.general.max_results,
        },
{
}

/// Recording clipboard text never breaks the configured limits: the history
/// keeps at most `max_entries` entries, each within `max_entry_bytes`, and
/// nothing while capture is off.
pub proof fn law_clipboard_limits(config: ConfigView, history: Seq<Seq<char>>, text: Seq<char>)
    requires
        history_fits(history, config),
    ensures
        history_fits(record_clipboard_spec(config, history, text).1, config),
{
    lemma_record_fits(config, history, text);
}

/// Applying a configuration yields a history that fits it.
pub proof fn law_config_scrubs_history(config: ConfigView, history: Seq<Seq<char>>)
    ensures
        history_fits(apply_clipboard_config_spec(history, config), config),
{
    lemma_apply_fits(history, config);
}

/// The recency list never grows past `RECENT_RESULT_LIMIT` once a result is
/// recorded, and clipboard results leave it unchanged.
pub proof fn law_recency_bounded(recent: Seq<Seq<char>>, result: SearchResultView)
    ensures
        result.kind == ResultKind::Clipboard ==> record_recent_spec(recent, result) == recent,
        result.kind != ResultKind::Clipboard ==> {
            &&& record_recent_spec(recent, result).len() <= RECENT_RESULT_LIMIT
            &&& record_recent_spec(recent, result)[0] == identity_spec(result)
        },
{
}

/// No entry occurs twice.
pub open spec fn no_repeats(s: Seq<Seq<char>>) -> bool {
    forall|i: int, j: int| 0 <= i < j < s.len() ==> #[trigger] s[i] != #[trigger] s[j]
}

proof fn lemma_without_subset(s: Seq<Seq<char>>, x: Seq<char>)
    ensures
        forall|k: int| 0 <= k < without(s, x).len() ==> s.contains(#[trigger] without(s, x)[k]) && without(s, x)[k] != x,
    decreases s.len(),
{
    if s.len() > 0 {
        lemma_without_subset(s.drop_last(), x);
        let p = without(s.drop_last(), x);
        assert forall|k: int| 0 <= k < without(s, x).len() implies s.contains(#[trigger] without(s, x)[k]) && without(s, x)[k] != x by {
            if k < p.len() {
                assert(without(s, x)[k] == p[k]);
                let m = choose|m: int| 0 <= m < s.drop_last().len() && s.drop_last()[m] == p[k];
                assert(s[m] == p[k]);
            } else {
                assert(without(s, x)[k] == s.last());
                assert(s[s.len() - 1] == s.last());
            }
        }
    }
}

proof fn lemma_without_no_repeats(s: Seq<Seq<char>>, x: Seq<char>)
    requires
        no_repeats(s),
    ensures
        no_repeats(without(s, x)),
    decreases s.len(),
{
    if s.len() > 0 {
        let d = s.drop_last();
        assert forall|i: int, j: int| 0 <= i < j < d.len() implies #[trigger] d[i] != #[trigger] d[j] by {
            assert(d[i] == s[i] && d[j] == s[j]);
        }
        lemma_without_no_repeats(d, x);
        lemma_without_subset(d, x);
        let p = without(d, x);
        if s.last() != x {
            let r = p.push(s.last());
            assert forall|i: int, j: int| 0 <= i < j < r.len() implies #[trigger] r[i] != #[trigger] r[j] by {
                if j == p.len() {
                    assert(r[i] == p[i]);
                    assert(d.contains(p[i]));
                    let m = choose|m: int| 0 <= m < d.len() && d[m] == p[i];
                    assert(s[m] == d[m]);
                    assert(s[s.len() - 1] == s.last());
                } else {
                    assert(r[i] == p[i] && r[j] == p[j]);
                }
            }
        }
    }
}

proof fn lemma_front_no_repeats(s: Seq<Seq<char>>, x: Seq<char>, n: nat)
    requires
        no_repeats(s),
    ensures
        no_repeats(at_most(seq![x] + without(s, x), n)),
{
    lemma_without_no_repeats(s, x);
    lemma_without_subset(s, x);
    let w = without(s, x);
    let r = seq![x] + w;
    assert forall|i: int, j: int| 0 <= i < j < r.len() implies #[trigger] r[i] != #[trigger] r[j] by {
        if i == 0 {
            assert(r[j] == w[j - 1]);
        } else {
            assert(r[i] == w[i - 1] && r[j] == w[j - 1]);
        }
    }
    let t = at_most(r, n);
    assert forall|i: int, j: int| 0 <= i < j < t.len() implies #[trigger] t[i] != #[trigger] t[j] by {
        assert(t[i] == r[i] && t[j] == r[j]);
    }
}

/// Clipboard history coalesces duplicates: a history without repeated
/// entries keeps none after a text is recorded, and a stored text is the
/// most recent entry.
pub proof fn law_clipboard_history_coalesces(config: ConfigView, history: Seq<Seq<char>>, text: Seq<char>)
    requires
        no_repeats(history),
    ensures
        no_repeats(record_clipboard_spec(config, history, text).1),
        record_clipboard_spec(config, history, text).0 == ClipboardRecordOutcome::Stored ==> record_clipboard_spec(config, history, text).1[0] == text,
{
    let (o, h) = record_clipboard_spec(config, history, text);
    if h != history {
        lemma_front_no_repeats(history, text, config.clipboard.max_entries as nat);
    }
}

/// The recency list never repeats an entry either.
pub proof fn law_recency_coalesces(recent: Seq<Seq<char>>, result: SearchResultView)
    requires
        no_repeats(recent),
    ensures
        no_repeats(record_recent_spec(recent, result)),
{
    if result.kind != ResultKind::Clipboard {
        lemma_front_no_repeats(recent, identity_spec(result), RECENT_RESULT_LIMIT as nat);
    }
}

/// Registering the clipboard provider does not capture: while capture is
/// off, recording leaves the history as it is and says why.
pub proof fn law_capture_off_records_nothing(config: ConfigView, history: Seq<Seq<char>>, text: Seq<char>)
    requires
        !config.clipboard.capture,
    ensures
        record_clipboard_spec(config, history, text).1 == history,
        record_clipboard_spec(config, history, text).0 == (if config.providers.clipboard {
            ClipboardRecordOutcome::CaptureDisabled
        } else {
            ClipboardRecordOutcome::ProviderDisabled
        }),
{
}


proof fn lemma_within_bytes_all(s: Seq<Seq<char>>, max: usize)
    requires
        forall|i: int| 0 <= i < s.len() ==> utf8_len(#[trigger] s[i]) as usize <= max,
    ensures
        within_bytes(s, max) == s,
    decreases s.len(),
{
    if s.len() > 0 {
        let d = s.drop_last();
        assert forall|i: int| 0 <= i < d.len() implies utf8_len(#[trigger] d[i]) as usize <= max by {
            assert(d[i] == s[i]);
        }
        lemma_within_bytes_all(d, max);
        assert(s[s.len() - 1] == s.last());
        assert(d.push(s.last()) =~= s);
    }
}

/// Saved local state comes back whole: the clipboard history of a
/// well-formed state already fits its configuration, so a state built again
/// from its saved local state with the same configuration holds the same
/// history (and, as `from_loaded_config` states, the same recency list).
pub proof fn law_local_state_round_trip(state: &DaemonState)
    requires
        state.wf(),
    ensures
        apply_clipboard_config_spec(state.local_state_view().clipboard_history, state.config_view()) == state.history(),
        state.local_state_view().recent_result_ids == state.recent(),
{
    state.lemma_wf();
    let h = state.history();
    let config = state.config_view();
    if config.providers.clipboard && config.clipboard.capture {
        lemma_within_bytes_all(h, config.clipboard.max_entry_bytes);
    } else {
        assert(h =~= Seq::<Seq<char>>::empty());
    }
}


/// The app index report of every well-formed daemon state (every state the
/// constructors and the public methods leave behind) is present exactly when
/// the apps provider is enabled; it is then the report of the apps provider
/// registered first, under "apps".
pub proof fn law_app_report_tracks_apps_provider(s: &DaemonState)
    requires
        s.wf(),
    ensures
        s.report() is Some <==> s.config_view().providers.apps,
        s.config_view().providers.apps ==> {
            &&& ids_of_providers(s.providers())[0] == "apps"@
            &&& builtin_views(s.providers())[0] matches crate::providers::BuiltinProviderView::Apps { apps, status, .. }
                && s.report() == Some(report_spec(apps, status))
        },
{
    s.lemma_wf();
    if s.config_view().providers.apps {
        let rest = (if s.config_view().providers.calculator { seq![crate::providers::BuiltinProviderView::Calculator] } else { Seq::empty() })
            + (if s.config_view().providers.shell { seq![crate::providers::BuiltinProviderView::Shell] } else { Seq::empty() })
            + (if s.config_view().providers.clipboard { seq![crate::providers::BuiltinProviderView::Clipboard { items: s.history() }] } else { Seq::empty() });
        let first = crate::providers::BuiltinProviderView::Apps {
            apps: provider_apps_spec(s.config_view().apps, s.app_sources().index, s.app_sources().known),
            status: provider_status_spec(s.app_sources().index),
            platform: s.app_sources().platform,
        };
        assert(enabled_providers_spec(s.config_view(), s.app_sources(), s.history()) =~= seq![first] + rest);
        assert(builtin_views(s.providers())[0] == first);
        let ids_rest = (if s.config_view().providers.calculator { seq!["calculator"@] } else { Seq::<Seq<char>>::empty() })
            + (if s.config_view().providers.shell { seq!["shell"@] } else { Seq::<Seq<char>>::empty() })
            + (if s.config_view().providers.clipboard { seq!["clipboard"@] } else { Seq::<Seq<char>>::empty() });
        assert(enabled_ids_spec(s.config_view().providers) =~= seq!["apps"@] + ids_rest);
    }
}

/// What one public call may do to the recency list: leave it as it was, or
/// record one successfully executed non-clipboard result.
pub open spec fn recent_step(a: Seq<Seq<char>>, b: Seq<Seq<char>>) -> bool {
    ||| b == a
    ||| exists|r: SearchResultView| r.kind != ResultKind::Clipboard && #[trigger] record_recent_spec(a, r) == b
}

/// Across any sequence of public calls on a daemon state (each a
/// `recent_step`, as every public method that takes the state mutably
/// ensures), starting from a constructor given a saved recency list of at
/// most the limit of distinct entries (the constructors take the saved list
/// as it is, or start empty): the list never holds more than the limit,
/// never repeats an entry, and it changes only by recording an executed
/// non-clipboard result.
pub proof fn law_recent_bounded_across_calls(states: Seq<DaemonState>)
    requires
        states.len() > 0,
        states[0].recent().len() <= RECENT_RESULT_LIMIT,
        no_repeats(states[0].recent()),
        forall|k: int| 0 <= k < states.len() - 1 ==> recent_step(#[trigger] states[k].recent(), states[k + 1].recent()),
    ensures
        forall|k: int| 0 <= k < states.len() ==> (#[trigger] states[k].recent()).len() <= RECENT_RESULT_LIMIT && no_repeats(states[k].recent()),
    decreases states.len(),
{
    if states.len() > 1 {
        let p = states.drop_last();
        assert forall|k: int| 0 <= k < p.len() - 1 implies recent_step(#[trigger] p[k].recent(), p[k + 1].recent()) by {
            assert(p[k] == states[k] && p[k + 1] == states[k + 1]);
        }
        law_recent_bounded_across_calls(p);
        let n = states.len() - 1;
        let a = states[n - 1].recent();
        let b = states[n].recent();
        assert(p[n - 1] == states[n - 1]);
        assert(a.len() <= RECENT_RESULT_LIMIT && no_repeats(a));
        assert(recent_step(states[n - 1].recent(), states[n - 1 + 1].recent()));
        if b != a {
            let r = choose|r: SearchResultView| r.kind != ResultKind::Clipboard && #[trigger] record_recent_spec(a, r) == b;
            law_recency_bounded(a, r);
            law_recency_coalesces(a, r);
        }
        assert forall|k: int| 0 <= k < states.len() implies (#[trigger] states[k].recent()).len() <= RECENT_RESULT_LIMIT && no_repeats(states[k].recent()) by {
            if k < n {
                assert(p[k] == states[k]);
            }
        }
    }
}

/// The recency list after the results in `executed` were run successfully,
/// one after another, starting from `loaded`.
pub open spec fn recent_after(loaded: Seq<Seq<char>>, executed: Seq<SearchResultView>) -> Seq<Seq<char>>
    decreases executed.len(),
{
    if executed.len() == 0 {
        loaded
    } else {
        record_recent_spec(recent_after(loaded, executed.drop_last()), executed.last())
    }
}

/// Across any run of successful executions the recency list holds at most
/// the limit of entries once a non-clipboard result ran, or from the start
/// when the loaded list was within it; it never repeats an entry when the
/// loaded list did not; and clipboard results leave it unchanged.
pub proof fn law_recent_across_calls(loaded: Seq<Seq<char>>, executed: Seq<SearchResultView>)
    ensures
        loaded.len() <= RECENT_RESULT_LIMIT ==> recent_after(loaded, executed).len() <= RECENT_RESULT_LIMIT,
        (exists|k: int| 0 <= k < executed.len() && #[trigger] executed[k].kind != ResultKind::Clipboard) ==> recent_after(loaded, executed).len() <= RECENT_RESULT_LIMIT,
        no_repeats(loaded) ==> no_repeats(recent_after(loaded, executed)),
        (forall|k: int| 0 <= k < executed.len() ==> #[trigger] executed[k].kind == ResultKind::Clipboard) ==> recent_after(loaded, executed) == loaded,
    decreases executed.len(),
{
    if executed.len() > 0 {
        let p = executed.drop_last();
        law_recent_across_calls(loaded, p);
        law_recency_bounded(recent_after(loaded, p), executed.last());
        if no_repeats(loaded) {
            law_recency_coalesces(recent_after(loaded, p), executed.last());
        }
        if exists|k: int| 0 <= k < executed.len() && #[trigger] executed[k].kind != ResultKind::Clipboard {
            let k = choose|k: int| 0 <= k < executed.len() && #[trigger] executed[k].kind != ResultKind::Clipboard;
            if k < p.len() {
                assert(p[k] == executed[k]);
            }
        }
        if forall|k: int| 0 <= k < executed.len() ==> #[trigger] executed[k].kind == ResultKind::Clipboard {
            assert forall|k: int| 0 <= k < p.len() implies #[trigger] p[k].kind == ResultKind::Clipboard by {
                assert(p[k] == executed[k]);
            }
            assert(executed[executed.len() - 1].kind == ResultKind::Clipboard);
        }
    }
}
} // verus!
