//! Provider and action data types shared by the built-in providers.

use vstd::prelude::*;

use crate::text::lit;

verus! {

/// Identifier of a registered provider, such as `"calculator"`.
#[derive(Debug, PartialEq, Eq)]
pub struct ProviderId {
    pub id: String,
}

impl View for ProviderId {
    type V = Seq<char>;

    open spec fn view(&self) -> Seq<char> {
        self.id@
    }
}

impl Clone for ProviderId {
    fn clone(&self) -> (r: Self)
        ensures
            r@ == self@,
    {
        ProviderId { id: self.id.clone() }
    }
}

impl ProviderId {
    pub fn new(id: &str) -> (r: Self)
        ensures
            r@ == id@,
    {
        ProviderId { id: lit(id) }
    }

    pub fn as_str(&self) -> (s: &str)
        ensures
            s@ == self@,
    {
        self.id.as_str()
    }
}

/// Raw text typed into the palette.
#[derive(Debug, PartialEq, Eq)]
pub struct SearchQuery {
    pub text: String,
}

impl View for SearchQuery {
    type V = Seq<char>;

    open spec fn view(&self) -> Seq<char> {
        self.text@
    }
}

impl SearchQuery {
    pub fn new(raw: &str) -> (r: Self)
        ensures
            r@ == raw@,
    {
        SearchQuery { text: lit(raw) }
    }

    pub fn raw(&self) -> (s: &str)
        ensures
            s@ == self@,
    {
        self.text.as_str()
    }

    /// The query without leading and trailing whitespace.
    pub fn trimmed(&self) -> (s: String)
        ensures
            s@ == crate::text::trim_seq(self@),
    {
        crate::text::trim(self.text.as_str())
    }

    /// A query is empty when nothing but whitespace was typed.
    pub fn is_empty(&self) -> (b: bool)
        ensures
            b == (crate::text::trim_seq(self@).len() == 0),
    {
        let t = self.trimmed();
        t.as_str().is_empty()
    }
}

/// What a provider receives when asked to search.
#[derive(Debug)]
pub struct SearchContext {
    pub query: SearchQuery,
    pub limit: usize,
}

impl SearchContext {
    pub fn new(query: &str, limit: usize) -> (r: Self)
        ensures
            r.query@ == query@,
            r.limit == limit,
    {
        SearchContext { query: SearchQuery::new(query), limit }
    }
}

#[derive(Debug, Clone, Copy, PartialEq, Eq, Structural)]
pub enum ResultKind {
    App,
    Calculator,
    Shell,
    Clipboard,
    Plugin,
    System,
}

/// What happens when a result is executed.
#[derive(Debug, PartialEq, Eq)]
pub enum Action {
    /// Spawn an executable or command directly with optional arguments.
    LaunchApp { command: String, args: Vec<String> },
    /// Open a local path through the platform shell/default application.
    OpenPath { path: String },
    /// Run a shell command after explicit caller approval.
    RunShell { command: String },
    /// Make text available to copy.
    CopyText { text: String },
    /// Return a message without taking an external action.
    Noop { message: String },
}

/// An action with its strings taken as character sequences.
pub enum ActionView {
    LaunchApp { command: Seq<char>, args: Seq<Seq<char>> },
    OpenPath { path: Seq<char> },
    RunShell { command: Seq<char> },
    CopyText { text: Seq<char> },
    Noop { message: Seq<char> },
}

impl View for Action {
    type V = ActionView;

    open spec fn view(&self) -> ActionView {
        match self {
            Action::LaunchApp { command, args } => ActionView::LaunchApp {
                command: command@,
                args: args.deep_view(),
            },
            Action::OpenPath { path } => ActionView::OpenPath { path: path@ },
            Action::RunShell { command } => ActionView::RunShell { command: command@ },
            Action::CopyText { text } => ActionView::CopyText { text: text@ },
            Action::Noop { message } => ActionView::Noop { message: message@ },
        }
    }
}

/// Copy a list of strings, keeping every string.
pub fn clone_strings(v: &Vec<String>) -> (r: Vec<String>)
    ensures
        r.deep_view() == v.deep_view(),
{
    let r = v.clone();
    proof {
        assert forall|i: int| 0 <= i < r@.len() implies r@[i] == v@[i] by {
            assert(cloned::<String>(v[i], r[i]));
        }
        assert(r.deep_view() =~= v.deep_view());
    }
    r
}

impl Clone for Action {
    fn clone(&self) -> (r: Self)
        ensures
            r@ == self@,
    {
        match self {
            Action::LaunchApp { command, args } => {
                Action::LaunchApp { command: command.clone(), args: clone_strings(args) }
            },
            Action::OpenPath { path } => Action::OpenPath { path: path.clone() },
            Action::RunShell { command } => Action::RunShell { command: command.clone() },
            Action::CopyText { text } => Action::CopyText { text: text.clone() },
            Action::Noop { message } => Action::Noop { message: message.clone() },
        }
    }
}

/// The label a result shows for its primary action.
pub open spec fn primary_label_spec(action: ActionView) -> Seq<char> {
    match action {
        ActionView::LaunchApp { .. } => "Launch"@,
        ActionView::OpenPath { .. } => "Open"@,
        ActionView::RunShell { .. } => "Run"@,
        ActionView::CopyText { .. } => "Copy"@,
        ActionView::Noop { .. } => "Show"@,
    }
}

pub fn primary_action_label(action: &Action) -> (s: String)
    ensures
        s@ == primary_label_spec(action@),
{
    match action {
        Action::LaunchApp { .. } => lit("Launch"),
        Action::OpenPath { .. } => lit("Open"),
        Action::RunShell { .. } => lit("Run"),
        Action::CopyText { .. } => lit("Copy"),
        Action::Noop { .. } => lit("Show"),
    }
}

#[derive(Debug, PartialEq, Eq)]
pub struct ActionDescriptor {
    pub id: String,
    pub label: String,
    pub action: Action,
    pub primary: bool,
}

pub struct ActionDescriptorView {
    pub id: Seq<char>,
    pub label: Seq<char>,
    pub action: ActionView,
    pub primary: bool,
}

impl View for ActionDescriptor {
    type V = ActionDescriptorView;

    open spec fn view(&self) -> ActionDescriptorView {
        ActionDescriptorView {
            id: self.id@,
            label: self.label@,
            action: self.action@,
            primary: self.primary,
        }
    }
}

impl Clone for ActionDescriptor {
    fn clone(&self) -> (r: Self)
        ensures
            r@ == self@,
    {
        ActionDescriptor {
            id: self.id.clone(),
            label: self.label.clone(),
            action: self.action.clone(),
            primary: self.primary,
        }
    }
}

impl ActionDescriptor {
    pub fn primary(label: &str, action: Action) -> (r: Self)
        ensures
            r.id@ == "primary"@,
            r.label@ == label@,
            r.action@ == action@,
            r.primary,
    {
        ActionDescriptor { id: lit("primary"), label: lit(label), action, primary: true }
    }
}

/// One result offered by a provider.
#[derive(Debug, PartialEq, Eq)]
pub struct SearchResult {
    pub id: String,
    pub provider: ProviderId,
    pub title: String,
    pub subtitle: Option<String>,
    pub kind: ResultKind,
    pub action: Action,
    pub actions: Vec<ActionDescriptor>,
    pub keywords: Vec<String>,
    pub score_hint: i64,
}

pub struct SearchResultView {
    pub id: Seq<char>,
    pub provider: Seq<char>,
    pub title: Seq<char>,
    pub subtitle: Option<Seq<char>>,
    pub kind: ResultKind,
    pub action: ActionView,
    pub actions: Seq<ActionDescriptorView>,
    pub keywords: Seq<Seq<char>>,
    pub score_hint: i64,
}

pub open spec fn opt_string_view(s: Option<String>) -> Option<Seq<char>> {
    match s {
        Some(t) => Some(t@),
        None => None,
    }
}

pub open spec fn descriptors_view(v: Seq<ActionDescriptor>) -> Seq<ActionDescriptorView> {
    v.map_values(|d: ActionDescriptor| d@)
}

impl View for SearchResult {
    type V = SearchResultView;

    open spec fn view(&self) -> SearchResultView {
        SearchResultView {
            id: self.id@,
            provider: self.provider@,
            title: self.title@,
            subtitle: opt_string_view(self.subtitle),
            kind: self.kind,
            action: self.action@,
            actions: descriptors_view(self.actions@),
            keywords: self.keywords.deep_view(),
            score_hint: self.score_hint,
        }
    }
}

/// The views of a list of results.
pub open spec fn results_view(v: Seq<SearchResult>) -> Seq<SearchResultView> {
    v.map_values(|r: SearchResult| r@)
}

pub open spec fn descriptor_view_of(d: &ActionDescriptor) -> ActionDescriptorView {
    d@
}

pub fn clone_descriptors(v: &Vec<ActionDescriptor>) -> (r: Vec<ActionDescriptor>)
    ensures
        descriptors_view(r@) == descriptors_view(v@),
{
    let mut r: Vec<ActionDescriptor> = Vec::new();
    let mut i: usize = 0;
    while i < v.len()
        invariant
            i <= v@.len(),
            r@.len() == i,
            descriptors_view(r@) == descriptors_view(v@.take(i as int)),
        decreases v@.len() - i,
    {
        let c = v[i].clone();
        let ghost old_r = r@;
        r.push(c);
        proof {
            assert(v@.take(i + 1) =~= v@.take(i as int).push(v@[i as int]));
            assert forall|j: int| 0 <= j < r@.len() implies descriptors_view(r@)[j] == descriptors_view(v@.take(i + 1))[j] by {
                if j < i {
                    assert(descriptors_view(old_r)[j] == descriptors_view(v@.take(i as int))[j]);
                    assert(r@[j] == old_r[j]);
                } else {
                    assert(r@[j] == c);
                }
            }
            assert(descriptors_view(r@) =~= descriptors_view(v@.take(i + 1)));
        }
        i += 1;
    }
    proof {
        assert(v@.take(v@.len() as int) =~= v@);
    }
    r
}

pub fn clone_opt_string(s: &Option<String>) -> (r: Option<String>)
    ensures
        opt_string_view(r) == opt_string_view(*s),
{
    match s {
        Some(t) => Some(t.clone()),
        None => None,
    }
}

impl Clone for SearchResult {
    fn clone(&self) -> (r: Self)
        ensures
            r@ == self@,
    {
        let subtitle = clone_opt_string(&self.subtitle);
        let actions = clone_descriptors(&self.actions);
        let keywords = clone_strings(&self.keywords);
        SearchResult {
            id: self.id.clone(),
            provider: self.provider.clone(),
            title: self.title.clone(),
            subtitle,
            kind: self.kind,
            action: self.action.clone(),
            actions,
            keywords,
            score_hint: self.score_hint,
        }
    }
}

/// The action a result runs when chosen: the first descriptor marked primary,
/// or the `action` field when no descriptor is marked.
pub open spec fn primary_action_spec(r: SearchResultView) -> ActionView {
    primary_action_from(r.actions, r.action)
}

pub open spec fn primary_action_from(descs: Seq<ActionDescriptorView>, fallback: ActionView) -> ActionView
    decreases descs.len(),
{
    if descs.len() == 0 {
        fallback
    } else if descs[0].primary {
        descs[0].action
    } else {
        primary_action_from(descs.drop_first(), fallback)
    }
}

/// The view of a freshly made result: no subtitle, no keywords, no score hint,
/// and one primary descriptor that mirrors the action.
pub open spec fn new_result_view(
    provider: Seq<char>,
    id: Seq<char>,
    title: Seq<char>,
    kind: ResultKind,
    action: ActionView,
) -> SearchResultView {
    SearchResultView {
        id,
        provider,
        title,
        subtitle: None,
        kind,
        action,
        actions: seq![
            ActionDescriptorView { id: "primary"@, label: primary_label_spec(action), action, primary: true },
        ],
        keywords: Seq::empty(),
        score_hint: 0,
    }
}

impl SearchResult {
    /// A result whose primary action descriptor mirrors `action`.
    pub fn new(provider: ProviderId, id: &str, title: &str, kind: ResultKind, action: Action) -> (r:
        Self)
        ensures
            r@ == new_result_view(provider@, id@, title@, kind, action@),
    {
        Self::from_parts(provider, lit(id), lit(title), kind, action)
    }

    /// Same as `new`, taking owned strings.
    pub fn from_parts(provider: ProviderId, id: String, title: String, kind: ResultKind, action: Action) -> (r: Self)
        ensures
            r@ == new_result_view(provider@, id@, title@, kind, action@),
    {
        let label = primary_action_label(&action);
        let copy = action.clone();
        let descriptor = ActionDescriptor { id: lit("primary"), label, action: copy, primary: true };
        let mut actions: Vec<ActionDescriptor> = Vec::new();
        actions.push(descriptor);
        let keywords: Vec<String> = Vec::new();
        proof {
            assert(keywords.deep_view() =~= Seq::<Seq<char>>::empty());
            assert(descriptors_view(actions@) =~= seq![descriptor_view_of(&actions@[0])]);
        }
        SearchResult {
            id,
            provider,
            title,
            subtitle: None,
            kind,
            action,
            actions,
            keywords,
            score_hint: 0,
        }
    }

    pub fn primary_action(&self) -> (a: &Action)
        ensures
            a@ == primary_action_spec(self@),
    {
        let mut i: usize = 0;
        proof {
            assert(descriptors_view(self.actions@).skip(0) =~= descriptors_view(self.actions@));
        }
        while i < self.actions.len()
            invariant
                i <= self.actions@.len(),
                primary_action_spec(self@) == primary_action_from(
                    descriptors_view(self.actions@).skip(i as int),
                    self.action@,
                ),
            decreases self.actions@.len() - i,
        {
            proof {
                assert(descriptors_view(self.actions@).skip(i as int).drop_first() =~= descriptors_view(self.actions@).skip(i + 1));
            }
            if self.actions[i].primary {
                return &self.actions[i].action;
            }
            i += 1;
        }
        proof {
            assert(descriptors_view(self.actions@).skip(i as int).len() == 0);
        }
        &self.action
    }

    pub fn with_subtitle(self, subtitle: &str) -> (r: Self)
        ensures
            r@ == (SearchResultView { subtitle: Some(subtitle@), ..self@ }),
    {
        SearchResult { subtitle: Some(lit(subtitle)), ..self }
    }

    pub fn with_keywords(self, keywords: Vec<String>) -> (r: Self)
        ensures
            r@ == (SearchResultView { keywords: keywords.deep_view(), ..self@ }),
    {
        SearchResult { keywords, ..self }
    }

    pub fn with_score_hint(self, score_hint: i64) -> (r: Self)
        ensures
            r@ == (SearchResultView { score_hint, ..self@ }),
    {
        SearchResult { score_hint, ..self }
    }
}

/// The message returned after an action ran.
#[derive(Debug, PartialEq, Eq)]
pub struct ActionOutcome {
    pub message: String,
}

impl ActionOutcome {
    pub fn new(message: String) -> (r: Self)
        ensures
            r.message == message,
    {
        ActionOutcome { message }
    }
}

#[derive(Debug, PartialEq, Eq)]
pub enum PluginError {
    Action(String),
    InvalidQuery(String),
    Provider(String),
    UnsupportedAction,
}

pub open spec fn plugin_error_view_text(e: PluginErrorView) -> Seq<char> {
    match e {
        PluginErrorView::Action(m) => "action failed: "@ + m,
        PluginErrorView::InvalidQuery(m) => "invalid query: "@ + m,
        PluginErrorView::Provider(m) => "provider failed: "@ + m,
        PluginErrorView::UnsupportedAction => "provider does not support this action"@,
    }
}

pub open spec fn plugin_error_text(e: PluginError) -> Seq<char> {
    plugin_error_view_text(e@)
}

impl PluginError {
    /// The human-readable error text.
    pub fn message(&self) -> (s: String)
        ensures
            s@ == plugin_error_text(*self),
    {
        match self {
            PluginError::Action(m) => crate::text::concat2("action failed: ", m.as_str()),
            PluginError::InvalidQuery(m) => crate::text::concat2("invalid query: ", m.as_str()),
            PluginError::Provider(m) => crate::text::concat2("provider failed: ", m.as_str()),
            PluginError::UnsupportedAction => lit("provider does not support this action"),
        }
    }
}


/// Outside work that an action needs before it has an outcome: starting a
/// process, opening a file with its default application, or running a shell
/// command. The library decides which work is needed; the caller performs it
/// and reports back through [`EffectReport`].
#[derive(Debug, PartialEq, Eq)]
pub enum ActionEffect {
    /// Spawn `command` with `args`. When `check_target` is set, `command` is
    /// an explicit path that must exist before anything is spawned.
    Launch { command: String, args: Vec<String>, check_target: bool },
    /// Open `path` with the platform's default application; `path` must exist.
    Open { path: String },
    /// Run `command` through the platform shell.
    Shell { command: String },
}

/// The result of executing an action: either done already, or waiting for
/// outside work.
#[derive(Debug, PartialEq, Eq)]
pub enum ExecutionStep {
    Done(ActionOutcome),
    Perform(ActionEffect),
}

/// What happened when the caller performed a launch or open effect.
#[derive(Debug, PartialEq, Eq)]
pub enum SpawnReport {
    /// The target file did not exist; nothing was started.
    TargetMissing,
    /// The process or the default application was started.
    Started,
    /// Starting failed with the given system message.
    Failed(String),
}

/// What happened when the caller ran a shell command.
#[derive(Debug, PartialEq, Eq)]
pub enum ShellReport {
    /// The shell could not be started.
    StartFailed(String),
    /// The shell ran; `code` is its exit code when it had one.
    Exited { code: Option<i32>, success: bool, stdout: String, stderr: String },
}

#[derive(Debug, PartialEq, Eq)]
pub enum EffectReport {
    Spawn(SpawnReport),
    Shell(ShellReport),
}

/// The report kind that fits an effect.
pub open spec fn report_fits(effect: ActionEffect, report: EffectReport) -> bool {
    match effect {
        ActionEffect::Shell { .. } => report is Shell,
        _ => report is Spawn,
    }
}

/// The error text of a failed launch or open.
pub open spec fn spawn_error_text(effect: ActionEffect, report: SpawnReport) -> Seq<char> {
    match (effect, report) {
        (ActionEffect::Launch { command, .. }, SpawnReport::TargetMissing) => "app target does not exist: "@ + command@,
        (ActionEffect::Open { path }, SpawnReport::TargetMissing) => "app target does not exist: "@ + path@,
        (ActionEffect::Launch { command, .. }, SpawnReport::Failed(d)) => "failed to launch app '"@ + command@ + "': "@ + d@,
        (ActionEffect::Open { path }, SpawnReport::Failed(d)) => "failed to open path '"@ + path@ + "' with the default app: "@ + d@,
        _ => Seq::empty(),
    }
}

/// The exit status as the shell summary writes it.
pub open spec fn exit_status_text(code: Option<i32>) -> Seq<char> {
    match code {
        Some(c) => crate::text::int_digits(c as int),
        None => "terminated by signal"@,
    }
}

pub open spec fn shell_summary(success: bool, stdout: Seq<char>, stderr: Seq<char>) -> Seq<char> {
    if success {
        match crate::text::first_nonblank_line(stdout) {
            Some(l) => l,
            None => "command completed"@,
        }
    } else {
        match crate::text::first_nonblank_line(stderr) {
            Some(l) => l,
            None => "command failed"@,
        }
    }
}

/// The outcome text, or the error, once the caller has performed `effect`.
pub open spec fn effect_result_spec(effect: ActionEffect, report: EffectReport) -> Result<Seq<char>, PluginError> {
    match report {
        EffectReport::Spawn(SpawnReport::Started) => match effect {
            ActionEffect::Launch { command, .. } => Ok("launched "@ + command@),
            ActionEffect::Open { path } => Ok("opened "@ + path@),
            ActionEffect::Shell { .. } => Ok(Seq::empty()),
        },
        EffectReport::Spawn(sr) => Err(PluginError::Action(arbitrary())),
        EffectReport::Shell(ShellReport::StartFailed(_)) => Err(PluginError::Action(arbitrary())),
        EffectReport::Shell(ShellReport::Exited { code, success, stdout, stderr }) => Ok(
            "shell exited with "@ + exit_status_text(code) + ": "@ + shell_summary(success, stdout@, stderr@),
        ),
    }
}

/// The error text that goes with a failed effect.
pub open spec fn effect_error_text(effect: ActionEffect, report: EffectReport) -> Seq<char> {
    match report {
        EffectReport::Spawn(sr) => spawn_error_text(effect, sr),
        EffectReport::Shell(ShellReport::StartFailed(d)) => "failed to start shell: "@ + d@,
        _ => Seq::empty(),
    }
}

fn join3(a: &str, b: &str, c: &str) -> (r: String)
    ensures
        r@ == a@ + b@ + c@,
{
    let mut r = crate::text::concat2(a, b);
    crate::text::append_str(&mut r, c);
    r
}

/// Turn the caller's report on outside work into the action's outcome.
pub fn complete_effect(effect: &ActionEffect, report: &EffectReport) -> (r: Result<ActionOutcome, PluginError>)
    requires
        report_fits(*effect, *report),
    ensures
        match (r, effect_result_spec(*effect, *report)) {
            (Ok(o), Ok(t)) => o.message@ == t,
            (Err(PluginError::Action(m)), Err(_)) => m@ == effect_error_text(*effect, *report),
            _ => false,
        },
{
    match report {
        EffectReport::Spawn(SpawnReport::Started) => match effect {
            ActionEffect::Launch { command, .. } => Ok(ActionOutcome::new(crate::text::concat2("launched ", command.as_str()))),
            ActionEffect::Open { path } => Ok(ActionOutcome::new(crate::text::concat2("opened ", path.as_str()))),
            ActionEffect::Shell { .. } => Ok(ActionOutcome::new(String::new())),
        },
        EffectReport::Spawn(SpawnReport::TargetMissing) => {
            let target = match effect {
                ActionEffect::Launch { command, .. } => command.as_str(),
                ActionEffect::Open { path } => path.as_str(),
                ActionEffect::Shell { command } => command.as_str(),
            };
            Err(PluginError::Action(crate::text::concat2("app target does not exist: ", target)))
        },
        EffectReport::Spawn(SpawnReport::Failed(d)) => match effect {
            ActionEffect::Launch { command, .. } => {
                let mut m = join3("failed to launch app '", command.as_str(), "': ");
                crate::text::append_str(&mut m, d.as_str());
                Err(PluginError::Action(m))
            },
            ActionEffect::Open { path } => {
                let mut m = join3("failed to open path '", path.as_str(), "' with the default app: ");
                crate::text::append_str(&mut m, d.as_str());
                Err(PluginError::Action(m))
            },
            ActionEffect::Shell { .. } => Err(PluginError::Action(String::new())),
        },
        EffectReport::Shell(ShellReport::StartFailed(d)) => {
            Err(PluginError::Action(crate::text::concat2("failed to start shell: ", d.as_str())))
        },
        EffectReport::Shell(ShellReport::Exited { code, success, stdout, stderr }) => {
            let status = match code {
                Some(c) => crate::text::i64_to_decimal(*c as i64),
                None => lit("terminated by signal"),
            };
            let source = if *success { stdout } else { stderr };
            let chars = crate::text::chars_of(source.as_str());
            let summary = match crate::text::first_non_empty_line(&chars) {
                Some(line) => crate::text::string_from_chars(&line),
                None => if *success { lit("command completed") } else { lit("command failed") },
            };
            let mut m = join3("shell exited with ", status.as_str(), ": ");
            crate::text::append_str(&mut m, summary.as_str());
            Ok(ActionOutcome::new(m))
        },
    }
}

pub enum PluginErrorView {
    Action(Seq<char>),
    InvalidQuery(Seq<char>),
    Provider(Seq<char>),
    UnsupportedAction,
}

impl View for PluginError {
    type V = PluginErrorView;

    open spec fn view(&self) -> PluginErrorView {
        match self {
            PluginError::Action(m) => PluginErrorView::Action(m@),
            PluginError::InvalidQuery(m) => PluginErrorView::InvalidQuery(m@),
            PluginError::Provider(m) => PluginErrorView::Provider(m@),
            PluginError::UnsupportedAction => PluginErrorView::UnsupportedAction,
        }
    }
}

impl Clone for PluginError {
    fn clone(&self) -> (r: Self)
        ensures
            r@ == self@,
    {
        match self {
            PluginError::Action(m) => PluginError::Action(m.clone()),
            PluginError::InvalidQuery(m) => PluginError::InvalidQuery(m.clone()),
            PluginError::Provider(m) => PluginError::Provider(m.clone()),
            PluginError::UnsupportedAction => PluginError::UnsupportedAction,
        }
    }
}

pub enum EffectView {
    Launch { command: Seq<char>, args: Seq<Seq<char>>, check_target: bool },
    Open { path: Seq<char> },
    Shell { command: Seq<char> },
}

impl View for ActionEffect {
    type V = EffectView;

    open spec fn view(&self) -> EffectView {
        match self {
            ActionEffect::Launch { command, args, check_target } => EffectView::Launch { command: command@, args: args.deep_view(), check_target: *check_target },
            ActionEffect::Open { path } => EffectView::Open { path: path@ },
            ActionEffect::Shell { command } => EffectView::Shell { command: command@ },
        }
    }
}

impl Clone for ActionEffect {
    fn clone(&self) -> (r: Self)
        ensures
            r@ == self@,
    {
        match self {
            ActionEffect::Launch { command, args, check_target } => ActionEffect::Launch { command: command.clone(), args: clone_strings(args), check_target: *check_target },
            ActionEffect::Open { path } => ActionEffect::Open { path: path.clone() },
            ActionEffect::Shell { command } => ActionEffect::Shell { command: command.clone() },
        }
    }
}

pub enum StepView {
    Done(Seq<char>),
    Perform(EffectView),
}

impl View for ExecutionStep {
    type V = StepView;

    open spec fn view(&self) -> StepView {
        match self {
            ExecutionStep::Done(o) => StepView::Done(o.message@),
            ExecutionStep::Perform(e) => StepView::Perform(e@),
        }
    }
}

/// The view of an execution result.
pub open spec fn step_result_view(r: Result<ExecutionStep, PluginError>) -> Result<StepView, PluginErrorView> {
    match r {
        Ok(s) => Ok(s@),
        Err(e) => Err(e@),
    }
}

/// The view of a search answer.
pub open spec fn search_result_view(r: Result<Vec<SearchResult>, PluginError>) -> Result<Seq<SearchResultView>, PluginErrorView> {
    match r {
        Ok(v) => Ok(results_view(v@)),
        Err(e) => Err(e@),
    }
}

/// What executing an action gives back when a provider runs no actions of
/// its own: a no-op action completes with its message, anything else is
/// unsupported.
pub open spec fn default_execute_spec(action: ActionView) -> Result<StepView, PluginErrorView> {
    match action {
        ActionView::Noop { message } => Ok(StepView::Done(message)),
        _ => Err(PluginErrorView::UnsupportedAction),
    }
}

/// A source of search results that can also execute the actions it offers.
///
/// Each provider states, through its spec functions, which identifier it
/// reports, what a search answers and what executing an action gives back.
pub trait Provider {
    /// The identifier the provider reports. A provider that does not state
    /// it leaves it unknown, and then cannot prove its `id`.
    open spec fn id_spec(&self) -> Seq<char> {
        arbitrary()
    }

    /// What a search answers; unknown unless the provider states it.
    open spec fn search_spec(&self, query: Seq<char>, limit: usize) -> Result<Seq<SearchResultView>, PluginErrorView> {
        arbitrary()
    }

    /// What executing an action gives back; by default only a no-op action
    /// completes, with its message.
    open spec fn execute_spec(&self, action: ActionView) -> Result<StepView, PluginErrorView> {
        default_execute_spec(action)
    }

    fn id(&self) -> (r: ProviderId)
        ensures
            r@ == self.id_spec(),
    ;

    fn search(&self, context: &SearchContext) -> (r: Result<Vec<SearchResult>, PluginError>)
        ensures
            search_result_view(r) == self.search_spec(context.query@, context.limit),
    ;

    fn execute(&self, action: &Action) -> (r: Result<ExecutionStep, PluginError>)
        ensures
            step_result_view(r) == self.execute_spec(action@),
    ;
}

/// The answer of a provider that runs no actions of its own.
pub fn execute_noop_only(action: &Action) -> (r: Result<ExecutionStep, PluginError>)
    ensures
        step_result_view(r) == default_execute_spec(action@),
{
    match action {
        Action::Noop { message } => Ok(ExecutionStep::Done(ActionOutcome::new(message.clone()))),
        _ => Err(PluginError::UnsupportedAction),
    }
}

} // verus!
