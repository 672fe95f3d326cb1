//! Built-in providers, and the registry built from a configuration.

pub mod app;
pub mod calculator;
pub mod clipboard;
pub mod shell;

use vstd::prelude::*;

use crate::config::{Config, ConfigView};
use crate::plugin_api::{
    Action, ActionView, ExecutionStep, PluginError, PluginErrorView, Provider, ProviderId,
    SearchContext, SearchResult, SearchResultView, StepView,
};
use crate::registry::{ids_of, CoreError, ProviderRegistry};
use self::app::{
    indexed_view, provider_apps_spec, provider_status_spec, AppIndexError, AppIndexStatusView,
    AppLauncherProvider, AppSources, AppSourcesView, IndexResultView, IndexedAppView,
};
use self::calculator::CalculatorProvider;
use self::clipboard::ClipboardHistoryProvider;
use self::shell::ShellCommandProvider;

verus! {

/// Which built-in providers a configuration enables.
#[derive(Debug, Clone, Copy, PartialEq, Eq, Structural)]
pub struct BuiltinProviderSet {
    pub apps: bool,
    pub calculator: bool,
    pub shell: bool,
    pub clipboard: bool,
}

/// One of the built-in providers.
pub enum BuiltinProvider {
    Apps(AppLauncherProvider),
    Calculator(CalculatorProvider),
    Shell(ShellCommandProvider),
    Clipboard(ClipboardHistoryProvider),
}

pub enum BuiltinProviderView {
    Apps { apps: Seq<IndexedAppView>, status: AppIndexStatusView, platform: Seq<char> },
    Calculator,
    Shell,
    Clipboard { items: Seq<Seq<char>> },
}

impl View for BuiltinProvider {
    type V = BuiltinProviderView;

    open spec fn view(&self) -> BuiltinProviderView {
        match self {
            BuiltinProvider::Apps(p) => BuiltinProviderView::Apps { apps: indexed_view(p.apps@), status: p.index_status@, platform: p.platform@ },
            BuiltinProvider::Calculator(_) => BuiltinProviderView::Calculator,
            BuiltinProvider::Shell(_) => BuiltinProviderView::Shell,
            BuiltinProvider::Clipboard(p) => BuiltinProviderView::Clipboard { items: p.items.deep_view() },
        }
    }
}

impl Provider for BuiltinProvider {
    open spec fn id_spec(&self) -> Seq<char> {
        match self {
            BuiltinProvider::Apps(p) => p.id_spec(),
            BuiltinProvider::Calculator(p) => p.id_spec(),
            BuiltinProvider::Shell(p) => p.id_spec(),
            BuiltinProvider::Clipboard(p) => p.id_spec(),
        }
    }

    open spec fn search_spec(&self, query: Seq<char>, limit: usize) -> Result<Seq<SearchResultView>, PluginErrorView> {
        match self {
            BuiltinProvider::Apps(p) => p.search_spec(query, limit),
            BuiltinProvider::Calculator(p) => p.search_spec(query, limit),
            BuiltinProvider::Shell(p) => p.search_spec(query, limit),
            BuiltinProvider::Clipboard(p) => p.search_spec(query, limit),
        }
    }

    open spec fn execute_spec(&self, action: ActionView) -> Result<StepView, PluginErrorView> {
        match self {
            BuiltinProvider::Apps(p) => p.execute_spec(action),
            BuiltinProvider::Calculator(p) => p.execute_spec(action),
            BuiltinProvider::Shell(p) => p.execute_spec(action),
            BuiltinProvider::Clipboard(p) => p.execute_spec(action),
        }
    }

    fn id(&self) -> (r: ProviderId) {
        match self {
            BuiltinProvider::Apps(p) => p.id(),
            BuiltinProvider::Calculator(p) => p.id(),
            BuiltinProvider::Shell(p) => p.id(),
            BuiltinProvider::Clipboard(p) => p.id(),
        }
    }

    fn search(&self, context: &SearchContext) -> (r: Result<Vec<SearchResult>, PluginError>) {
        match self {
            BuiltinProvider::Apps(p) => p.search(context),
            BuiltinProvider::Calculator(p) => p.search(context),
            BuiltinProvider::Shell(p) => p.search(context),
            BuiltinProvider::Clipboard(p) => p.search(context),
        }
    }

    fn execute(&self, action: &Action) -> (r: Result<ExecutionStep, PluginError>) {
        match self {
            BuiltinProvider::Apps(p) => p.execute(action),
            BuiltinProvider::Calculator(p) => p.execute(action),
            BuiltinProvider::Shell(p) => p.execute(action),
            BuiltinProvider::Clipboard(p) => p.execute(action),
        }
    }
}

/// The built-in providers' views, in order.
pub open spec fn builtin_views(ps: Seq<BuiltinProvider>) -> Seq<BuiltinProviderView> {
    ps.map_values(|p: BuiltinProvider| p@)
}

/// The providers a configuration enables, in the order apps, calculator,
/// shell, clipboard; the clipboard provider holds `history`.
pub open spec fn enabled_providers_spec(config: ConfigView, sources: AppSourcesView, history: Seq<Seq<char>>) -> Seq<BuiltinProviderView> {
    (if config.providers.apps {
        seq![BuiltinProviderView::Apps {
            apps: provider_apps_spec(config.apps, sources.index, sources.known),
            status: provider_status_spec(sources.index),
            platform: sources.platform,
        }]
    } else {
        Seq::empty()
    }) + (if config.providers.calculator { seq![BuiltinProviderView::Calculator] } else { Seq::empty() })
        + (if config.providers.shell { seq![BuiltinProviderView::Shell] } else { Seq::empty() })
        + (if config.providers.clipboard { seq![BuiltinProviderView::Clipboard { items: history }] } else { Seq::empty() })
}

/// The identifier of a built-in provider's view.
pub open spec fn builtin_view_id(v: BuiltinProviderView) -> Seq<char> {
    match v {
        BuiltinProviderView::Apps { .. } => "apps"@,
        BuiltinProviderView::Calculator => "calculator"@,
        BuiltinProviderView::Shell => "shell"@,
        BuiltinProviderView::Clipboard { .. } => "clipboard"@,
    }
}

/// The identifiers of the providers a configuration enables.
pub open spec fn enabled_ids_spec(p: crate::config::ProviderConfig) -> Seq<Seq<char>> {
    (if p.apps { seq!["apps"@] } else { Seq::empty() })
        + (if p.calculator { seq!["calculator"@] } else { Seq::empty() })
        + (if p.shell { seq!["shell"@] } else { Seq::empty() })
        + (if p.clipboard { seq!["clipboard"@] } else { Seq::empty() })
}

proof fn lemma_ids_of_push(ps: Seq<BuiltinProvider>, p: BuiltinProvider)
    ensures
        ids_of(ps.push(p)) == ids_of(ps).push(p.id_spec()),
        builtin_views(ps.push(p)) == builtin_views(ps).push(p@),
{
    assert(ids_of(ps.push(p)) =~= ids_of(ps).push(p.id_spec()));
    assert(builtin_views(ps.push(p)) =~= builtin_views(ps).push(p@));
}

/// Build the registry of the enabled built-in providers, the clipboard
/// provider holding `history`. Registration cannot clash: the built-in
/// identifiers differ.
pub fn registry_with_history(config: &Config, history: Vec<String>, sources: &AppSources) -> (r: ProviderRegistry<BuiltinProvider>)
    ensures
        r.wf(),
        builtin_views(r.providers()) == enabled_providers_spec(config@, sources@, history.deep_view()),
        r.ids() == enabled_ids_spec(config.providers),
{
    let mut registry: ProviderRegistry<BuiltinProvider> = ProviderRegistry::new();
    let ghost enabled = config.providers;
    proof {
        reveal_strlit("apps");
        reveal_strlit("calculator");
        reveal_strlit("shell");
        reveal_strlit("clipboard");
        assert("apps"@.len() == 4 && "calculator"@.len() == 10 && "shell"@.len() == 5 && "clipboard"@.len() == 9);
        assert("calculator"@ != "clipboard"@) by {
            assert("calculator"@[1] != "clipboard"@[1]);
        }
        assert(builtin_views(registry.providers()) =~= Seq::<BuiltinProviderView>::empty());
        assert(registry.ids() =~= Seq::<Seq<char>>::empty());
    }
    if config.providers.apps {
        let copy = sources.duplicate();
        let p = BuiltinProvider::Apps(AppLauncherProvider::from_config_sources(config, copy.index, copy.known, copy.platform.as_str()));
        let ghost before = registry.providers();
        let _ = registry.register(p);
        proof {
            lemma_ids_of_push(before, p);
        }
    }
    let ghost after_apps = registry.providers();
    assert(builtin_views(after_apps) =~= (if enabled.apps {
        seq![BuiltinProviderView::Apps {
            apps: provider_apps_spec(config@.apps, sources@.index, sources@.known),
            status: provider_status_spec(sources@.index),
            platform: sources@.platform,
        }]
    } else {
        Seq::<BuiltinProviderView>::empty()
    }));
    assert(registry.ids() =~= (if enabled.apps { seq!["apps"@] } else { Seq::<Seq<char>>::empty() }));
    if config.providers.calculator {
        let p = BuiltinProvider::Calculator(CalculatorProvider);
        let ghost before = registry.providers();
        assert(!registry.ids().contains("calculator"@)) by {
            if registry.ids().contains("calculator"@) {
                let k = choose|k: int| 0 <= k < registry.ids().len() && registry.ids()[k] == "calculator"@;
                assert(registry.ids()[k].len() == "calculator"@.len());
            }
        }
        let _ = registry.register(p);
        proof {
            lemma_ids_of_push(before, p);
        }
    }
    assert(registry.ids() =~= (if enabled.apps { seq!["apps"@] } else { Seq::<Seq<char>>::empty() }) + (if enabled.calculator { seq!["calculator"@] } else { Seq::<Seq<char>>::empty() }));
    assert(builtin_views(registry.providers()) =~= builtin_views(after_apps) + (if enabled.calculator { seq![BuiltinProviderView::Calculator] } else { Seq::<BuiltinProviderView>::empty() }));
    let ghost after_calc = registry.providers();
    if config.providers.shell {
        let p = BuiltinProvider::Shell(ShellCommandProvider);
        let ghost before = registry.providers();
        assert(!registry.ids().contains("shell"@)) by {
            if registry.ids().contains("shell"@) {
                let k = choose|k: int| 0 <= k < registry.ids().len() && registry.ids()[k] == "shell"@;
                assert(registry.ids()[k].len() == "shell"@.len());
            }
        }
        let _ = registry.register(p);
        proof {
            lemma_ids_of_push(before, p);
        }
    }
    assert(registry.ids() =~= (if enabled.apps { seq!["apps"@] } else { Seq::<Seq<char>>::empty() }) + (if enabled.calculator { seq!["calculator"@] } else { Seq::<Seq<char>>::empty() }) + (if enabled.shell { seq!["shell"@] } else { Seq::<Seq<char>>::empty() }));
    assert(builtin_views(registry.providers()) =~= builtin_views(after_calc) + (if enabled.shell { seq![BuiltinProviderView::Shell] } else { Seq::<BuiltinProviderView>::empty() }));
    let ghost after_shell = registry.providers();
    if config.providers.clipboard {
        let p = BuiltinProvider::Clipboard(ClipboardHistoryProvider::with_items(history));
        let ghost before = registry.providers();
        assert(!registry.ids().contains("clipboard"@)) by {
            if registry.ids().contains("clipboard"@) {
                let k = choose|k: int| 0 <= k < registry.ids().len() && registry.ids()[k] == "clipboard"@;
                assert(registry.ids()[k].len() == "clipboard"@.len());
            }
        }
        let _ = registry.register(p);
        proof {
            lemma_ids_of_push(before, p);
        }
    }
    proof {
        assert(builtin_views(registry.providers()) =~= builtin_views(after_shell) + (if enabled.clipboard { seq![BuiltinProviderView::Clipboard { items: history.deep_view() }] } else { Seq::<BuiltinProviderView>::empty() }));
        assert(builtin_views(registry.providers()) =~= enabled_providers_spec(config@, sources@, history.deep_view()));
        assert(registry.ids() =~= enabled_ids_spec(config.providers));
    }
    registry
}

/// The registry of the built-in providers a configuration enables, with an
/// empty clipboard history; the app provider takes its apps from `sources`.
pub fn builtin_registry(config: &Config, sources: &AppSources) -> (r: Result<ProviderRegistry<BuiltinProvider>, CoreError>)
    ensures
        r matches Ok(reg) && reg.wf() && builtin_views(reg.providers()) == enabled_providers_spec(config@, sources@, Seq::empty())
            && reg.ids() == enabled_ids_spec(config.providers),
{
    let history: Vec<String> = Vec::new();
    proof {
        assert(history.deep_view() =~= Seq::<Seq<char>>::empty());
    }
    Ok(registry_with_history(config, history, sources))
}


/// What a built-in provider's search answers, from its view.
pub open spec fn builtin_view_search(v: BuiltinProviderView, query: Seq<char>) -> Result<Seq<SearchResultView>, PluginErrorView> {
    match v {
        BuiltinProviderView::Apps { apps, .. } => Ok(self::app::apps_search_spec(apps)),
        BuiltinProviderView::Calculator => match self::calculator::calc_search_spec(query) {
            Ok(sv) => Ok(sv),
            Err(e) => Err(PluginErrorView::InvalidQuery(self::calculator::calculator_error_text(e))),
        },
        BuiltinProviderView::Shell => Ok(self::shell::shell_search_spec(query)),
        BuiltinProviderView::Clipboard { items } => Ok(self::clipboard::clipboard_search_spec(items)),
    }
}

/// What executing an action through a built-in provider gives back, from its
/// view.
pub open spec fn builtin_view_execute(v: BuiltinProviderView, action: ActionView) -> Result<StepView, PluginErrorView> {
    match v {
        BuiltinProviderView::Apps { platform, .. } => match action {
            ActionView::LaunchApp { command, args } => match self::app::launch_spec(command, platform) {
                Ok(check) => Ok(StepView::Perform(crate::plugin_api::EffectView::Launch { command, args, check_target: check })),
                Err(t) => Err(PluginErrorView::Action(t)),
            },
            ActionView::OpenPath { path } => Ok(StepView::Perform(crate::plugin_api::EffectView::Open { path })),
            _ => Err(PluginErrorView::UnsupportedAction),
        },
        BuiltinProviderView::Calculator => match action {
            ActionView::CopyText { text } => Ok(StepView::Done(self::calculator::calc_copy_message(text))),
            _ => Err(PluginErrorView::UnsupportedAction),
        },
        BuiltinProviderView::Shell => match action {
            ActionView::RunShell { command } => Ok(StepView::Perform(crate::plugin_api::EffectView::Shell { command })),
            _ => Err(PluginErrorView::UnsupportedAction),
        },
        BuiltinProviderView::Clipboard { .. } => match action {
            ActionView::CopyText { text } => Ok(StepView::Done(self::clipboard::clipboard_copy_message((crate::text::utf8_len(text) as usize) as nat))),
            _ => Err(PluginErrorView::UnsupportedAction),
        },
    }
}

/// A built-in provider's answers depend on its view alone.
pub proof fn lemma_builtin_by_view(p: BuiltinProvider, query: Seq<char>, limit: usize, action: ActionView)
    ensures
        p.id_spec() == builtin_view_id(p@),
        p.search_spec(query, limit) == builtin_view_search(p@, query),
        p.execute_spec(action) == builtin_view_execute(p@, action),
{
}

/// Fan-out search over provider views, as the registry does it.
pub open spec fn views_gather(vs: Seq<BuiltinProviderView>, query: Seq<char>) -> Result<Seq<SearchResultView>, crate::registry::CoreErrorView>
    decreases vs.len(),
{
    if vs.len() == 0 {
        Ok(Seq::empty())
    } else {
        match views_gather(vs.drop_last(), query) {
            Err(e) => Err(e),
            Ok(acc) => match builtin_view_search(vs.last(), query) {
                Err(e) => Err(crate::registry::CoreErrorView::ProviderFailed { provider: builtin_view_id(vs.last()), source: e }),
                Ok(v) => Ok(acc + v),
            },
        }
    }
}

/// What a registry of these provider views answers to a search.
pub open spec fn views_search_spec(vs: Seq<BuiltinProviderView>, query: Seq<char>, limit: usize) -> Result<Seq<crate::ranking::RankedView>, crate::registry::CoreErrorView> {
    match views_gather(vs, query) {
        Err(e) => Err(e),
        Ok(all) => {
            let ranked = crate::ranking::rank_results_spec(query, all);
            Ok(if ranked.len() <= limit { ranked } else { ranked.take(limit as int) })
        },
    }
}

/// Position of the first provider view with identifier `id`.
pub open spec fn views_index(vs: Seq<BuiltinProviderView>, id: Seq<char>) -> Option<int>
    decreases vs.len(),
{
    if vs.len() == 0 {
        None
    } else if builtin_view_id(vs[0]) == id {
        Some(0)
    } else {
        match views_index(vs.drop_first(), id) {
            Some(i) => Some(i + 1),
            None => None,
        }
    }
}

/// What executing an action through a registry of these views gives back.
pub open spec fn views_execute_spec(vs: Seq<BuiltinProviderView>, id: Seq<char>, action: ActionView) -> Result<StepView, crate::registry::CoreErrorView> {
    match views_index(vs, id) {
        None => Err(crate::registry::CoreErrorView::ProviderNotFound(id)),
        Some(i) => match builtin_view_execute(vs[i], action) {
            Ok(step) => Ok(step),
            Err(e) => Err(crate::registry::CoreErrorView::ProviderFailed { provider: id, source: e }),
        },
    }
}

proof fn lemma_gather_by_views(ps: Seq<BuiltinProvider>, query: Seq<char>, limit: usize)
    ensures
        crate::registry::gather_spec(ps, query, limit) == views_gather(builtin_views(ps), query),
    decreases ps.len(),
{
    if ps.len() > 0 {
        lemma_gather_by_views(ps.drop_last(), query, limit);
        assert(builtin_views(ps).drop_last() =~= builtin_views(ps.drop_last()));
        lemma_builtin_by_view(ps.last(), query, limit, ActionView::Noop { message: Seq::empty() });
    }
}

proof fn lemma_index_by_views(ps: Seq<BuiltinProvider>, id: Seq<char>)
    ensures
        crate::registry::provider_index(ps, id) == views_index(builtin_views(ps), id),
    decreases ps.len(),
{
    if ps.len() > 0 {
        lemma_builtin_by_view(ps[0], Seq::empty(), 0, ActionView::Noop { message: Seq::empty() });
        lemma_index_by_views(ps.drop_first(), id);
        assert(builtin_views(ps).drop_first() =~= builtin_views(ps.drop_first()));
    }
}

/// A registry of built-in providers answers searches and executions as its
/// provider views say.
pub proof fn lemma_registry_by_views(ps: Seq<BuiltinProvider>, query: Seq<char>, limit: usize, id: Seq<char>, action: ActionView)
    ensures
        crate::registry::registry_search_spec(ps, query, limit) == views_search_spec(builtin_views(ps), query, limit),
        crate::registry::registry_execute_spec(ps, id, action) == views_execute_spec(builtin_views(ps), id, action),
{
    lemma_gather_by_views(ps, query, limit);
    lemma_index_by_views(ps, id);
    match crate::registry::provider_index(ps, id) {
        Some(i) => {
            crate::registry::lemma_provider_index_bound(ps, id);
            lemma_builtin_by_view(ps[i], query, limit, action);
        },
        None => {},
    }
}

/// A search over built-in provider views answers the best-ranked results
/// first: the first `limit` results (or all, when there are fewer) of the
/// ranking of everything the providers found.
pub proof fn law_views_search_best_first(vs: Seq<BuiltinProviderView>, query: Seq<char>, limit: usize)
    ensures
        views_search_spec(vs, query, limit) matches Ok(v) ==> views_gather(vs, query) matches Ok(all) && {
            let ranked = crate::ranking::rank_results_spec(query, all);
            &&& v.len() == (if ranked.len() <= limit { ranked.len() } else { limit as nat })
            &&& forall|i: int| 0 <= i < v.len() ==> #[trigger] v[i] == ranked[i]
            &&& forall|i: int, j: int| 0 <= i < v.len() <= j < ranked.len() ==> !crate::ranking::ranks_before(#[trigger] ranked[j], #[trigger] v[i])
        },
{
    match views_gather(vs, query) {
        Ok(all) => {
            crate::ranking::law_rank_results_ordered(query, all);
        },
        Err(_) => {},
    }
}
} // verus!
