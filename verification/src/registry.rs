//! The provider registry: registration with unique identifiers, fan-out
//! search with ranking and truncation, and execution routed by provider id.

use vstd::prelude::*;

use crate::plugin_api::{
    results_view, search_result_view, step_result_view, Action, ActionView, ExecutionStep,
    PluginError, PluginErrorView, Provider, ProviderId, SearchContext, SearchResult,
    SearchResultView, StepView,
};
use crate::ranking::{rank_results, rank_results_spec, ranked_view, RankedResult, RankedView};
use crate::text::{concat2, lit};

verus! {

/// Errors of the core library.
#[derive(Debug, PartialEq, Eq)]
pub enum CoreError {
    ConfigRead { path: String, detail: String },
    ConfigParse { path: String, detail: String },
    ProviderAlreadyRegistered(String),
    ProviderNotFound(String),
    ProviderFailed { provider: String, source: PluginError },
}

pub enum CoreErrorView {
    ConfigRead { path: Seq<char>, detail: Seq<char> },
    ConfigParse { path: Seq<char>, detail: Seq<char> },
    ProviderAlreadyRegistered(Seq<char>),
    ProviderNotFound(Seq<char>),
    ProviderFailed { provider: Seq<char>, source: PluginErrorView },
}

impl View for CoreError {
    type V = CoreErrorView;

    open spec fn view(&self) -> CoreErrorView {
        match self {
            CoreError::ConfigRead { path, detail } => CoreErrorView::ConfigRead { path: path@, detail: detail@ },
            CoreError::ConfigParse { path, detail } => CoreErrorView::ConfigParse { path: path@, detail: detail@ },
            CoreError::ProviderAlreadyRegistered(id) => CoreErrorView::ProviderAlreadyRegistered(id@),
            CoreError::ProviderNotFound(id) => CoreErrorView::ProviderNotFound(id@),
            CoreError::ProviderFailed { provider, source } => CoreErrorView::ProviderFailed { provider: provider@, source: source@ },
        }
    }
}

impl Clone for CoreError {
    fn clone(&self) -> (r: Self)
        ensures
            r@ == self@,
    {
        match self {
            CoreError::ConfigRead { path, detail } => CoreError::ConfigRead { path: path.clone(), detail: detail.clone() },
            CoreError::ConfigParse { path, detail } => CoreError::ConfigParse { path: path.clone(), detail: detail.clone() },
            CoreError::ProviderAlreadyRegistered(id) => CoreError::ProviderAlreadyRegistered(id.clone()),
            CoreError::ProviderNotFound(id) => CoreError::ProviderNotFound(id.clone()),
            CoreError::ProviderFailed { provider, source } => CoreError::ProviderFailed { provider: provider.clone(), source: source.clone() },
        }
    }
}

pub open spec fn core_error_text(e: CoreErrorView) -> Seq<char> {
    match e {
        CoreErrorView::ConfigRead { path, detail } => "failed to read config at "@ + path + ": "@ + detail,
        CoreErrorView::ConfigParse { path, detail } => "failed to parse config at "@ + path + ": "@ + detail,
        CoreErrorView::ProviderAlreadyRegistered(id) => "provider '"@ + id + "' is already registered"@,
        CoreErrorView::ProviderNotFound(id) => "provider '"@ + id + "' is not registered"@,
        CoreErrorView::ProviderFailed { provider, source } => "provider '"@ + provider + "' failed: "@ + crate::plugin_api::plugin_error_view_text(source),
    }
}

fn join4(a: &str, b: &str, c: &str, d: &str) -> (r: String)
    ensures
        r@ == a@ + b@ + c@ + d@,
{
    let mut r = concat2(a, b);
    crate::text::append_str(&mut r, c);
    crate::text::append_str(&mut r, d);
    r
}

impl CoreError {
    /// The human-readable error text.
    pub fn message(&self) -> (s: String)
        ensures
            s@ == core_error_text(self@),
    {
        match self {
            CoreError::ConfigRead { path, detail } => join4("failed to read config at ", path.as_str(), ": ", detail.as_str()),
            CoreError::ConfigParse { path, detail } => join4("failed to parse config at ", path.as_str(), ": ", detail.as_str()),
            CoreError::ProviderAlreadyRegistered(id) => {
                let mut s = concat2("provider '", id.as_str());
                crate::text::append_str(&mut s, "' is already registered");
                s
            },
            CoreError::ProviderNotFound(id) => {
                let mut s = concat2("provider '", id.as_str());
                crate::text::append_str(&mut s, "' is not registered");
                s
            },
            CoreError::ProviderFailed { provider, source } => {
                let m = source.message();
                join4("provider '", provider.as_str(), "' failed: ", m.as_str())
            },
        }
    }
}

/// The identifiers of a list of providers, in order.
pub open spec fn ids_of<P: Provider>(providers: Seq<P>) -> Seq<Seq<char>> {
    providers.map_values(|p: P| p.id_spec())
}

/// Fan a search out to every provider in order. The first provider that
/// fails decides the answer; otherwise the results are concatenated.
pub open spec fn gather_spec<P: Provider>(providers: Seq<P>, query: Seq<char>, limit: usize) -> Result<Seq<SearchResultView>, CoreErrorView>
    decreases providers.len(),
{
    if providers.len() == 0 {
        Ok(Seq::empty())
    } else {
        match gather_spec(providers.drop_last(), query, limit) {
            Err(e) => Err(e),
            Ok(acc) => match providers.last().search_spec(query, limit) {
                Err(e) => Err(CoreErrorView::ProviderFailed { provider: providers.last().id_spec(), source: e }),
                Ok(v) => Ok(acc + v),
            },
        }
    }
}

/// What a registry search answers: the ranked results of all providers,
/// cut to `limit`.
pub open spec fn registry_search_spec<P: Provider>(providers: Seq<P>, query: Seq<char>, limit: usize) -> Result<Seq<RankedView>, CoreErrorView> {
    match gather_spec(providers, query, limit) {
        Err(e) => Err(e),
        Ok(all) => {
            let ranked = rank_results_spec(query, all);
            Ok(if ranked.len() <= limit { ranked } else { ranked.take(limit as int) })
        },
    }
}

/// Position of the first provider with identifier `id`, if any.
pub open spec fn provider_index<P: Provider>(providers: Seq<P>, id: Seq<char>) -> Option<int>
    decreases providers.len(),
{
    if providers.len() == 0 {
        None
    } else if providers[0].id_spec() == id {
        Some(0)
    } else {
        match provider_index(providers.drop_first(), id) {
            Some(i) => Some(i + 1),
            None => None,
        }
    }
}

/// What executing an action through the registry gives back.
pub open spec fn registry_execute_spec<P: Provider>(providers: Seq<P>, id: Seq<char>, action: ActionView) -> Result<StepView, CoreErrorView> {
    match provider_index(providers, id) {
        None => Err(CoreErrorView::ProviderNotFound(id)),
        Some(i) => match providers[i].execute_spec(action) {
            Ok(step) => Ok(step),
            Err(e) => Err(CoreErrorView::ProviderFailed { provider: id, source: e }),
        },
    }
}

pub open spec fn ranked_answer_view(r: Result<Vec<RankedResult>, CoreError>) -> Result<Seq<RankedView>, CoreErrorView> {
    match r {
        Ok(v) => Ok(ranked_view(v@)),
        Err(e) => Err(e@),
    }
}

pub open spec fn step_answer_view(r: Result<ExecutionStep, CoreError>) -> Result<StepView, CoreErrorView> {
    match r {
        Ok(s) => Ok(s@),
        Err(e) => Err(e@),
    }
}

/// The first provider with an identifier lies within the list.
pub proof fn lemma_provider_index_bound<P: Provider>(providers: Seq<P>, id: Seq<char>)
    ensures
        provider_index(providers, id) matches Some(i) ==> 0 <= i < providers.len(),
{
    lemma_provider_index_found(providers, id);
}

proof fn lemma_provider_index_found<P: Provider>(providers: Seq<P>, id: Seq<char>)
    ensures
        match provider_index(providers, id) {
            Some(i) => 0 <= i < providers.len() && providers[i].id_spec() == id
                && forall|j: int| 0 <= j < i ==> providers[j].id_spec() != id,
            None => forall|j: int| 0 <= j < providers.len() ==> providers[j].id_spec() != id,
        },
    decreases providers.len(),
{
    if providers.len() > 0 && providers[0].id_spec() != id {
        lemma_provider_index_found(providers.drop_first(), id);
        match provider_index(providers.drop_first(), id) {
            Some(i) => {
                assert forall|j: int| 0 <= j < i + 1 implies providers[j].id_spec() != id by {
                    if j > 0 {
                        assert(providers[j] == providers.drop_first()[j - 1]);
                    }
                }
            },
            None => {
                assert forall|j: int| 0 <= j < providers.len() implies providers[j].id_spec() != id by {
                    if j > 0 {
                        assert(providers[j] == providers.drop_first()[j - 1]);
                    }
                }
            },
        }
    }
}

proof fn lemma_gather_err_persists<P: Provider>(providers: Seq<P>, query: Seq<char>, limit: usize, k: int, m: int)
    requires
        0 <= k <= m <= providers.len(),
        gather_spec(providers.take(k), query, limit) is Err,
    ensures
        gather_spec(providers.take(m), query, limit) == gather_spec(providers.take(k), query, limit),
    decreases m - k,
{
    if m > k {
        lemma_gather_err_persists(providers, query, limit, k, m - 1);
        assert(providers.take(m).drop_last() =~= providers.take(m - 1));
    }
}

/// The registered providers, each with its own identifier.
pub struct ProviderRegistry<P> {
    providers: Vec<P>,
}

impl<P: Provider> ProviderRegistry<P> {
    /// The registered providers, in registration order.
    pub closed spec fn providers(&self) -> Seq<P> {
        self.providers@
    }

    /// The identifiers of the registered providers, in registration order.
    pub open spec fn ids(&self) -> Seq<Seq<char>> {
        ids_of(self.providers())
    }

    /// No two registered providers share an identifier.
    pub open spec fn wf(&self) -> bool {
        self.ids().no_duplicates()
    }

    pub fn new() -> (r: Self)
        ensures
            r.providers() == Seq::<P>::empty(),
            r.wf(),
    {
        let r = ProviderRegistry { providers: Vec::new() };
        proof {
            assert(r.ids() =~= Seq::<Seq<char>>::empty());
        }
        r
    }

    /// Add a provider; a second provider with an identifier already in use is
    /// refused and the registry stays as it was.
    pub fn register(&mut self, provider: P) -> (r: Result<(), CoreError>)
        requires
            old(self).wf(),
        ensures
            final(self).wf(),
            old(self).ids().contains(provider.id_spec()) ==> {
                &&& r matches Err(CoreError::ProviderAlreadyRegistered(id)) && id@ == provider.id_spec()
                &&& final(self).providers() == old(self).providers()
            },
            !old(self).ids().contains(provider.id_spec()) ==> {
                &&& r is Ok
                &&& final(self).providers() == old(self).providers().push(provider)
            },
            final(self).providers() == register_step(old(self).providers(), provider),
    {
        let id = provider.id();
        if self.contains(id.as_str()) {
            return Err(CoreError::ProviderAlreadyRegistered(id.id));
        }
        let ghost before = self.providers@;
        self.providers.push(provider);
        proof {
            assert(ids_of(self.providers@) =~= ids_of(before).push(id@));
        }
        Ok(())
    }

    /// Whether a provider with this identifier is registered.
    pub fn contains(&self, provider_id: &str) -> (b: bool)
        ensures
            b == self.ids().contains(provider_id@),
    {
        let wanted = lit(provider_id);
        let mut i: usize = 0;
        while i < self.providers.len()
            invariant
                i <= self.providers@.len(),
                wanted@ == provider_id@,
                forall|j: int| 0 <= j < i ==> self.providers@[j].id_spec() != provider_id@,
            decreases self.providers@.len() - i,
        {
            let id = self.providers[i].id();
            if id.id == wanted {
                proof {
                    assert(self.ids()[i as int] == provider_id@);
                }
                return true;
            }
            i += 1;
        }
        proof {
            if self.ids().contains(provider_id@) {
                let k = choose|k: int| 0 <= k < self.ids().len() && self.ids()[k] == provider_id@;
                assert(self.providers@[k].id_spec() == provider_id@);
            }
        }
        false
    }

    /// The identifiers of the registered providers, in registration order.
    pub fn provider_ids(&self) -> (r: Vec<ProviderId>)
        ensures
            r@.map_values(|p: ProviderId| p@) == self.ids(),
    {
        let mut out: Vec<ProviderId> = Vec::new();
        let mut i: usize = 0;
        while i < self.providers.len()
            invariant
                i <= self.providers@.len(),
                out@.len() == i,
                forall|j: int| 0 <= j < i ==> (#[trigger] out@[j])@ == self.providers@[j].id_spec(),
            decreases self.providers@.len() - i,
        {
            out.push(self.providers[i].id());
            i += 1;
        }
        proof {
            assert(out@.map_values(|p: ProviderId| p@) =~= self.ids());
        }
        out
    }

    /// Search every provider, rank all results together and keep the first
    /// `limit`. The first provider that fails makes the whole search fail.
    pub fn search(&self, query: &str, limit: usize) -> (r: Result<Vec<RankedResult>, CoreError>)
        ensures
            ranked_answer_view(r) == registry_search_spec(self.providers(), query@, limit),
    {
        let context = SearchContext::new(query, limit);
        let mut results: Vec<SearchResult> = Vec::new();
        let mut i: usize = 0;
        proof {
            assert(self.providers@.take(0) =~= Seq::<P>::empty());
            assert(results_view(results@) =~= Seq::<SearchResultView>::empty());
        }
        while i < self.providers.len()
            invariant
                i <= self.providers@.len(),
                context.query@ == query@,
                context.limit == limit,
                gather_spec(self.providers@.take(i as int), query@, limit) == Ok::<Seq<SearchResultView>, CoreErrorView>(results_view(results@)),
            decreases self.providers@.len() - i,
        {
            let provider = &self.providers[i];
            let ghost prefix = self.providers@.take(i as int + 1);
            proof {
                assert(prefix.drop_last() =~= self.providers@.take(i as int));
                assert(prefix.last() == self.providers@[i as int]);
            }
            match provider.search(&context) {
                Err(source) => {
                    let id = provider.id();
                    proof {
                        lemma_gather_err_persists(self.providers@, query@, limit, i as int + 1, self.providers@.len() as int);
                        assert(self.providers@.take(self.providers@.len() as int) =~= self.providers@);
                    }
                    return Err(CoreError::ProviderFailed { provider: id.id, source });
                },
                Ok(found) => {
                    let ghost before = results@;
                    let ghost found_view = results_view(found@);
                    let mut found = found;
                    results.append(&mut found);
                    proof {
                        assert(results_view(results@) =~= results_view(before) + found_view);
                    }
                },
            }
            i += 1;
        }
        proof {
            assert(self.providers@.take(self.providers@.len() as int) =~= self.providers@);
        }
        let mut ranked = rank_results(query, results);
        let ghost full = ranked@;
        ranked.truncate(limit);
        proof {
            let all = rank_results_spec(query@, results_view(results@));
            assert(ranked_view(full) == all);
            if limit < all.len() {
                assert(ranked_view(ranked@) =~= all.take(limit as int));
            } else {
                assert(ranked@ =~= full);
            }
        }
        Ok(ranked)
    }

    /// Execute a result's action through the provider that offered it.
    pub fn execute(&self, result: &SearchResult) -> (r: Result<ExecutionStep, CoreError>)
        ensures
            step_answer_view(r) == registry_execute_spec(self.providers(), result.provider@, result.action@),
    {
        self.execute_action(&result.provider, &result.action)
    }

    /// Execute an action through the first provider with this identifier.
    pub fn execute_action(&self, provider_id: &ProviderId, action: &Action) -> (r: Result<ExecutionStep, CoreError>)
        ensures
            step_answer_view(r) == registry_execute_spec(self.providers(), provider_id@, action@),
    {
        proof {
            lemma_provider_index_found(self.providers@, provider_id@);
        }
        let mut i: usize = 0;
        while i < self.providers.len()
            invariant
                i <= self.providers@.len(),
                forall|j: int| 0 <= j < i ==> self.providers@[j].id_spec() != provider_id@,
                match provider_index(self.providers@, provider_id@) {
                    Some(k) => 0 <= k < self.providers@.len() && self.providers@[k].id_spec() == provider_id@
                        && forall|j: int| 0 <= j < k ==> self.providers@[j].id_spec() != provider_id@,
                    None => forall|j: int| 0 <= j < self.providers@.len() ==> self.providers@[j].id_spec() != provider_id@,
                },
            decreases self.providers@.len() - i,
        {
            let id = self.providers[i].id();
            if id.id == provider_id.id {
                proof {
                    match provider_index(self.providers@, provider_id@) {
                        Some(k) => {
                            if k < i {
                            } else if k > i {
                                assert(self.providers@[i as int].id_spec() != provider_id@);
                            }
                        },
                        None => {
                            assert(self.providers@[i as int].id_spec() != provider_id@);
                        },
                    }
                    assert(provider_index(self.providers@, provider_id@) == Some(i as int));
                }
                return match self.providers[i].execute(action) {
                    Ok(step) => Ok(step),
                    Err(source) => Err(CoreError::ProviderFailed { provider: provider_id.id.clone(), source }),
                };
            }
            i += 1;
        }
        proof {
            match provider_index(self.providers@, provider_id@) {
                Some(k) => {
                    assert(self.providers@[k].id_spec() != provider_id@);
                },
                None => {},
            }
        }
        Err(CoreError::ProviderNotFound(provider_id.id.clone()))
    }
}


/// The providers after one registration: a provider whose identifier is
/// already in use is refused, any other is appended.
pub open spec fn register_step<P: Provider>(providers: Seq<P>, p: P) -> Seq<P> {
    if ids_of(providers).contains(p.id_spec()) {
        providers
    } else {
        providers.push(p)
    }
}

/// The providers of a registry that starts empty and is handed `ps` in
/// order, one registration each.
pub open spec fn registered_after<P: Provider>(ps: Seq<P>) -> Seq<P>
    decreases ps.len(),
{
    if ps.len() == 0 {
        Seq::empty()
    } else {
        register_step(registered_after(ps.drop_last()), ps.last())
    }
}

/// Registering providers one after another from an empty registry: the
/// identifiers never repeat; every identifier handed in is registered (the
/// first provider with it wins); and when the identifiers handed in are
/// distinct, every registration succeeds, so the registry lists exactly
/// those providers, in registration order, and holds exactly their
/// identifiers.
pub proof fn law_registration_sequence<P: Provider>(ps: Seq<P>)
    ensures
        ids_of(registered_after(ps)).no_duplicates(),
        forall|s: Seq<char>| #[trigger] ids_of(registered_after(ps)).contains(s) <==> ids_of(ps).contains(s),
        ids_of(ps).no_duplicates() ==> registered_after(ps) == ps && ids_of(registered_after(ps)) == ids_of(ps),
    decreases ps.len(),
{
    if ps.len() == 0 {
        assert(ids_of(registered_after(ps)) =~= Seq::<Seq<char>>::empty());
        assert(ids_of(ps) =~= Seq::<Seq<char>>::empty());
    } else {
        let q = ps.drop_last();
        let p = ps.last();
        law_registration_sequence(q);
        let prev = registered_after(q);
        assert(ids_of(ps) =~= ids_of(q).push(p.id_spec()));
        assert(ps =~= q.push(p));
        if ids_of(prev).contains(p.id_spec()) {
            assert forall|s: Seq<char>| #[trigger] ids_of(registered_after(ps)).contains(s) <==> ids_of(ps).contains(s) by {
                if ids_of(ps).contains(s) && s != p.id_spec() {
                    let k = choose|k: int| 0 <= k < ids_of(ps).len() && ids_of(ps)[k] == s;
                    assert(ids_of(q)[k] == s);
                }
                if ids_of(q).contains(s) {
                    let k = choose|k: int| 0 <= k < ids_of(q).len() && ids_of(q)[k] == s;
                    assert(ids_of(ps)[k] == s);
                }
            }
            if ids_of(ps).no_duplicates() {
                assert(ids_of(q).contains(p.id_spec()));
                let k = choose|k: int| 0 <= k < ids_of(q).len() && ids_of(q)[k] == p.id_spec();
                assert(ids_of(ps)[k] == ids_of(ps)[q.len() as int]);
            }
        } else {
            assert(ids_of(prev.push(p)) =~= ids_of(prev).push(p.id_spec()));
            assert forall|s: Seq<char>| #[trigger] ids_of(registered_after(ps)).contains(s) <==> ids_of(ps).contains(s) by {
                if ids_of(ps).contains(s) && s != p.id_spec() {
                    let k = choose|k: int| 0 <= k < ids_of(ps).len() && ids_of(ps)[k] == s;
                    assert(ids_of(q)[k] == s);
                }
                if ids_of(q).contains(s) {
                    let k = choose|k: int| 0 <= k < ids_of(q).len() && ids_of(q)[k] == s;
                    assert(ids_of(ps)[k] == s);
                }
                if ids_of(prev).contains(s) {
                    let k = choose|k: int| 0 <= k < ids_of(prev).len() && ids_of(prev)[k] == s;
                    assert(ids_of(prev.push(p))[k] == s);
                }
                if s == p.id_spec() {
                    assert(ids_of(prev.push(p))[prev.len() as int] == s);
                    assert(ids_of(ps)[q.len() as int] == s);
                }
                if ids_of(prev.push(p)).contains(s) && s != p.id_spec() {
                    let k = choose|k: int| 0 <= k < ids_of(prev.push(p)).len() && ids_of(prev.push(p))[k] == s;
                    assert(ids_of(prev)[k] == s);
                }
            }
            assert forall|i: int, j: int| 0 <= i < ids_of(prev.push(p)).len() && 0 <= j < ids_of(prev.push(p)).len() && i != j implies ids_of(prev.push(p))[i] != ids_of(prev.push(p))[j] by {
                if i == prev.len() {
                    assert(ids_of(prev)[j] == ids_of(prev.push(p))[j]);
                } else if j == prev.len() {
                    assert(ids_of(prev)[i] == ids_of(prev.push(p))[i]);
                }
            }
            if ids_of(ps).no_duplicates() {
                assert forall|i: int, j: int| 0 <= i < ids_of(q).len() && 0 <= j < ids_of(q).len() && i != j implies ids_of(q)[i] != ids_of(q)[j] by {
                    assert(ids_of(ps)[i] == ids_of(q)[i] && ids_of(ps)[j] == ids_of(q)[j]);
                }
            }
        }
    }
}

/// A registry search answers the best-ranked results first: when it
/// succeeds, the answer is the first `limit` results (or all, when there
/// are fewer) of the ranking of everything the providers found, so no
/// result left out ranks before one that is answered.
pub proof fn law_search_answers_best_first<P: Provider>(providers: Seq<P>, query: Seq<char>, limit: usize)
    ensures
        registry_search_spec(providers, query, limit) matches Ok(v) ==> gather_spec(providers, query, limit) matches Ok(all) && {
            let ranked = rank_results_spec(query, all);
            &&& v.len() == (if ranked.len() <= limit { ranked.len() } else { limit as nat })
            &&& forall|i: int| 0 <= i < v.len() ==> #[trigger] v[i] == ranked[i]
            &&& forall|i: int, j: int| 0 <= i < v.len() <= j < ranked.len() ==> !crate::ranking::ranks_before(#[trigger] ranked[j], #[trigger] v[i])
        },
{
    match gather_spec(providers, query, limit) {
        Ok(all) => {
            crate::ranking::law_rank_results_ordered(query, all);
        },
        Err(_) => {},
    }
}
} // verus!
