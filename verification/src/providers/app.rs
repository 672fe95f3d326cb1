//! App launcher provider: configured apps, known platform apps, and apps
//! discovered in Start Menu folders, with configured entries taking
//! precedence over discovered ones of the same name.

use vstd::prelude::*;

use crate::config::{apps_view, AppEntry, AppEntryView, Config};
use crate::plugin_api::{
    EffectView, PluginErrorView, StepView,
    clone_strings, new_result_view, results_view, Action, ActionEffect, ActionView, ExecutionStep,
    PluginError, Provider, ProviderId, ResultKind, SearchContext, SearchResult, SearchResultView,
};
use crate::ranking::lex_lt;
use crate::text::{
    append_str, ascii_lower, ascii_lower_char, chars_contains, chars_ends_with, chars_of,
    chars_starts_with, concat2, lit, lower_chars, nat_digits, seq_contains_sub, seq_ends_with,
    seq_starts_with, string_from_chars, sub_chars, to_ascii_lowercase, trim_chars, trim_seq,
    usize_to_decimal,
};

verus! {

pub const NOISY_START_MENU_ENTRY_SCORE_HINT: i64 = -220;

/// Where an app entry came from.
#[derive(Debug, PartialEq, Eq)]
pub enum AppSource {
    Config,
    Known { label: String },
    WindowsStartMenu { path: String },
    Fallback { reason: String },
}

pub enum AppSourceView {
    Config,
    Known { label: Seq<char> },
    WindowsStartMenu { path: Seq<char> },
    Fallback { reason: Seq<char> },
}

impl View for AppSource {
    type V = AppSourceView;

    open spec fn view(&self) -> AppSourceView {
        match self {
            AppSource::Config => AppSourceView::Config,
            AppSource::Known { label } => AppSourceView::Known { label: label@ },
            AppSource::WindowsStartMenu { path } => AppSourceView::WindowsStartMenu { path: path@ },
            AppSource::Fallback { reason } => AppSourceView::Fallback { reason: reason@ },
        }
    }
}

impl Clone for AppSource {
    fn clone(&self) -> (r: Self)
        ensures
            r@ == self@,
    {
        match self {
            AppSource::Config => AppSource::Config,
            AppSource::Known { label } => AppSource::Known { label: label.clone() },
            AppSource::WindowsStartMenu { path } => AppSource::WindowsStartMenu { path: path.clone() },
            AppSource::Fallback { reason } => AppSource::Fallback { reason: reason.clone() },
        }
    }
}

/// An app entry together with its source.
#[derive(Debug, PartialEq, Eq)]
pub struct IndexedApp {
    pub entry: AppEntry,
    pub source: AppSource,
}

pub struct IndexedAppView {
    pub entry: AppEntryView,
    pub source: AppSourceView,
}

impl View for IndexedApp {
    type V = IndexedAppView;

    open spec fn view(&self) -> IndexedAppView {
        IndexedAppView { entry: self.entry@, source: self.source@ }
    }
}

pub open spec fn indexed_view(v: Seq<IndexedApp>) -> Seq<IndexedAppView> {
    v.map_values(|a: IndexedApp| a@)
}

pub open spec fn fallback_keywords() -> Seq<Seq<char>> {
    seq!["editor"@, "text"@, "sample"@, "fallback"@]
}

pub open spec fn fallback_view(reason: Seq<char>) -> IndexedAppView {
    IndexedAppView {
        entry: AppEntryView {
            name: "Notepad"@,
            command: "notepad.exe"@,
            args: Seq::empty(),
            keywords: fallback_keywords(),
        },
        source: AppSourceView::Fallback { reason },
    }
}

fn strings4(a: &str, b: &str, c: &str, d: &str) -> (r: Vec<String>)
    ensures
        r.deep_view() == seq![a@, b@, c@, d@],
{
    let mut r: Vec<String> = Vec::new();
    r.push(lit(a));
    r.push(lit(b));
    r.push(lit(c));
    r.push(lit(d));
    proof {
        assert(r.deep_view() =~= seq![a@, b@, c@, d@]);
    }
    r
}

impl IndexedApp {
    pub fn configured(entry: AppEntry) -> (r: Self)
        ensures
            r@ == (IndexedAppView { entry: entry@, source: AppSourceView::Config }),
    {
        IndexedApp { entry, source: AppSource::Config }
    }

    pub fn discovered(entry: AppEntry, path: &str) -> (r: Self)
        ensures
            r@ == (IndexedAppView { entry: entry@, source: AppSourceView::WindowsStartMenu { path: path@ } }),
    {
        IndexedApp { entry, source: AppSource::WindowsStartMenu { path: lit(path) } }
    }

    pub fn known(entry: AppEntry, label: &str) -> (r: Self)
        ensures
            r@ == (IndexedAppView { entry: entry@, source: AppSourceView::Known { label: label@ } }),
    {
        IndexedApp { entry, source: AppSource::Known { label: lit(label) } }
    }

    /// The labelled Notepad sample used when nothing else is available.
    pub fn fallback(reason: &str) -> (r: Self)
        ensures
            r@ == fallback_view(reason@),
    {
        let mut entry = AppEntry::new("Notepad", "notepad.exe");
        entry.keywords = strings4("editor", "text", "sample", "fallback");
        IndexedApp { entry, source: AppSource::Fallback { reason: lit(reason) } }
    }
}

impl Clone for IndexedApp {
    fn clone(&self) -> (r: Self)
        ensures
            r@ == self@,
    {
        IndexedApp { entry: self.entry.clone(), source: self.source.clone() }
    }
}

/// What indexing found before the provider is built.
pub struct AppIndex {
    pub entries: Vec<IndexedApp>,
    pub roots_checked: usize,
}

#[derive(Debug, Clone, Copy, PartialEq, Eq, Structural)]
pub enum AppIndexError {
    UnsupportedPlatform,
    MissingStartMenuEnvironment,
}

pub open spec fn app_index_error_text(e: AppIndexError) -> Seq<char> {
    match e {
        AppIndexError::UnsupportedPlatform => "Windows Start Menu indexing is only available on Windows"@,
        AppIndexError::MissingStartMenuEnvironment => "missing Windows Start Menu environment: APPDATA and ProgramData are not set"@,
    }
}

impl AppIndexError {
    pub fn message(&self) -> (s: String)
        ensures
            s@ == app_index_error_text(*self),
    {
        match self {
            AppIndexError::UnsupportedPlatform => lit("Windows Start Menu indexing is only available on Windows"),
            AppIndexError::MissingStartMenuEnvironment => lit("missing Windows Start Menu environment: APPDATA and ProgramData are not set"),
        }
    }
}

#[derive(Debug, PartialEq, Eq)]
pub enum AppIndexStatus {
    Indexed { roots_checked: usize, discovered: usize },
    Empty { roots_checked: usize },
    Unavailable { reason: String },
}

pub enum AppIndexStatusView {
    Indexed { roots_checked: usize, discovered: usize },
    Empty { roots_checked: usize },
    Unavailable { reason: Seq<char> },
}

impl View for AppIndexStatus {
    type V = AppIndexStatusView;

    open spec fn view(&self) -> AppIndexStatusView {
        match self {
            AppIndexStatus::Indexed { roots_checked, discovered } => AppIndexStatusView::Indexed { roots_checked: *roots_checked, discovered: *discovered },
            AppIndexStatus::Empty { roots_checked } => AppIndexStatusView::Empty { roots_checked: *roots_checked },
            AppIndexStatus::Unavailable { reason } => AppIndexStatusView::Unavailable { reason: reason@ },
        }
    }
}

/// The app provider's entries, how indexing went, and the platform whose
/// path rules its launch checks follow.
pub struct AppLauncherProvider {
    pub apps: Vec<IndexedApp>,
    pub index_status: AppIndexStatus,
    pub platform: String,
}

/// Lower-cased display name, the key under which duplicates are found.
pub open spec fn name_key(a: IndexedAppView) -> Seq<char> {
    ascii_lower(a.entry.name)
}

pub open spec fn has_name(apps: Seq<IndexedAppView>, key: Seq<char>) -> bool {
    exists|i: int| 0 <= i < apps.len() && name_key(apps[i]) == key
}

/// Append `a` unless an entry with the same lower-cased name is present.
pub open spec fn push_unique_spec(apps: Seq<IndexedAppView>, a: IndexedAppView) -> Seq<IndexedAppView> {
    if has_name(apps, name_key(a)) {
        apps
    } else {
        apps.push(a)
    }
}

/// Append each of `new` in turn, skipping names already present.
pub open spec fn push_all_unique_spec(apps: Seq<IndexedAppView>, new: Seq<IndexedAppView>) -> Seq<IndexedAppView>
    decreases new.len(),
{
    if new.len() == 0 {
        apps
    } else {
        push_unique_spec(push_all_unique_spec(apps, new.drop_last()), new.last())
    }
}

pub open spec fn configured_views(apps: Seq<AppEntryView>) -> Seq<IndexedAppView> {
    apps.map_values(|e: AppEntryView| IndexedAppView { entry: e, source: AppSourceView::Config })
}

pub open spec fn empty_index_reason(roots: nat) -> Seq<char> {
    "Windows app indexing found no app entries in "@ + nat_digits(roots) + " Start Menu root(s)"@
}

/// The result of indexing, as the provider sees it.
pub enum IndexResultView {
    Found { entries: Seq<IndexedAppView>, roots_checked: usize },
    Failed(AppIndexError),
}

pub open spec fn index_result_view(r: Result<AppIndex, AppIndexError>) -> IndexResultView {
    match r {
        Ok(ix) => IndexResultView::Found { entries: indexed_view(ix.entries@), roots_checked: ix.roots_checked },
        Err(e) => IndexResultView::Failed(e),
    }
}

pub open spec fn add_fallback_spec(apps: Seq<IndexedAppView>, reason: Seq<char>) -> Seq<IndexedAppView> {
    if apps.len() == 0 {
        push_unique_spec(apps, fallback_view(reason))
    } else {
        apps
    }
}

/// The provider's entries: configured apps first, then known apps and
/// discovered apps whose lower-cased names are not taken yet; the Notepad
/// sample only when indexing found nothing or failed and no other entry exists.
pub open spec fn provider_apps_spec(config_apps: Seq<AppEntryView>, index: IndexResultView, known: Seq<IndexedAppView>) -> Seq<IndexedAppView> {
    let base = push_all_unique_spec(configured_views(config_apps), known);
    match index {
        IndexResultView::Found { entries, roots_checked } => if entries.len() == 0 {
            add_fallback_spec(base, empty_index_reason(roots_checked as nat))
        } else {
            push_all_unique_spec(base, entries)
        },
        IndexResultView::Failed(e) => add_fallback_spec(base, app_index_error_text(e)),
    }
}

pub open spec fn provider_status_spec(index: IndexResultView) -> AppIndexStatusView {
    match index {
        IndexResultView::Found { entries, roots_checked } => if entries.len() == 0 {
            AppIndexStatusView::Empty { roots_checked }
        } else {
            AppIndexStatusView::Indexed { roots_checked, discovered: entries.len() as usize }
        },
        IndexResultView::Failed(e) => AppIndexStatusView::Unavailable { reason: app_index_error_text(e) },
    }
}

fn name_key_exec(app: &IndexedApp) -> (k: Vec<char>)
    ensures
        k@ == name_key(app@),
{
    let v = chars_of(app.entry.name.as_str());
    lower_chars(&v)
}

fn contains_name(apps: &Vec<IndexedApp>, key: &Vec<char>) -> (b: bool)
    ensures
        b == has_name(indexed_view(apps@), key@),
{
    let mut i: usize = 0;
    while i < apps.len()
        invariant
            i <= apps@.len(),
            forall|j: int| 0 <= j < i ==> name_key(#[trigger] apps@[j]@) != key@,
        decreases apps@.len() - i,
    {
        let k = name_key_exec(&apps[i]);
        if crate::text::chars_match_at(&k, key, 0) && k.len() == key.len() {
            proof {
                assert(k@.subrange(0, key@.len() as int) == key@);
                assert(k@ =~= key@);
                assert(indexed_view(apps@)[i as int] == apps@[i as int]@);
            }
            return true;
        }
        proof {
            if k@ == key@ {
                assert(k@.subrange(0, key@.len() as int) =~= key@);
            }
        }
        i += 1;
    }
    proof {
        assert forall|j: int| 0 <= j < indexed_view(apps@).len() implies name_key(indexed_view(apps@)[j]) != key@ by {
            assert(indexed_view(apps@)[j] == apps@[j]@);
        }
    }
    false
}

fn push_unique_app(apps: &mut Vec<IndexedApp>, app: IndexedApp)
    ensures
        indexed_view(final(apps)@) == push_unique_spec(indexed_view(old(apps)@), app@),
{
    let key = name_key_exec(&app);
    if !contains_name(apps, &key) {
        let ghost before = apps@;
        apps.push(app);
        proof {
            assert(indexed_view(apps@) =~= indexed_view(before).push(app@));
        }
    }
}

fn push_all_unique(apps: &mut Vec<IndexedApp>, new: &Vec<IndexedApp>)
    ensures
        indexed_view(final(apps)@) == push_all_unique_spec(indexed_view(old(apps)@), indexed_view(new@)),
{
    let ghost start = indexed_view(apps@);
    let mut i: usize = 0;
    while i < new.len()
        invariant
            i <= new@.len(),
            indexed_view(apps@) == push_all_unique_spec(start, indexed_view(new@).take(i as int)),
        decreases new@.len() - i,
    {
        let x = new[i].clone();
        push_unique_app(apps, x);
        proof {
            assert(indexed_view(new@).take(i + 1).drop_last() =~= indexed_view(new@).take(i as int));
        }
        i += 1;
    }
    proof {
        assert(indexed_view(new@).take(new@.len() as int) =~= indexed_view(new@));
    }
}


/// What the platform offers the app provider: the Start Menu index, or why
/// there is none, and the apps every installation of the platform has.
pub struct AppSources {
    pub index: Result<AppIndex, AppIndexError>,
    pub known: Vec<IndexedApp>,
    pub platform: String,
}

pub struct AppSourcesView {
    pub index: IndexResultView,
    pub known: Seq<IndexedAppView>,
    pub platform: Seq<char>,
}

impl View for AppSources {
    type V = AppSourcesView;

    open spec fn view(&self) -> AppSourcesView {
        AppSourcesView { index: index_result_view(self.index), known: indexed_view(self.known@), platform: self.platform@ }
    }
}

/// No Start Menu index (the platform has none) and no known apps.
pub open spec fn unindexed_sources(platform: Seq<char>) -> AppSourcesView {
    AppSourcesView { index: IndexResultView::Failed(AppIndexError::UnsupportedPlatform), known: Seq::empty(), platform }
}

fn clone_indexed(v: &Vec<IndexedApp>) -> (r: Vec<IndexedApp>)
    ensures
        indexed_view(r@) == indexed_view(v@),
{
    let mut r: Vec<IndexedApp> = Vec::new();
    let mut i: usize = 0;
    while i < v.len()
        invariant
            i <= v@.len(),
            r@.len() == i,
            forall|j: int| 0 <= j < i ==> (#[trigger] r@[j])@ == v@[j]@,
        decreases v@.len() - i,
    {
        r.push(v[i].clone());
        i += 1;
    }
    proof {
        assert(indexed_view(r@) =~= indexed_view(v@));
    }
    r
}

impl AppSources {
    /// The sources of a platform without Start Menu indexing.
    pub fn unavailable(platform: &str) -> (r: AppSources)
        ensures
            r@ == unindexed_sources(platform@),
    {
        let known: Vec<IndexedApp> = Vec::new();
        proof {
            assert(indexed_view(known@) =~= Seq::<IndexedAppView>::empty());
        }
        AppSources { index: Err(AppIndexError::UnsupportedPlatform), known, platform: lit(platform) }
    }

    pub fn duplicate(&self) -> (r: AppSources)
        ensures
            r@ == self@,
    {
        let index = match &self.index {
            Ok(ix) => Ok(AppIndex { entries: clone_indexed(&ix.entries), roots_checked: ix.roots_checked }),
            Err(e) => Err(*e),
        };
        AppSources { index, known: clone_indexed(&self.known), platform: self.platform.clone() }
    }
}

/// The apps every installation of `platform` has: Notepad on Windows.
pub open spec fn known_apps_spec(platform: Seq<char>) -> Seq<IndexedAppView> {
    if platform == "windows"@ {
        seq![IndexedAppView {
            entry: AppEntryView {
                name: "Notepad"@,
                command: "notepad.exe"@,
                args: Seq::empty(),
                keywords: seq!["editor"@, "text"@, "windows"@, "built-in"@],
            },
            source: AppSourceView::Known { label: "Windows built-in app"@ },
        }]
    } else {
        Seq::empty()
    }
}

/// The apps every installation of `platform` has.
pub fn platform_known_apps(platform: &str) -> (r: Vec<IndexedApp>)
    ensures
        indexed_view(r@) == known_apps_spec(platform@),
{
    let mut r: Vec<IndexedApp> = Vec::new();
    if lit(platform) == lit("windows") {
        let mut notepad = AppEntry::new("Notepad", "notepad.exe");
        notepad.keywords = strings4("editor", "text", "windows", "built-in");
        r.push(IndexedApp::known(notepad, "Windows built-in app"));
    }
    proof {
        assert(indexed_view(r@) =~= known_apps_spec(platform@));
    }
    r
}

/// `a` comes before `b` in the index: its lower-cased name is smaller.
pub open spec fn names_before(a: IndexedAppView, b: IndexedAppView) -> bool {
    lex_lt(name_key(a), name_key(b))
}

/// Insert `x` after every entry whose name does not come after its own.
pub open spec fn insert_by_name(s: Seq<IndexedAppView>, x: IndexedAppView) -> Seq<IndexedAppView>
    decreases s.len(),
{
    if s.len() == 0 {
        seq![x]
    } else if names_before(x, s[0]) {
        seq![x] + s
    } else {
        seq![s[0]] + insert_by_name(s.drop_first(), x)
    }
}

/// Stable sort by lower-cased name.
pub open spec fn sort_by_name(s: Seq<IndexedAppView>) -> Seq<IndexedAppView>
    decreases s.len(),
{
    if s.len() == 0 {
        s
    } else {
        insert_by_name(sort_by_name(s.drop_last()), s.last())
    }
}

/// The entries of a Start Menu scan as the index keeps them: the first entry
/// of each lower-cased name, ordered by lower-cased name.
pub open spec fn discovered_index_spec(discovered: Seq<IndexedAppView>) -> Seq<IndexedAppView> {
    sort_by_name(push_all_unique_spec(Seq::empty(), discovered))
}

pub open spec fn is_sorted_by_name(s: Seq<IndexedAppView>) -> bool {
    forall|i: int, j: int| 0 <= i < j < s.len() ==> !names_before(#[trigger] s[j], #[trigger] s[i])
}

pub open spec fn names_unique(s: Seq<IndexedAppView>) -> bool {
    forall|i: int, j: int| 0 <= i < j < s.len() ==> name_key(#[trigger] s[i]) != name_key(#[trigger] s[j])
}

proof fn lemma_insert_by_name_at(s: Seq<IndexedAppView>, x: IndexedAppView, j: int)
    requires
        0 <= j <= s.len(),
        forall|k: int| 0 <= k < j ==> !names_before(x, #[trigger] s[k]),
        j < s.len() ==> names_before(x, s[j]),
    ensures
        insert_by_name(s, x) == s.take(j) + seq![x] + s.skip(j),
    decreases s.len(),
{
    if s.len() == 0 {
        assert(s.take(j) + seq![x] + s.skip(j) =~= seq![x]);
    } else if j == 0 {
        assert(s.take(0) + seq![x] + s.skip(0) =~= seq![x] + s);
    } else {
        let t = s.drop_first();
        assert forall|k: int| 0 <= k < j - 1 implies !names_before(x, #[trigger] t[k]) by {
            assert(t[k] == s[k + 1]);
        }
        lemma_insert_by_name_at(t, x, j - 1);
        assert(seq![s[0]] + (t.take(j - 1) + seq![x] + t.skip(j - 1)) =~= s.take(j) + seq![x] + s.skip(j));
    }
}

fn names_before_exec(a: &IndexedApp, b: &IndexedApp) -> (r: bool)
    ensures
        r == names_before(a@, b@),
{
    let ka = name_key_exec(a);
    let kb = name_key_exec(b);
    crate::ranking::lex_lt_exec(&ka, &kb)
}

fn insert_by_name_exec(sorted: &mut Vec<IndexedApp>, x: IndexedApp)
    ensures
        indexed_view(final(sorted)@) == insert_by_name(indexed_view(old(sorted)@), x@),
{
    let mut j: usize = 0;
    while j < sorted.len() && !names_before_exec(&x, &sorted[j])
        invariant
            j <= sorted@.len(),
            forall|k: int| 0 <= k < j ==> !names_before(x@, #[trigger] indexed_view(sorted@)[k]),
        decreases sorted@.len() - j,
    {
        j += 1;
    }
    let ghost before = indexed_view(sorted@);
    proof {
        lemma_insert_by_name_at(before, x@, j as int);
    }
    let ghost xv = x@;
    sorted.insert(j, x);
    proof {
        assert(indexed_view(sorted@) =~= before.take(j as int) + seq![xv] + before.skip(j as int));
    }
}

/// The index built from what scanning `roots_checked` Start Menu roots
/// found, in scan order: the first entry of each lower-cased name, ordered
/// by lower-cased name.
pub fn index_from_discovered(discovered: Vec<IndexedApp>, roots_checked: usize) -> (ix: AppIndex)
    ensures
        indexed_view(ix.entries@) == discovered_index_spec(indexed_view(discovered@)),
        ix.roots_checked == roots_checked,
{
    let mut unique: Vec<IndexedApp> = Vec::new();
    proof {
        assert(indexed_view(unique@) =~= Seq::<IndexedAppView>::empty());
    }
    push_all_unique(&mut unique, &discovered);
    let ghost uv = indexed_view(unique@);
    let mut sorted: Vec<IndexedApp> = Vec::new();
    let mut i: usize = 0;
    proof {
        assert(uv.take(0) =~= Seq::<IndexedAppView>::empty());
        assert(indexed_view(sorted@) =~= sort_by_name(uv.take(0)));
    }
    while i < unique.len()
        invariant
            i <= unique@.len(),
            uv == indexed_view(unique@),
            indexed_view(sorted@) == sort_by_name(uv.take(i as int)),
        decreases unique@.len() - i,
    {
        let x = unique[i].clone();
        insert_by_name_exec(&mut sorted, x);
        proof {
            assert(uv.take(i + 1).drop_last() =~= uv.take(i as int));
            assert(uv.take(i + 1).last() == uv[i as int]);
        }
        i += 1;
    }
    proof {
        assert(uv.take(unique@.len() as int) =~= uv);
    }
    AppIndex { entries: sorted, roots_checked }
}

proof fn lemma_names_before_transitive(a: IndexedAppView, b: IndexedAppView, c: IndexedAppView)
    requires
        names_before(a, b),
        names_before(b, c),
    ensures
        names_before(a, c),
{
    crate::ranking::lemma_lex_lt_transitive(name_key(a), name_key(b), name_key(c));
}

proof fn lemma_app_cons_multiset(x: IndexedAppView, s: Seq<IndexedAppView>)
    ensures
        (seq![x] + s).to_multiset() =~= s.to_multiset().insert(x),
{
    broadcast use vstd::seq_lib::group_to_multiset_ensures;
    broadcast use vstd::multiset::group_multiset_axioms;
    vstd::seq_lib::lemma_multiset_commutative(seq![x], s);
    assert(seq![x] =~= Seq::<IndexedAppView>::empty().push(x));
    assert(Seq::<IndexedAppView>::empty().to_multiset().len() == 0);
    assert(Seq::<IndexedAppView>::empty().to_multiset() =~= vstd::multiset::Multiset::<IndexedAppView>::empty());
}

proof fn lemma_insert_by_name_keeps_sorted(s: Seq<IndexedAppView>, x: IndexedAppView)
    requires
        is_sorted_by_name(s),
    ensures
        is_sorted_by_name(insert_by_name(s, x)),
        insert_by_name(s, x).to_multiset() =~= s.to_multiset().insert(x),
    decreases s.len(),
{
    broadcast use vstd::seq_lib::group_to_multiset_ensures;
    if s.len() == 0 {
        assert(insert_by_name(s, x) =~= seq![x] + s);
        lemma_app_cons_multiset(x, s);
    } else if names_before(x, s[0]) {
        let r = seq![x] + s;
        assert forall|i: int, j: int| 0 <= i < j < r.len() implies !names_before(#[trigger] r[j], #[trigger] r[i]) by {
            if i == 0 {
                if names_before(r[j], x) {
                    if j > 1 {
                        assert(!names_before(s[j - 1], s[0]));
                    }
                    lemma_names_before_transitive(r[j], x, s[0]);
                    if j == 1 {
                        crate::ranking::lemma_lex_lt_irreflexive(name_key(s[0]));
                    }
                }
            } else {
                assert(r[i] == s[i - 1] && r[j] == s[j - 1]);
            }
        }
        lemma_app_cons_multiset(x, s);
    } else {
        let t = s.drop_first();
        assert forall|i: int, j: int| 0 <= i < j < t.len() implies !names_before(#[trigger] t[j], #[trigger] t[i]) by {
            assert(t[i] == s[i + 1] && t[j] == s[j + 1]);
        }
        lemma_insert_by_name_keeps_sorted(t, x);
        let it = insert_by_name(t, x);
        let r = seq![s[0]] + it;
        assert forall|k: int| 0 <= k < it.len() implies !names_before(#[trigger] it[k], s[0]) by {
            assert(it.to_multiset().count(it[k]) > 0);
            if it[k] != x {
                assert(t.to_multiset().count(it[k]) > 0);
                assert(t.contains(it[k]));
                let m = choose|m: int| 0 <= m < t.len() && t[m] == it[k];
                assert(s[m + 1] == it[k]);
            }
        }
        assert forall|i: int, j: int| 0 <= i < j < r.len() implies !names_before(#[trigger] r[j], #[trigger] r[i]) by {
            if i == 0 {
                assert(r[j] == it[j - 1]);
            } else {
                assert(r[i] == it[i - 1] && r[j] == it[j - 1]);
            }
        }
        lemma_app_cons_multiset(s[0], it);
        lemma_app_cons_multiset(s[0], t);
        assert(s =~= seq![s[0]] + t);
        assert(insert_by_name(s, x) == r);
        assert(s.to_multiset().insert(x) =~= t.to_multiset().insert(x).insert(s[0]));
    }
}

proof fn lemma_sort_by_name(s: Seq<IndexedAppView>)
    ensures
        is_sorted_by_name(sort_by_name(s)),
        sort_by_name(s).to_multiset() == s.to_multiset(),
    decreases s.len(),
{
    broadcast use vstd::seq_lib::group_to_multiset_ensures;
    if s.len() > 0 {
        lemma_sort_by_name(s.drop_last());
        lemma_insert_by_name_keeps_sorted(sort_by_name(s.drop_last()), s.last());
        assert(s =~= s.drop_last().push(s.last()));
    }
}

proof fn lemma_insert_by_name_unique(t: Seq<IndexedAppView>, x: IndexedAppView)
    requires
        names_unique(t),
        forall|k: int| 0 <= k < t.len() ==> name_key(#[trigger] t[k]) != name_key(x),
    ensures
        names_unique(insert_by_name(t, x)),
    decreases t.len(),
{
    if t.len() == 0 {
        assert(insert_by_name(t, x) =~= seq![x]);
    } else if names_before(x, t[0]) {
        let r = seq![x] + t;
        assert forall|i: int, j: int| 0 <= i < j < r.len() implies name_key(#[trigger] r[i]) != name_key(#[trigger] r[j]) by {
            if i == 0 {
                assert(r[j] == t[j - 1]);
            } else {
                assert(r[i] == t[i - 1] && r[j] == t[j - 1]);
            }
        }
    } else {
        let u = t.drop_first();
        assert forall|i: int, j: int| 0 <= i < j < u.len() implies name_key(#[trigger] u[i]) != name_key(#[trigger] u[j]) by {
            assert(u[i] == t[i + 1] && u[j] == t[j + 1]);
        }
        assert forall|k: int| 0 <= k < u.len() implies name_key(#[trigger] u[k]) != name_key(x) by {
            assert(u[k] == t[k + 1]);
        }
        lemma_insert_by_name_unique(u, x);
        lemma_insert_by_name_keeps_multiset(u, x);
        let iu = insert_by_name(u, x);
        let r = seq![t[0]] + iu;
        assert forall|k: int| 0 <= k < iu.len() implies name_key(#[trigger] iu[k]) != name_key(t[0]) by {
            broadcast use vstd::seq_lib::group_to_multiset_ensures;
            assert(iu.to_multiset().count(iu[k]) > 0);
            if iu[k] != x {
                assert(u.to_multiset().count(iu[k]) > 0);
                assert(u.contains(iu[k]));
                let m = choose|m: int| 0 <= m < u.len() && u[m] == iu[k];
                assert(t[m + 1] == iu[k]);
            }
        }
        assert forall|i: int, j: int| 0 <= i < j < r.len() implies name_key(#[trigger] r[i]) != name_key(#[trigger] r[j]) by {
            if i == 0 {
                assert(r[j] == iu[j - 1]);
            } else {
                assert(r[i] == iu[i - 1] && r[j] == iu[j - 1]);
            }
        }
        assert(insert_by_name(t, x) == r);
    }
}

proof fn lemma_insert_by_name_keeps_multiset(s: Seq<IndexedAppView>, x: IndexedAppView)
    ensures
        insert_by_name(s, x).to_multiset() =~= s.to_multiset().insert(x),
    decreases s.len(),
{
    broadcast use vstd::seq_lib::group_to_multiset_ensures;
    if s.len() == 0 {
        assert(insert_by_name(s, x) =~= seq![x] + s);
        lemma_app_cons_multiset(x, s);
    } else if names_before(x, s[0]) {
        lemma_app_cons_multiset(x, s);
    } else {
        let t = s.drop_first();
        lemma_insert_by_name_keeps_multiset(t, x);
        lemma_app_cons_multiset(s[0], insert_by_name(t, x));
        lemma_app_cons_multiset(s[0], t);
        assert(s =~= seq![s[0]] + t);
        assert(s.to_multiset().insert(x) =~= t.to_multiset().insert(x).insert(s[0]));
    }
}

proof fn lemma_sort_by_name_unique(s: Seq<IndexedAppView>)
    requires
        names_unique(s),
    ensures
        names_unique(sort_by_name(s)),
    decreases s.len(),
{
    broadcast use vstd::seq_lib::group_to_multiset_ensures;
    if s.len() > 0 {
        let d = s.drop_last();
        assert forall|i: int, j: int| 0 <= i < j < d.len() implies name_key(#[trigger] d[i]) != name_key(#[trigger] d[j]) by {
            assert(d[i] == s[i] && d[j] == s[j]);
        }
        lemma_sort_by_name_unique(d);
        lemma_sort_by_name(d);
        let sd = sort_by_name(d);
        assert forall|k: int| 0 <= k < sd.len() implies name_key(#[trigger] sd[k]) != name_key(s.last()) by {
            assert(sd.to_multiset().count(sd[k]) > 0);
            assert(d.to_multiset().count(sd[k]) > 0);
            assert(d.contains(sd[k]));
            let m = choose|m: int| 0 <= m < d.len() && d[m] == sd[k];
            assert(s[m] == sd[k]);
        }
        lemma_insert_by_name_unique(sd, s.last());
    }
}

proof fn lemma_push_all_unique_names(apps: Seq<IndexedAppView>, new: Seq<IndexedAppView>)
    requires
        names_unique(apps),
    ensures
        names_unique(push_all_unique_spec(apps, new)),
    decreases new.len(),
{
    if new.len() > 0 {
        lemma_push_all_unique_names(apps, new.drop_last());
        let p = push_all_unique_spec(apps, new.drop_last());
        let a = new.last();
        if !has_name(p, name_key(a)) {
            let r = p.push(a);
            assert forall|i: int, j: int| 0 <= i < j < r.len() implies name_key(#[trigger] r[i]) != name_key(#[trigger] r[j]) by {
                if j == p.len() {
                    assert(r[i] == p[i]);
                } else {
                    assert(r[i] == p[i] && r[j] == p[j]);
                }
            }
        }
    }
}

/// The index of a Start Menu scan is ordered by lower-cased name, holds each
/// lower-cased name once, and holds exactly the first entry found under
/// each name.
pub proof fn law_discovered_index_ordered(discovered: Seq<IndexedAppView>)
    ensures
        is_sorted_by_name(discovered_index_spec(discovered)),
        names_unique(discovered_index_spec(discovered)),
        discovered_index_spec(discovered).to_multiset()
            == push_all_unique_spec(Seq::empty(), discovered).to_multiset(),
{
    let u = push_all_unique_spec(Seq::empty(), discovered);
    lemma_push_all_unique_names(Seq::empty(), discovered);
    lemma_sort_by_name(u);
    lemma_sort_by_name_unique(u);
}

fn configured_apps(config_apps: &Vec<AppEntry>) -> (r: Vec<IndexedApp>)
    ensures
        indexed_view(r@) == configured_views(apps_view(config_apps@)),
{
    let mut r: Vec<IndexedApp> = Vec::new();
    let mut i: usize = 0;
    while i < config_apps.len()
        invariant
            i <= config_apps@.len(),
            r@.len() == i,
            forall|j: int| 0 <= j < i ==> (#[trigger] r@[j])@ == (IndexedAppView { entry: config_apps@[j]@, source: AppSourceView::Config }),
        decreases config_apps@.len() - i,
    {
        r.push(IndexedApp::configured(config_apps[i].clone()));
        i += 1;
    }
    proof {
        assert(indexed_view(r@) =~= configured_views(apps_view(config_apps@)));
    }
    r
}

fn add_fallback_if_needed(apps: &mut Vec<IndexedApp>, reason: &str)
    ensures
        indexed_view(final(apps)@) == add_fallback_spec(indexed_view(old(apps)@), reason@),
{
    if apps.len() == 0 {
        push_unique_app(apps, IndexedApp::fallback(reason));
    }
}

impl AppLauncherProvider {
    /// Build the provider from what the platform offers: the Start Menu
    /// index (or why there is none) and the known apps, which the platform
    /// scan supplies.
    pub fn from_config(config: &Config, sources: AppSources) -> (r: Self)
        ensures
            indexed_view(r.apps@) == provider_apps_spec(config@.apps, sources@.index, sources@.known),
            r.index_status@ == provider_status_spec(sources@.index),
            r.platform@ == sources@.platform,
    {
        Self::from_config_sources(config, sources.index, sources.known, sources.platform.as_str())
    }

    /// Build the provider from what indexing found.
    pub fn from_config_and_index_result(config: &Config, index_result: Result<AppIndex, AppIndexError>, platform: &str) -> (r: Self)
        ensures
            indexed_view(r.apps@) == provider_apps_spec(config@.apps, index_result_view(index_result), Seq::empty()),
            r.index_status@ == provider_status_spec(index_result_view(index_result)),
            r.platform@ == platform@,
    {
        let known: Vec<IndexedApp> = Vec::new();
        proof {
            assert(indexed_view(known@) =~= Seq::<IndexedAppView>::empty());
        }
        Self::from_config_sources(config, index_result, known, platform)
    }

    /// Build the provider from configured apps, what indexing found, and
    /// known platform apps.
    pub fn from_config_sources(config: &Config, index_result: Result<AppIndex, AppIndexError>, known_apps: Vec<IndexedApp>, platform: &str) -> (r: Self)
        ensures
            indexed_view(r.apps@) == provider_apps_spec(config@.apps, index_result_view(index_result), indexed_view(known_apps@)),
            r.index_status@ == provider_status_spec(index_result_view(index_result)),
            r.platform@ == platform@,
    {
        let mut apps = configured_apps(&config.apps);
        push_all_unique(&mut apps, &known_apps);
        let index_status = match index_result {
            Ok(outcome) => {
                if outcome.entries.len() == 0 {
                    let mut reason = concat2("Windows app indexing found no app entries in ", usize_to_decimal(outcome.roots_checked).as_str());
                    append_str(&mut reason, " Start Menu root(s)");
                    add_fallback_if_needed(&mut apps, reason.as_str());
                    AppIndexStatus::Empty { roots_checked: outcome.roots_checked }
                } else {
                    let discovered = outcome.entries.len();
                    push_all_unique(&mut apps, &outcome.entries);
                    AppIndexStatus::Indexed { roots_checked: outcome.roots_checked, discovered }
                }
            },
            Err(error) => {
                let reason = error.message();
                add_fallback_if_needed(&mut apps, reason.as_str());
                AppIndexStatus::Unavailable { reason }
            },
        };
        AppLauncherProvider { apps, index_status, platform: lit(platform) }
    }
}

/// The status line of an indexing run.
pub open spec fn status_summary_spec(s: AppIndexStatusView) -> Seq<char> {
    match s {
        AppIndexStatusView::Indexed { roots_checked, discovered } => "indexed "@ + nat_digits(discovered as nat) + " app(s) from "@ + nat_digits(roots_checked as nat) + " Windows Start Menu root(s)"@,
        AppIndexStatusView::Empty { roots_checked } => "indexed 0 app(s) from "@ + nat_digits(roots_checked as nat) + " Windows Start Menu root(s); using fallback if no configured apps exist"@,
        AppIndexStatusView::Unavailable { reason } => "app indexing unavailable: "@ + reason + "; using fallback if no configured apps exist"@,
    }
}

fn status_summary(s: &AppIndexStatus) -> (r: String)
    ensures
        r@ == status_summary_spec(s@),
{
    match s {
        AppIndexStatus::Indexed { roots_checked, discovered } => {
            let mut r = concat2("indexed ", usize_to_decimal(*discovered).as_str());
            append_str(&mut r, " app(s) from ");
            append_str(&mut r, usize_to_decimal(*roots_checked).as_str());
            append_str(&mut r, " Windows Start Menu root(s)");
            r
        },
        AppIndexStatus::Empty { roots_checked } => {
            let mut r = concat2("indexed 0 app(s) from ", usize_to_decimal(*roots_checked).as_str());
            append_str(&mut r, " Windows Start Menu root(s); using fallback if no configured apps exist");
            r
        },
        AppIndexStatus::Unavailable { reason } => {
            let mut r = concat2("app indexing unavailable: ", reason.as_str());
            append_str(&mut r, "; using fallback if no configured apps exist");
            r
        },
    }
}

/// Indexing status as reported to users.
#[derive(Debug, PartialEq, Eq)]
pub enum AppIndexReportStatus {
    Indexed { roots_checked: usize, discovered: usize },
    Empty { roots_checked: usize },
    Unavailable { reason: String },
}

impl View for AppIndexReportStatus {
    type V = AppIndexStatusView;

    open spec fn view(&self) -> AppIndexStatusView {
        match self {
            AppIndexReportStatus::Indexed { roots_checked, discovered } => AppIndexStatusView::Indexed { roots_checked: *roots_checked, discovered: *discovered },
            AppIndexReportStatus::Empty { roots_checked } => AppIndexStatusView::Empty { roots_checked: *roots_checked },
            AppIndexReportStatus::Unavailable { reason } => AppIndexStatusView::Unavailable { reason: reason@ },
        }
    }
}

impl Clone for AppIndexReportStatus {
    fn clone(&self) -> (r: Self)
        ensures
            r@ == self@,
    {
        match self {
            AppIndexReportStatus::Indexed { roots_checked, discovered } => AppIndexReportStatus::Indexed { roots_checked: *roots_checked, discovered: *discovered },
            AppIndexReportStatus::Empty { roots_checked } => AppIndexReportStatus::Empty { roots_checked: *roots_checked },
            AppIndexReportStatus::Unavailable { reason } => AppIndexReportStatus::Unavailable { reason: reason.clone() },
        }
    }
}

#[derive(Debug, Clone, Copy, PartialEq, Eq, Structural)]
pub enum AppIndexEntrySource {
    Config,
    Known,
    WindowsStartMenu,
    Fallback,
}

/// One app entry as reported to users.
#[derive(Debug, PartialEq, Eq)]
pub struct AppIndexEntry {
    pub name: String,
    pub command: String,
    pub args: Vec<String>,
    pub keywords: Vec<String>,
    pub source: AppIndexEntrySource,
    pub source_detail: Option<String>,
}

pub struct AppIndexEntryView {
    pub name: Seq<char>,
    pub command: Seq<char>,
    pub args: Seq<Seq<char>>,
    pub keywords: Seq<Seq<char>>,
    pub source: AppIndexEntrySource,
    pub source_detail: Option<Seq<char>>,
}

impl View for AppIndexEntry {
    type V = AppIndexEntryView;

    open spec fn view(&self) -> AppIndexEntryView {
        AppIndexEntryView {
            name: self.name@,
            command: self.command@,
            args: self.args.deep_view(),
            keywords: self.keywords.deep_view(),
            source: self.source,
            source_detail: crate::plugin_api::opt_string_view(self.source_detail),
        }
    }
}

impl Clone for AppIndexEntry {
    fn clone(&self) -> (r: Self)
        ensures
            r@ == self@,
    {
        AppIndexEntry {
            name: self.name.clone(),
            command: self.command.clone(),
            args: clone_strings(&self.args),
            keywords: clone_strings(&self.keywords),
            source: self.source,
            source_detail: crate::plugin_api::clone_opt_string(&self.source_detail),
        }
    }
}

pub open spec fn app_index_entry_spec(a: IndexedAppView) -> AppIndexEntryView {
    let (source, detail) = match a.source {
        AppSourceView::Config => (AppIndexEntrySource::Config, None),
        AppSourceView::Known { label } => (AppIndexEntrySource::Known, Some(label)),
        AppSourceView::WindowsStartMenu { path } => (AppIndexEntrySource::WindowsStartMenu, Some(path)),
        AppSourceView::Fallback { reason } => (AppIndexEntrySource::Fallback, Some(reason)),
    };
    AppIndexEntryView {
        name: a.entry.name,
        command: a.entry.command,
        args: a.entry.args,
        keywords: a.entry.keywords,
        source,
        source_detail: detail,
    }
}

/// The report entry of an app.
pub fn app_index_entry(app: &IndexedApp) -> (r: AppIndexEntry)
    ensures
        r@ == app_index_entry_spec(app@),
{
    let (source, source_detail) = match &app.source {
        AppSource::Config => (AppIndexEntrySource::Config, None),
        AppSource::Known { label } => (AppIndexEntrySource::Known, Some(label.clone())),
        AppSource::WindowsStartMenu { path } => (AppIndexEntrySource::WindowsStartMenu, Some(path.clone())),
        AppSource::Fallback { reason } => (AppIndexEntrySource::Fallback, Some(reason.clone())),
    };
    AppIndexEntry {
        name: app.entry.name.clone(),
        command: app.entry.command.clone(),
        args: clone_strings(&app.entry.args),
        keywords: clone_strings(&app.entry.keywords),
        source,
        source_detail,
    }
}

/// App indexing state and entries as shown by `apps list`.
#[derive(Debug, PartialEq, Eq)]
pub struct AppIndexReport {
    pub summary: String,
    pub status: AppIndexReportStatus,
    pub entries: Vec<AppIndexEntry>,
}

pub struct AppIndexReportView {
    pub summary: Seq<char>,
    pub status: AppIndexStatusView,
    pub entries: Seq<AppIndexEntryView>,
}

pub open spec fn entries_view(v: Seq<AppIndexEntry>) -> Seq<AppIndexEntryView> {
    v.map_values(|e: AppIndexEntry| e@)
}

impl View for AppIndexReport {
    type V = AppIndexReportView;

    open spec fn view(&self) -> AppIndexReportView {
        AppIndexReportView { summary: self.summary@, status: self.status@, entries: entries_view(self.entries@) }
    }
}

impl Clone for AppIndexReport {
    fn clone(&self) -> (r: Self)
        ensures
            r@ == self@,
    {
        let mut entries: Vec<AppIndexEntry> = Vec::new();
        let mut i: usize = 0;
        while i < self.entries.len()
            invariant
                i <= self.entries@.len(),
                entries@.len() == i,
                forall|j: int| 0 <= j < i ==> (#[trigger] entries@[j])@ == self.entries@[j]@,
            decreases self.entries@.len() - i,
        {
            entries.push(self.entries[i].clone());
            i += 1;
        }
        proof {
            assert(entries_view(entries@) =~= entries_view(self.entries@));
        }
        AppIndexReport { summary: self.summary.clone(), status: self.status.clone(), entries }
    }
}

pub open spec fn report_spec(apps: Seq<IndexedAppView>, status: AppIndexStatusView) -> AppIndexReportView {
    AppIndexReportView {
        summary: status_summary_spec(status),
        status,
        entries: apps.map_values(|a: IndexedAppView| app_index_entry_spec(a)),
    }
}

impl AppLauncherProvider {
    pub fn index_status_summary(&self) -> (s: String)
        ensures
            s@ == status_summary_spec(self.index_status@),
    {
        status_summary(&self.index_status)
    }

    pub fn index_report(&self) -> (r: AppIndexReport)
        ensures
            r@ == report_spec(indexed_view(self.apps@), self.index_status@),
    {
        let status = match &self.index_status {
            AppIndexStatus::Indexed { roots_checked, discovered } => AppIndexReportStatus::Indexed { roots_checked: *roots_checked, discovered: *discovered },
            AppIndexStatus::Empty { roots_checked } => AppIndexReportStatus::Empty { roots_checked: *roots_checked },
            AppIndexStatus::Unavailable { reason } => AppIndexReportStatus::Unavailable { reason: reason.clone() },
        };
        let mut entries: Vec<AppIndexEntry> = Vec::new();
        let mut i: usize = 0;
        while i < self.apps.len()
            invariant
                i <= self.apps@.len(),
                entries@.len() == i,
                forall|j: int| 0 <= j < i ==> (#[trigger] entries@[j])@ == app_index_entry_spec(self.apps@[j]@),
            decreases self.apps@.len() - i,
        {
            entries.push(app_index_entry(&self.apps[i]));
            i += 1;
        }
        proof {
            assert(entries_view(entries@) =~= indexed_view(self.apps@).map_values(|a: IndexedAppView| app_index_entry_spec(a)));
        }
        AppIndexReport { summary: self.index_status_summary(), status, entries }
    }
}


/// The part after the last `/`, once trailing `/` are dropped; none when
/// that part is empty or `..`.
pub open spec fn file_name_spec(path: Seq<char>) -> Option<Seq<char>> {
    let p = strip_trailing_slashes(path);
    let start = last_slash_end(p);
    let name = p.subrange(start, p.len() as int);
    if name.len() == 0 || name == ".."@ {
        None
    } else {
        Some(name)
    }
}

pub open spec fn strip_trailing_slashes(p: Seq<char>) -> Seq<char>
    decreases p.len(),
{
    if p.len() > 1 && p.last() == '/' {
        strip_trailing_slashes(p.drop_last())
    } else {
        p
    }
}

/// Index just after the last `/` (0 when there is none).
pub open spec fn last_slash_end(p: Seq<char>) -> int
    decreases p.len(),
{
    if p.len() == 0 {
        0
    } else if p.last() == '/' {
        p.len() as int
    } else {
        last_slash_end(p.drop_last())
    }
}

/// Index of the last `.` in `s`, or -1.
pub open spec fn last_dot(s: Seq<char>) -> int
    decreases s.len(),
{
    if s.len() == 0 {
        -1
    } else if s.last() == '.' {
        s.len() - 1
    } else {
        last_dot(s.drop_last())
    }
}

/// `Path::extension`: the text after the last `.` of the file name, unless
/// that dot starts the name.
pub open spec fn extension_spec(path: Seq<char>) -> Option<Seq<char>> {
    match file_name_spec(path) {
        None => None,
        Some(name) => {
            let i = last_dot(name);
            if i <= 0 {
                None
            } else {
                Some(name.subrange(i + 1, name.len() as int))
            }
        },
    }
}

/// `Path::file_stem`: the file name without its extension.
pub open spec fn file_stem_spec(path: Seq<char>) -> Option<Seq<char>> {
    match file_name_spec(path) {
        None => None,
        Some(name) => {
            let i = last_dot(name);
            if i <= 0 {
                Some(name)
            } else {
                Some(name.subrange(0, i))
            }
        },
    }
}

fn strip_trailing_slashes_exec(v: &Vec<char>) -> (n: usize)
    ensures
        n <= v@.len(),
        strip_trailing_slashes(v@) == v@.subrange(0, n as int),
{
    let mut n = v.len();
    proof {
        assert(v@.subrange(0, n as int) =~= v@);
    }
    while n > 1 && v[n - 1] == '/'
        invariant
            n <= v@.len(),
            strip_trailing_slashes(v@) == strip_trailing_slashes(v@.subrange(0, n as int)),
        decreases n,
    {
        proof {
            assert(v@.subrange(0, n as int).drop_last() =~= v@.subrange(0, n - 1));
        }
        n -= 1;
    }
    n
}

fn last_slash_end_exec(v: &Vec<char>, n: usize) -> (i: usize)
    requires
        n <= v@.len(),
    ensures
        i as int == last_slash_end(v@.subrange(0, n as int)),
        i <= n,
{
    let mut j = n;
    while j > 0 && v[j - 1] != '/'
        invariant
            j <= n <= v@.len(),
            last_slash_end(v@.subrange(0, n as int)) == last_slash_end(v@.subrange(0, j as int)),
        decreases j,
    {
        proof {
            assert(v@.subrange(0, j as int).drop_last() =~= v@.subrange(0, j - 1));
        }
        j -= 1;
    }
    j
}

/// The file name of a path, as characters.
pub fn file_name_chars(path: &Vec<char>) -> (r: Option<Vec<char>>)
    ensures
        match r {
            Some(n) => file_name_spec(path@) == Some(n@),
            None => file_name_spec(path@) is None,
        },
{
    let n = strip_trailing_slashes_exec(path);
    let start = last_slash_end_exec(path, n);
    let name = sub_chars(path, start, n);
    proof {
        assert(name@ =~= v_sub(path@, n as int).subrange(start as int, n as int));
        reveal_strlit("..");
    }
    if name.len() == 0 || (name.len() == 2 && name[0] == '.' && name[1] == '.') {
        proof {
            if name.len() == 2 {
                assert(name@ =~= ".."@);
            }
        }
        None
    } else {
        proof {
            if name@ == ".."@ {
                assert(name@.len() == 2);
            }
        }
        Some(name)
    }
}

spec fn v_sub(s: Seq<char>, n: int) -> Seq<char> {
    s.subrange(0, n)
}

fn last_dot_exec(v: &Vec<char>) -> (r: Option<usize>)
    ensures
        match r {
            Some(i) => last_dot(v@) == i as int && i < v.len(),
            None => last_dot(v@) == -1,
        },
{
    let mut j = v.len();
    proof {
        assert(v@.subrange(0, j as int) =~= v@);
    }
    while j > 0 && v[j - 1] != '.'
        invariant
            j <= v@.len(),
            last_dot(v@) == last_dot(v@.subrange(0, j as int)),
        decreases j,
    {
        proof {
            assert(v@.subrange(0, j as int).drop_last() =~= v@.subrange(0, j - 1));
        }
        j -= 1;
    }
    if j == 0 {
        None
    } else {
        Some(j - 1)
    }
}

/// The lower-cased extension of a path.
pub fn start_menu_file_extension(path: &str) -> (r: Option<String>)
    ensures
        match r {
            Some(e) => extension_spec(path@) matches Some(x) && e@ == ascii_lower(x),
            None => extension_spec(path@) is None,
        },
{
    let v = chars_of(path);
    match file_name_chars(&v) {
        None => None,
        Some(name) => match last_dot_exec(&name) {
            None => None,
            Some(i) => {
                if i == 0 {
                    None
                } else {
                    let ext = sub_chars(&name, i + 1, name.len());
                    let lower = lower_chars(&ext);
                    Some(string_from_chars(&lower))
                }
            },
        },
    }
}

pub open spec fn is_shell_opened_extension(e: Seq<char>) -> bool {
    e == "lnk"@ || e == "appref-ms"@
}

pub open spec fn is_supported_extension(e: Seq<char>) -> bool {
    e == "exe"@ || is_shell_opened_extension(e)
}

fn str_eq(a: &str, b: &str) -> (r: bool)
    ensures
        r == (a@ == b@),
{
    let x = chars_of(a);
    let y = chars_of(b);
    if x.len() != y.len() {
        return false;
    }
    let r = crate::text::chars_match_at(&x, &y, 0);
    proof {
        if r {
            assert(x@.subrange(0, y@.len() as int) =~= x@);
        } else if x@ == y@ {
            assert(x@.subrange(0, y@.len() as int) =~= y@);
        }
    }
    r
}

pub fn is_shell_opened_start_menu_extension(extension: &str) -> (b: bool)
    ensures
        b == is_shell_opened_extension(extension@),
{
    str_eq(extension, "lnk") || str_eq(extension, "appref-ms")
}

pub fn is_supported_start_menu_extension(extension: &str) -> (b: bool)
    ensures
        b == is_supported_extension(extension@),
{
    str_eq(extension, "exe") || is_shell_opened_start_menu_extension(extension)
}

/// Start Menu entries for uninstallers, documentation, help files and the
/// like; they stay searchable with a lower score.
pub open spec fn is_noisy_name(name: Seq<char>) -> bool {
    let n = ascii_lower(trim_seq(name));
    ||| seq_starts_with(n, "uninstall "@)
    ||| seq_starts_with(n, "uninstall-"@)
    ||| seq_starts_with(n, "uninstall_"@)
    ||| seq_starts_with(n, "documentation "@)
    ||| seq_starts_with(n, "install additional tools "@)
    ||| seq_starts_with(n, "samples for "@)
    ||| seq_starts_with(n, "tools for "@)
    ||| seq_contains_sub(n, " documentation"@)
    ||| seq_ends_with(n, " uninstaller"@)
    ||| seq_ends_with(n, " release notes"@)
    ||| seq_ends_with(n, " help"@)
    ||| seq_ends_with(n, " documentation"@)
    ||| seq_ends_with(n, " manual"@)
    ||| seq_ends_with(n, " readme"@)
}

fn starts(n: &Vec<char>, p: &str) -> (b: bool)
    ensures
        b == seq_starts_with(n@, p@),
{
    chars_starts_with(n, &chars_of(p))
}

fn ends(n: &Vec<char>, p: &str) -> (b: bool)
    ensures
        b == seq_ends_with(n@, p@),
{
    chars_ends_with(n, &chars_of(p))
}

pub fn is_noisy_start_menu_entry(name: &str) -> (b: bool)
    ensures
        b == is_noisy_name(name@),
{
    let v = chars_of(name);
    let t = trim_chars(&v);
    let n = lower_chars(&t);
    starts(&n, "uninstall ") || starts(&n, "uninstall-") || starts(&n, "uninstall_")
        || starts(&n, "documentation ") || starts(&n, "install additional tools ")
        || starts(&n, "samples for ") || starts(&n, "tools for ")
        || chars_contains(&n, &chars_of(" documentation")) || ends(&n, " uninstaller")
        || ends(&n, " release notes") || ends(&n, " help") || ends(&n, " documentation")
        || ends(&n, " manual") || ends(&n, " readme")
}

pub open spec fn app_score_hint_spec(a: IndexedAppView) -> i64 {
    if a.source is WindowsStartMenu && is_noisy_name(a.entry.name) {
        NOISY_START_MENU_ENTRY_SCORE_HINT
    } else {
        0
    }
}

/// Discovered shortcuts without arguments open through the platform shell;
/// everything else launches its command directly.
pub open spec fn action_for_app_spec(a: IndexedAppView) -> ActionView {
    if a.source is WindowsStartMenu && a.entry.args.len() == 0 && (extension_spec(a.entry.command) matches Some(x) && is_shell_opened_extension(ascii_lower(x))) {
        ActionView::OpenPath { path: a.entry.command }
    } else {
        ActionView::LaunchApp { command: a.entry.command, args: a.entry.args }
    }
}

pub fn action_for_app(app: &IndexedApp) -> (r: Action)
    ensures
        r@ == action_for_app_spec(app@),
{
    let from_start_menu = match &app.source {
        AppSource::WindowsStartMenu { .. } => true,
        _ => false,
    };
    let shell_opened = match start_menu_file_extension(app.entry.command.as_str()) {
        Some(e) => is_shell_opened_start_menu_extension(e.as_str()),
        None => false,
    };
    if from_start_menu && app.entry.args.len() == 0 && shell_opened {
        Action::OpenPath { path: app.entry.command.clone() }
    } else {
        Action::LaunchApp { command: app.entry.command.clone(), args: clone_strings(&app.entry.args) }
    }
}

/// Map each character to itself lower-cased when it is an ASCII letter or
/// digit, and to `-` otherwise.
pub open spec fn id_char(c: char) -> char {
    if ('a' <= c && c <= 'z') || ('A' <= c && c <= 'Z') || ('0' <= c && c <= '9') {
        ascii_lower_char(c)
    } else {
        '-'
    }
}

/// Collapse every run of `-` into one.
pub open spec fn collapse_dashes(s: Seq<char>) -> Seq<char>
    decreases s.len(),
{
    if s.len() == 0 {
        s
    } else {
        let r = collapse_dashes(s.drop_last());
        if s.last() == '-' && r.len() > 0 && r.last() == '-' {
            r
        } else {
            r.push(s.last())
        }
    }
}

pub open spec fn trim_dashes_start(s: Seq<char>) -> Seq<char>
    decreases s.len(),
{
    if s.len() > 0 && s[0] == '-' {
        trim_dashes_start(s.drop_first())
    } else {
        s
    }
}

pub open spec fn trim_dashes_end(s: Seq<char>) -> Seq<char>
    decreases s.len(),
{
    if s.len() > 0 && s.last() == '-' {
        trim_dashes_end(s.drop_last())
    } else {
        s
    }
}

/// The result ID of an app: its trimmed name with letters and digits
/// lower-cased, other characters turned into single dashes, and no dash at
/// either end.
pub open spec fn stable_app_id_spec(name: Seq<char>) -> Seq<char> {
    trim_dashes_end(trim_dashes_start(collapse_dashes(trim_seq(name).map_values(|c: char| id_char(c)))))
}

pub fn stable_app_id(name: &str) -> (r: String)
    ensures
        r@ == stable_app_id_spec(name@),
{
    let v = chars_of(name);
    let t = trim_chars(&v);
    let ghost mapped = t@.map_values(|c: char| id_char(c));
    let mut out: Vec<char> = Vec::new();
    let mut i: usize = 0;
    while i < t.len()
        invariant
            i <= t@.len(),
            mapped == t@.map_values(|c: char| id_char(c)),
            out@ == collapse_dashes(mapped.take(i as int)),
        decreases t@.len() - i,
    {
        let c = t[i];
        let m = if ('a' <= c && c <= 'z') || ('A' <= c && c <= 'Z') || ('0' <= c && c <= '9') {
            crate::text::char_to_ascii_lowercase(c)
        } else {
            '-'
        };
        proof {
            assert(mapped.take(i + 1).drop_last() =~= mapped.take(i as int));
            assert(mapped.take(i + 1).last() == m);
        }
        if !(m == '-' && out.len() > 0 && out[out.len() - 1] == '-') {
            out.push(m);
        }
        i += 1;
    }
    proof {
        assert(mapped.take(t@.len() as int) =~= mapped);
    }
    let mut lo: usize = 0;
    proof {
        assert(out@.skip(0) =~= out@);
    }
    while lo < out.len() && out[lo] == '-'
        invariant
            lo <= out@.len(),
            trim_dashes_start(out@) == trim_dashes_start(out@.skip(lo as int)),
        decreases out@.len() - lo,
    {
        proof {
            assert(out@.skip(lo as int).drop_first() =~= out@.skip(lo + 1));
        }
        lo += 1;
    }
    let mut hi: usize = out.len();
    proof {
        assert(out@.skip(lo as int) =~= out@.subrange(lo as int, hi as int));
    }
    while hi > lo && out[hi - 1] == '-'
        invariant
            lo <= hi <= out@.len(),
            trim_dashes_end(trim_dashes_start(out@)) == trim_dashes_end(out@.subrange(lo as int, hi as int)),
        decreases hi,
    {
        proof {
            assert(out@.subrange(lo as int, hi as int).drop_last() =~= out@.subrange(lo as int, hi - 1));
        }
        hi -= 1;
    }
    let res = sub_chars(&out, lo, hi);
    string_from_chars(&res)
}


/// The display name of a discovered file: its trimmed stem, when not empty.
pub open spec fn app_name_spec(path: Seq<char>) -> Option<Seq<char>> {
    match file_stem_spec(path) {
        None => None,
        Some(stem) => if trim_seq(stem).len() == 0 {
            None
        } else {
            Some(trim_seq(stem))
        },
    }
}

pub fn app_name_from_path(path: &str) -> (r: Option<String>)
    ensures
        match r {
            Some(n) => app_name_spec(path@) == Some(n@),
            None => app_name_spec(path@) is None,
        },
{
    let v = chars_of(path);
    let name = match file_name_chars(&v) {
        None => return None,
        Some(n) => n,
    };
    let stem = match last_dot_exec(&name) {
        Some(i) => if i == 0 { sub_chars(&name, 0, name.len()) } else { sub_chars(&name, 0, i) },
        None => sub_chars(&name, 0, name.len()),
    };
    proof {
        assert(name@.subrange(0, name@.len() as int) =~= name@);
    }
    let t = trim_chars(&stem);
    if t.len() == 0 {
        None
    } else {
        Some(string_from_chars(&t))
    }
}

/// The path without its last component (the text before the last `/`).
pub open spec fn parent_spec(path: Seq<char>) -> Seq<char> {
    let p = strip_trailing_slashes(path);
    let start = last_slash_end(p);
    if start > 0 {
        p.subrange(0, start - 1)
    } else {
        Seq::empty()
    }
}

pub open spec fn discovered_keywords_spec(path: Seq<char>, extension: Seq<char>) -> Seq<Seq<char>> {
    let base = seq!["app"@, "launcher"@, "windows"@, extension];
    match file_name_spec(parent_spec(path)) {
        Some(dir) => base.push(dir),
        None => base,
    }
}

pub fn keywords_for_discovered_app(path: &str, extension: &str) -> (r: Vec<String>)
    ensures
        r.deep_view() == discovered_keywords_spec(path@, extension@),
{
    let mut r = strings4("app", "launcher", "windows", extension);
    let v = chars_of(path);
    let n = strip_trailing_slashes_exec(&v);
    let start = last_slash_end_exec(&v, n);
    let parent = if start > 0 { sub_chars(&v, 0, start - 1) } else { Vec::new() };
    proof {
        let p = v@.subrange(0, n as int);
        if start > 0 {
            assert(p.subrange(0, start - 1) =~= v@.subrange(0, start - 1));
        }
        assert(parent@ =~= parent_spec(v@));
    }
    match file_name_chars(&parent) {
        Some(dir) => {
            let ghost before = r.deep_view();
            r.push(string_from_chars(&dir));
            proof {
                assert(r.deep_view() =~= before.push(dir@));
            }
        },
        None => {},
    }
    r
}

pub open spec fn discovered_app_spec(path: Seq<char>) -> Option<IndexedAppView> {
    match extension_spec(path) {
        None => None,
        Some(x) => {
            let e = ascii_lower(x);
            if !is_supported_extension(e) {
                None
            } else {
                match app_name_spec(path) {
                    None => None,
                    Some(name) => Some(IndexedAppView {
                        entry: AppEntryView {
                            name,
                            command: path,
                            args: Seq::empty(),
                            keywords: discovered_keywords_spec(path, e),
                        },
                        source: AppSourceView::WindowsStartMenu { path },
                    }),
                }
            }
        },
    }
}

/// The entry for one file found while scanning Start Menu folders.
pub fn indexed_app_from_start_menu_file(path: &str) -> (r: Option<IndexedApp>)
    ensures
        match r {
            Some(a) => discovered_app_spec(path@) == Some(a@),
            None => discovered_app_spec(path@) is None,
        },
{
    let extension = match start_menu_file_extension(path) {
        None => return None,
        Some(e) => e,
    };
    if !is_supported_start_menu_extension(extension.as_str()) {
        return None;
    }
    let name = match app_name_from_path(path) {
        None => return None,
        Some(n) => n,
    };
    let args: Vec<String> = Vec::new();
    proof {
        assert(args.deep_view() =~= Seq::<Seq<char>>::empty());
    }
    let keywords = keywords_for_discovered_app(path, extension.as_str());
    let entry = AppEntry { name, command: lit(path), args, keywords };
    Some(IndexedApp::discovered(entry, path))
}

pub open spec fn app_subtitle_spec(source: AppSourceView) -> Seq<char> {
    match source {
        AppSourceView::Config => "Configured app"@,
        AppSourceView::Known { label } => label,
        AppSourceView::WindowsStartMenu { .. } => "Windows Start Menu"@,
        AppSourceView::Fallback { reason } => "Fallback sample: "@ + reason,
    }
}

pub open spec fn app_result_spec(a: IndexedAppView) -> SearchResultView {
    SearchResultView {
        subtitle: Some(app_subtitle_spec(a.source)),
        keywords: a.entry.keywords,
        score_hint: app_score_hint_spec(a),
        ..new_result_view(
            "apps"@,
            stable_app_id_spec(a.entry.name),
            a.entry.name,
            ResultKind::App,
            action_for_app_spec(a),
        )
    }
}

/// The search result of an app.
pub fn app_result(app: &IndexedApp) -> (r: SearchResult)
    ensures
        r@ == app_result_spec(app@),
{
    let subtitle = match &app.source {
        AppSource::Config => lit("Configured app"),
        AppSource::Known { label } => label.clone(),
        AppSource::WindowsStartMenu { .. } => lit("Windows Start Menu"),
        AppSource::Fallback { reason } => concat2("Fallback sample: ", reason.as_str()),
    };
    let score_hint = match &app.source {
        AppSource::WindowsStartMenu { .. } => if is_noisy_start_menu_entry(app.entry.name.as_str()) {
            NOISY_START_MENU_ENTRY_SCORE_HINT
        } else {
            0
        },
        _ => 0,
    };
    SearchResult::from_parts(
        ProviderId::new("apps"),
        stable_app_id(app.entry.name.as_str()),
        app.entry.name.clone(),
        ResultKind::App,
        action_for_app(app),
    ).with_subtitle(subtitle.as_str()).with_keywords(clone_strings(&app.entry.keywords)).with_score_hint(score_hint)
}

pub open spec fn launch_empty_text() -> Seq<char> {
    "app launch command is empty; check the app index entry or config"@
}

pub open spec fn launch_quoted_text() -> Seq<char> {
    "app launch command must be an executable path without embedded quotes or arguments; store arguments separately"@
}

pub open spec fn is_path_separator(c: char) -> bool {
    c == '/' || c == '\\'
}

pub open spec fn is_ascii_letter(c: char) -> bool {
    ('a' <= c && c <= 'z') || ('A' <= c && c <= 'Z')
}

/// Whether `path` is absolute on `platform`. On Windows that takes a drive
/// letter, a colon and a separator, or a UNC or device prefix
/// (two separators); elsewhere a leading `/`.
pub open spec fn is_absolute_path_spec(path: Seq<char>, platform: Seq<char>) -> bool {
    if platform == "windows"@ {
        ||| path.len() >= 3 && is_ascii_letter(path[0]) && path[1] == ':' && is_path_separator(path[2])
        ||| path.len() >= 2 && is_path_separator(path[0]) && is_path_separator(path[1])
    } else {
        path.len() > 0 && path[0] == '/'
    }
}

fn is_separator_char(c: char) -> (b: bool)
    ensures
        b == is_path_separator(c),
{
    c == '/' || c == '\\'
}

/// Whether a launch command names an absolute path on `platform`, so that
/// its target must exist before it is launched.
pub fn command_is_explicit_path(command: &str, platform: &str) -> (b: bool)
    ensures
        b == is_absolute_path_spec(command@, platform@),
{
    let v = chars_of(command);
    if lit(platform) == lit("windows") {
        let drive = v.len() >= 3 && (('a' <= v[0] && v[0] <= 'z') || ('A' <= v[0] && v[0] <= 'Z')) && v[1] == ':' && is_separator_char(v[2]);
        let unc = v.len() >= 2 && is_separator_char(v[0]) && is_separator_char(v[1]);
        drive || unc
    } else {
        v.len() > 0 && v[0] == '/'
    }
}

/// What launching `command` needs: rejected when blank or when it carries
/// quotes; an absolute path on the platform must exist first.
pub open spec fn launch_spec(command: Seq<char>, platform: Seq<char>) -> Result<bool, Seq<char>> {
    if trim_seq(command).len() == 0 {
        Err(launch_empty_text())
    } else if command.contains('"') {
        Err(launch_quoted_text())
    } else {
        Ok(is_absolute_path_spec(command, platform))
    }
}

/// Check a launch command and say which outside work launching it needs.
pub fn launch_command(command: &str, args: &Vec<String>, platform: &str) -> (r: Result<ActionEffect, PluginError>)
    ensures
        match (r, launch_spec(command@, platform@)) {
            (Ok(ActionEffect::Launch { command: c, args: a, check_target }), Ok(check)) => c@ == command@ && a.deep_view() == args.deep_view() && check_target == check,
            (Err(PluginError::Action(m)), Err(t)) => m@ == t,
            _ => false,
        },
{
    let v = chars_of(command);
    let t = trim_chars(&v);
    if t.len() == 0 {
        return Err(PluginError::Action(lit("app launch command is empty; check the app index entry or config")));
    }
    let mut i: usize = 0;
    while i < v.len()
        invariant
            i <= v@.len(),
            v@ == command@,
            trim_seq(v@).len() > 0,
            forall|j: int| 0 <= j < i ==> v@[j] != '"',
        decreases v@.len() - i,
    {
        if v[i] == '"' {
            proof {
                assert(v@.contains('"')) by {
                    assert(v@[i as int] == '"');
                }
            }
            return Err(PluginError::Action(lit("app launch command must be an executable path without embedded quotes or arguments; store arguments separately")));
        }
        i += 1;
    }
    let check_target = command_is_explicit_path(command, platform);
    Ok(ActionEffect::Launch { command: lit(command), args: clone_strings(args), check_target })
}

pub open spec fn apps_search_spec(apps: Seq<IndexedAppView>) -> Seq<SearchResultView> {
    apps.map_values(|a: IndexedAppView| app_result_spec(a))
}

impl Provider for AppLauncherProvider {
    open spec fn id_spec(&self) -> Seq<char> {
        "apps"@
    }

    open spec fn search_spec(&self, query: Seq<char>, limit: usize) -> Result<Seq<SearchResultView>, PluginErrorView> {
        Ok(apps_search_spec(indexed_view(self.apps@)))
    }

    open spec fn execute_spec(&self, action: ActionView) -> Result<StepView, PluginErrorView> {
        match action {
            ActionView::LaunchApp { command, args } => match launch_spec(command, self.platform@) {
                Ok(check) => Ok(StepView::Perform(EffectView::Launch { command, args, check_target: check })),
                Err(t) => Err(PluginErrorView::Action(t)),
            },
            ActionView::OpenPath { path } => Ok(StepView::Perform(EffectView::Open { path })),
            _ => Err(PluginErrorView::UnsupportedAction),
        }
    }

    fn id(&self) -> (r: ProviderId)
        ensures
            r@ == "apps"@,
    {
        ProviderId::new("apps")
    }

    fn search(&self, context: &SearchContext) -> (r: Result<Vec<SearchResult>, PluginError>)
        ensures
            r matches Ok(v) && results_view(v@) == apps_search_spec(indexed_view(self.apps@)),
    {
        let mut out: Vec<SearchResult> = Vec::new();
        let mut i: usize = 0;
        while i < self.apps.len()
            invariant
                i <= self.apps@.len(),
                out@.len() == i,
                forall|j: int| 0 <= j < i ==> (#[trigger] out@[j])@ == app_result_spec(self.apps@[j]@),
            decreases self.apps@.len() - i,
        {
            out.push(app_result(&self.apps[i]));
            i += 1;
        }
        proof {
            assert(results_view(out@) =~= apps_search_spec(indexed_view(self.apps@)));
        }
        Ok(out)
    }

    fn execute(&self, action: &Action) -> (r: Result<ExecutionStep, PluginError>)
        ensures
            match action {
                Action::LaunchApp { command, args } => match (r, launch_spec(command@, self.platform@)) {
                    (Ok(ExecutionStep::Perform(ActionEffect::Launch { command: c, args: a, check_target })), Ok(check)) => c@ == command@ && a.deep_view() == args.deep_view() && check_target == check,
                    (Err(PluginError::Action(m)), Err(t)) => m@ == t,
                    _ => false,
                },
                Action::OpenPath { path } => r matches Ok(ExecutionStep::Perform(ActionEffect::Open { path: p })) && p@ == path@,
                _ => r == Err::<ExecutionStep, PluginError>(PluginError::UnsupportedAction),
            },
    {
        match action {
            Action::LaunchApp { command, args } => match launch_command(command.as_str(), args, self.platform.as_str()) {
                Ok(effect) => Ok(ExecutionStep::Perform(effect)),
                Err(e) => Err(e),
            },
            Action::OpenPath { path } => Ok(ExecutionStep::Perform(ActionEffect::Open { path: path.clone() })),
            _ => Err(PluginError::UnsupportedAction),
        }
    }
}


proof fn lemma_push_all_unique_prefix(apps: Seq<IndexedAppView>, new: Seq<IndexedAppView>)
    ensures
        push_all_unique_spec(apps, new).len() >= apps.len(),
        push_all_unique_spec(apps, new).take(apps.len() as int) == apps,
    decreases new.len(),
{
    if new.len() > 0 {
        lemma_push_all_unique_prefix(apps, new.drop_last());
        let p = push_all_unique_spec(apps, new.drop_last());
        if !has_name(p, name_key(new.last())) {
            assert(p.push(new.last()).take(apps.len() as int) =~= p.take(apps.len() as int));
        }
    }
}

/// Configured apps always come first, in configuration order: known and
/// discovered apps only follow them, so a discovered app never replaces a
/// configured one of the same name.
pub proof fn law_configured_apps_first(config_apps: Seq<AppEntryView>, index: IndexResultView, known: Seq<IndexedAppView>)
    ensures
        provider_apps_spec(config_apps, index, known).len() >= config_apps.len(),
        provider_apps_spec(config_apps, index, known).take(config_apps.len() as int) == configured_views(config_apps),
{
    let c = configured_views(config_apps);
    lemma_push_all_unique_prefix(c, known);
    let base = push_all_unique_spec(c, known);
    match index {
        IndexResultView::Found { entries, roots_checked } => {
            if entries.len() != 0 {
                lemma_push_all_unique_prefix(base, entries);
                assert(push_all_unique_spec(base, entries).take(c.len() as int) =~= push_all_unique_spec(base, entries).take(base.len() as int).take(c.len() as int));
            } else if base.len() == 0 {
                assert(c.len() == 0);
                assert(add_fallback_spec(base, empty_index_reason(roots_checked as nat)).take(0) =~= c);
            }
        },
        IndexResultView::Failed(e) => {
            if base.len() == 0 {
                assert(c.len() == 0);
                assert(add_fallback_spec(base, app_index_error_text(e)).take(0) =~= c);
            }
        },
    }
}

proof fn lemma_push_all_unique_fresh(apps: Seq<IndexedAppView>, new: Seq<IndexedAppView>)
    ensures
        forall|j: int, k: int|
            0 <= j < k < push_all_unique_spec(apps, new).len() && apps.len() <= k ==> name_key(
                #[trigger] push_all_unique_spec(apps, new)[j],
            ) != name_key(#[trigger] push_all_unique_spec(apps, new)[k]),
    decreases new.len(),
{
    if new.len() > 0 {
        lemma_push_all_unique_fresh(apps, new.drop_last());
        lemma_push_all_unique_prefix(apps, new.drop_last());
        let p = push_all_unique_spec(apps, new.drop_last());
        let a = new.last();
        if !has_name(p, name_key(a)) {
            let r = p.push(a);
            assert forall|j: int, k: int| 0 <= j < k < r.len() && apps.len() <= k implies name_key(#[trigger] r[j]) != name_key(#[trigger] r[k]) by {
                if k == p.len() {
                    assert(r[j] == p[j]);
                } else {
                    assert(r[j] == p[j] && r[k] == p[k]);
                }
            }
        }
    }
}

proof fn lemma_push_all_unique_nonempty(apps: Seq<IndexedAppView>, new: Seq<IndexedAppView>)
    requires
        apps.len() > 0 || new.len() > 0,
    ensures
        push_all_unique_spec(apps, new).len() > 0,
    decreases new.len(),
{
    lemma_push_all_unique_prefix(apps, new);
    if apps.len() == 0 && new.len() > 0 {
        let p = push_all_unique_spec(apps, new.drop_last());
        if new.len() > 1 {
            lemma_push_all_unique_nonempty(apps, new.drop_last());
        }
        if p.len() == 0 {
            assert(!has_name(p, name_key(new.last())));
        }
    }
}

/// Configured apps win over known and discovered apps of the same
/// lower-cased name: no entry after them shares a name with one of them.
/// The Notepad fallback is added only when there is no configured or known
/// app and indexing failed or found nothing; then it is the only entry.
pub proof fn law_configured_apps_win(config_apps: Seq<AppEntryView>, index: IndexResultView, known: Seq<IndexedAppView>)
    ensures
        forall|j: int, k: int|
            0 <= j < config_apps.len() <= k < provider_apps_spec(config_apps, index, known).len() ==> name_key(
                #[trigger] provider_apps_spec(config_apps, index, known)[j],
            ) != name_key(#[trigger] provider_apps_spec(config_apps, index, known)[k]),
        (config_apps.len() > 0 || known.len() > 0) ==> provider_apps_spec(config_apps, index, known) == (match index {
            IndexResultView::Found { entries, .. } => if entries.len() > 0 {
                push_all_unique_spec(push_all_unique_spec(configured_views(config_apps), known), entries)
            } else {
                push_all_unique_spec(configured_views(config_apps), known)
            },
            IndexResultView::Failed(_) => push_all_unique_spec(configured_views(config_apps), known),
        }),
        (config_apps.len() == 0 && known.len() == 0 && !(index matches IndexResultView::Found { entries, .. } && entries.len() > 0))
            ==> provider_apps_spec(config_apps, index, known).len() == 1
                && provider_apps_spec(config_apps, index, known)[0].source is Fallback,
{
    let c = configured_views(config_apps);
    lemma_push_all_unique_fresh(c, known);
    lemma_push_all_unique_prefix(c, known);
    let base = push_all_unique_spec(c, known);
    if c.len() > 0 || known.len() > 0 {
        lemma_push_all_unique_nonempty(c, known);
    }
    let r = provider_apps_spec(config_apps, index, known);
    match index {
        IndexResultView::Found { entries, roots_checked } => {
            if entries.len() > 0 {
                lemma_push_all_unique_fresh(base, entries);
                lemma_push_all_unique_prefix(base, entries);
                assert forall|j: int, k: int| 0 <= j < config_apps.len() <= k < r.len() implies name_key(#[trigger] r[j]) != name_key(#[trigger] r[k]) by {
                    if k < base.len() {
                        assert(r.take(base.len() as int)[j] == base[j]);
                        assert(r.take(base.len() as int)[k] == base[k]);
                        assert(c.len() == config_apps.len());
                    }
                }
            } else if base.len() == 0 {
                assert(c =~= Seq::<IndexedAppView>::empty());
                assert(r =~= seq![fallback_view(empty_index_reason(roots_checked as nat))]);
            }
        },
        IndexResultView::Failed(e) => {
            if base.len() == 0 {
                assert(c =~= Seq::<IndexedAppView>::empty());
                assert(r =~= seq![fallback_view(app_index_error_text(e))]);
            }
        },
    }
}

} // verus!
