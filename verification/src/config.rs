//! Typed configuration with the documented defaults.

use vstd::prelude::*;

use crate::plugin_api::clone_strings;
use crate::text::lit;

verus! {

#[derive(Debug, Clone, Copy, PartialEq, Eq, Structural)]
pub struct GeneralConfig {
    pub max_results: usize,
}

impl Default for GeneralConfig {
    fn default() -> (r: Self)
        ensures
            r.max_results == 10,
    {
        GeneralConfig { max_results: 10 }
    }
}

/// Which built-in providers are registered.
#[derive(Debug, Clone, Copy, PartialEq, Eq, Structural)]
pub struct ProviderConfig {
    pub apps: bool,
    pub calculator: bool,
    pub shell: bool,
    pub clipboard: bool,
}

impl Default for ProviderConfig {
    fn default() -> (r: Self)
        ensures
            r == (ProviderConfig { apps: true, calculator: true, shell: true, clipboard: true }),
    {
        ProviderConfig { apps: true, calculator: true, shell: true, clipboard: true }
    }
}

/// Clipboard capture and retention limits.
#[derive(Debug, Clone, Copy, PartialEq, Eq, Structural)]
pub struct ClipboardConfig {
    pub capture: bool,
    pub max_entries: usize,
    pub max_entry_bytes: usize,
}

impl Default for ClipboardConfig {
    fn default() -> (r: Self)
        ensures
            r == (ClipboardConfig { capture: false, max_entries: 50, max_entry_bytes: 4096 }),
    {
        ClipboardConfig { capture: false, max_entries: 50, max_entry_bytes: 4096 }
    }
}

/// The global hotkey binding; disabled by default.
#[derive(Debug, PartialEq, Eq)]
pub struct HotkeyConfig {
    pub enabled: bool,
    pub key: String,
    pub ctrl: bool,
    pub alt: bool,
    pub shift: bool,
    pub meta: bool,
}

pub struct HotkeyConfigView {
    pub enabled: bool,
    pub key: Seq<char>,
    pub ctrl: bool,
    pub alt: bool,
    pub shift: bool,
    pub meta: bool,
}

impl View for HotkeyConfig {
    type V = HotkeyConfigView;

    open spec fn view(&self) -> HotkeyConfigView {
        HotkeyConfigView {
            enabled: self.enabled,
            key: self.key@,
            ctrl: self.ctrl,
            alt: self.alt,
            shift: self.shift,
            meta: self.meta,
        }
    }
}

impl Clone for HotkeyConfig {
    fn clone(&self) -> (r: Self)
        ensures
            r@ == self@,
    {
        HotkeyConfig {
            enabled: self.enabled,
            key: self.key.clone(),
            ctrl: self.ctrl,
            alt: self.alt,
            shift: self.shift,
            meta: self.meta,
        }
    }
}

impl Default for HotkeyConfig {
    fn default() -> (r: Self)
        ensures
            r@ == (HotkeyConfigView {
                enabled: false,
                key: "Space"@,
                ctrl: true,
                alt: true,
                shift: false,
                meta: false,
            }),
    {
        HotkeyConfig {
            enabled: false,
            key: lit("Space"),
            ctrl: true,
            alt: true,
            shift: false,
            meta: false,
        }
    }
}

/// An application the user configured by hand.
#[derive(Debug, PartialEq, Eq)]
pub struct AppEntry {
    pub name: String,
    pub command: String,
    pub args: Vec<String>,
    pub keywords: Vec<String>,
}

pub struct AppEntryView {
    pub name: Seq<char>,
    pub command: Seq<char>,
    pub args: Seq<Seq<char>>,
    pub keywords: Seq<Seq<char>>,
}

impl View for AppEntry {
    type V = AppEntryView;

    open spec fn view(&self) -> AppEntryView {
        AppEntryView {
            name: self.name@,
            command: self.command@,
            args: self.args.deep_view(),
            keywords: self.keywords.deep_view(),
        }
    }
}

impl Clone for AppEntry {
    fn clone(&self) -> (r: Self)
        ensures
            r@ == self@,
    {
        AppEntry {
            name: self.name.clone(),
            command: self.command.clone(),
            args: clone_strings(&self.args),
            keywords: clone_strings(&self.keywords),
        }
    }
}

impl AppEntry {
    pub fn new(name: &str, command: &str) -> (r: Self)
        ensures
            r@ == (AppEntryView { name: name@, command: command@, args: Seq::empty(), keywords: Seq::empty() }),
    {
        let args: Vec<String> = Vec::new();
        let keywords: Vec<String> = Vec::new();
        proof {
            assert(args.deep_view() =~= Seq::<Seq<char>>::empty());
            assert(keywords.deep_view() =~= Seq::<Seq<char>>::empty());
        }
        AppEntry { name: lit(name), command: lit(command), args, keywords }
    }
}

impl Default for AppEntry {
    fn default() -> (r: Self)
        ensures
            r@ == (AppEntryView { name: Seq::empty(), command: Seq::empty(), args: Seq::empty(), keywords: Seq::empty() }),
    {
        proof {
            reveal_strlit("");
            assert(""@ =~= Seq::<char>::empty());
        }
        AppEntry::new("", "")
    }
}

pub open spec fn apps_view(v: Seq<AppEntry>) -> Seq<AppEntryView> {
    v.map_values(|a: AppEntry| a@)
}

pub fn clone_apps(v: &Vec<AppEntry>) -> (r: Vec<AppEntry>)
    ensures
        apps_view(r@) == apps_view(v@),
{
    let mut r: Vec<AppEntry> = Vec::new();
    let mut i: usize = 0;
    while i < v.len()
        invariant
            i <= v@.len(),
            r@.len() == i,
            forall|j: int| 0 <= j < i ==> r@[j]@ == v@[j]@,
        decreases v@.len() - i,
    {
        r.push(v[i].clone());
        i += 1;
    }
    proof {
        assert(apps_view(r@) =~= apps_view(v@));
    }
    r
}

/// The whole configuration file.
#[derive(Debug, PartialEq, Eq)]
pub struct Config {
    pub general: GeneralConfig,
    pub providers: ProviderConfig,
    pub clipboard: ClipboardConfig,
    pub hotkey: HotkeyConfig,
    pub apps: Vec<AppEntry>,
}

pub struct ConfigView {
    pub general: GeneralConfig,
    pub providers: ProviderConfig,
    pub clipboard: ClipboardConfig,
    pub hotkey: HotkeyConfigView,
    pub apps: Seq<AppEntryView>,
}

impl View for Config {
    type V = ConfigView;

    open spec fn view(&self) -> ConfigView {
        ConfigView {
            general: self.general,
            providers: self.providers,
            clipboard: self.clipboard,
            hotkey: self.hotkey@,
            apps: apps_view(self.apps@),
        }
    }
}

impl Clone for Config {
    fn clone(&self) -> (r: Self)
        ensures
            r@ == self@,
    {
        Config {
            general: self.general,
            providers: self.providers,
            clipboard: self.clipboard,
            hotkey: self.hotkey.clone(),
            apps: clone_apps(&self.apps),
        }
    }
}

/// The configuration used when no file sets anything.
pub open spec fn default_config_view() -> ConfigView {
    ConfigView {
        general: GeneralConfig { max_results: 10 },
        providers: ProviderConfig { apps: true, calculator: true, shell: true, clipboard: true },
        clipboard: ClipboardConfig { capture: false, max_entries: 50, max_entry_bytes: 4096 },
        hotkey: HotkeyConfigView {
            enabled: false,
            key: "Space"@,
            ctrl: true,
            alt: true,
            shift: false,
            meta: false,
        },
        apps: Seq::empty(),
    }
}

impl Default for Config {
    fn default() -> (r: Self)
        ensures
            r@ == default_config_view(),
    {
        let apps: Vec<AppEntry> = Vec::new();
        proof {
            assert(apps_view(apps@) =~= Seq::<AppEntryView>::empty());
        }
        Config {
            general: GeneralConfig::default(),
            providers: ProviderConfig::default(),
            clipboard: ClipboardConfig::default(),
            hotkey: HotkeyConfig::default(),
            apps,
        }
    }
}

impl Config {
    /// The configuration to use given what reading the platform default
    /// config file gave: the parsed file when one exists, the defaults when
    /// there is no default location or no file there.
    pub fn load_default_or_default(loaded: Option<Config>) -> (r: Config)
        ensures
            match loaded {
                Some(c) => r@ == c@,
                None => r@ == default_config_view(),
            },
    {
        match loaded {
            Some(c) => c,
            None => Config::default(),
        }
    }
}

} // verus!
