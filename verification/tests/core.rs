use freepalette::config::{AppEntry, Config};
use freepalette::fuzzy::fuzzy_score;
use freepalette::plugin_api::{
    complete_effect, execute_noop_only, Action, ActionEffect, EffectReport, ExecutionStep,
    PluginError, Provider, ProviderId, ResultKind, SearchContext, SearchResult, SpawnReport,
};
use freepalette::providers::app::{
    app_index_entry, app_result, command_is_explicit_path, index_from_discovered, indexed_app_from_start_menu_file, launch_command,
    platform_known_apps,
    AppIndex, AppIndexEntrySource, AppIndexError, AppIndexReportStatus, AppLauncherProvider, AppSource, AppSources,
    IndexedApp,
};
use freepalette::providers::calculator::{
    evaluate_expression, expression_from_query, format_number, CalculatorError, CalculatorProvider,
};
use freepalette::providers::clipboard::ClipboardHistoryProvider;
use freepalette::providers::shell::{shell_command_from_query, ShellCommandProvider};
use freepalette::providers::BuiltinProvider;
use freepalette::registry::{CoreError, ProviderRegistry};

use std::sync::atomic::{AtomicUsize, Ordering};
use std::sync::Arc;

const PLATFORM: &str = "linux";
const MISSING_TARGET: &str = "/nonexistent/freepalette-stale-app/Missing App.exe";

fn noop(message: &str) -> Action {
    Action::Noop { message: message.to_string() }
}

fn stale_indexed_app() -> (AppLauncherProvider, String) {
    let indexed = AppIndex {
        entries: vec![IndexedApp::discovered(AppEntry::new("Stale App", MISSING_TARGET), MISSING_TARGET)],
        roots_checked: 1,
    };
    (
        AppLauncherProvider::from_config_and_index_result(&Config::default(), Ok(indexed), PLATFORM),
        MISSING_TARGET.to_string(),
    )
}

fn value_of(expression: &str) -> f64 {
    let v = evaluate_expression(expression).expect("expression should parse");
    v.num as f64 / v.den as f64
}

#[test]
fn search_result_keeps_action_field_as_primary_action() {
    let action = Action::CopyText { text: "4".to_string() };

    let result = SearchResult::new(ProviderId::new("calculator"), "calc", "2+2 = 4", ResultKind::Calculator, action.clone());

    assert_eq!(result.action, action);
    assert_eq!(result.primary_action(), &action);
    assert_eq!(result.actions.len(), 1);
    assert_eq!(result.actions[0].id, "primary");
    assert_eq!(result.actions[0].label, "Copy");
    assert!(result.actions[0].primary);
}

#[test]
fn primary_action_falls_back_to_action_field_when_descriptors_are_absent() {
    let result = SearchResult {
        id: "legacy".to_string(),
        provider: ProviderId::new("legacy"),
        title: "Legacy Result".to_string(),
        subtitle: None,
        kind: ResultKind::System,
        action: noop("legacy action"),
        actions: Vec::new(),
        keywords: Vec::new(),
        score_hint: 0,
    };

    assert!(matches!(result.primary_action(), Action::Noop { message } if message == "legacy action"));
}

#[test]
fn matches_abbreviated_text() {
    let score = fuzzy_score("npd", "Notepad");
    assert!(score.is_some());
}

#[test]
fn rejects_unrelated_text() {
    let score = fuzzy_score("zzzz", "Notepad");
    assert!(score.is_none());
}

#[test]
fn evaluates_basic_math() {
    assert_eq!(value_of("2+2"), 4.0);
    assert_eq!(value_of("2 * (3 + 4)"), 14.0);
    assert_eq!(value_of("-5 + 2"), -3.0);
}

#[test]
fn rejects_division_by_zero() {
    let error = evaluate_expression("10 / 0").expect_err("division by zero should fail");
    assert_eq!(error, CalculatorError::DivisionByZero);
}

#[test]
fn detects_only_calc_prefix() {
    assert_eq!(expression_from_query("calc 2+2"), Some("2+2".to_string()));
    assert_eq!(expression_from_query("calc"), None);
    assert_eq!(expression_from_query("calc "), None);
    assert_eq!(expression_from_query("2+2"), None);
    assert_eq!(expression_from_query("=2+2"), None);
}

#[test]
fn provider_returns_result_for_calc_query() {
    let provider = CalculatorProvider;
    let results = provider.search(&SearchContext::new("calc 2+2", 10)).expect("calculator search should succeed");

    assert_eq!(results.len(), 1);
    assert_eq!(results[0].title, "2+2 = 4");
}

#[test]
fn returns_seeded_clipboard_items() {
    let provider = ClipboardHistoryProvider::with_items(vec!["hello".to_string()]);
    let results = provider.search(&SearchContext::new("hello", 10)).expect("clipboard search should succeed");

    assert_eq!(results.len(), 1);
    assert_eq!(results[0].title, "hello");
}

#[test]
fn preview_uses_first_line_only() {
    let provider = ClipboardHistoryProvider::with_items(vec!["first line\nsecond line".to_string()]);
    let results = provider.search(&SearchContext::new("clipboard", 10)).expect("clipboard search should succeed");

    assert_eq!(results[0].title, "first line");
    assert!(!results[0].title.contains("second line"));
}

#[test]
fn preview_truncates_long_items() {
    let provider = ClipboardHistoryProvider::with_items(vec!["x".repeat(120)]);
    let results = provider.search(&SearchContext::new("clipboard", 10)).expect("clipboard search should succeed");

    assert_eq!(results[0].title.chars().count(), 80);
    assert!(results[0].title.ends_with("..."));
}

#[test]
fn execute_message_does_not_echo_clipboard_contents() {
    let provider = ClipboardHistoryProvider::empty();
    let step = provider
        .execute(&Action::CopyText { text: "private-token-value".to_string() })
        .expect("clipboard copy action should return stub outcome");
    let ExecutionStep::Done(outcome) = step else {
        panic!("clipboard copy should complete without outside work");
    };

    assert_eq!(outcome.message, "clipboard write is stubbed; selected 19 bytes");
    assert!(!outcome.message.contains("private-token-value"));
}

#[test]
fn parses_shell_prefix() {
    assert_eq!(shell_command_from_query("> echo hello"), Some("echo hello".to_string()));
    assert_eq!(shell_command_from_query("   > pwd"), Some("pwd".to_string()));
    assert_eq!(shell_command_from_query(">"), None);
    assert_eq!(shell_command_from_query(">   "), None);
    assert_eq!(shell_command_from_query("echo hello"), None);
}

#[test]
fn provider_returns_result_for_shell_query() {
    let provider = ShellCommandProvider;
    let results = provider.search(&SearchContext::new("> echo hello", 10)).expect("shell search should succeed");

    assert_eq!(results.len(), 1);
    assert_eq!(results[0].title, "Run: echo hello");
}

#[test]
fn app_result_contains_keywords_for_fuzzy_search() {
    let mut entry = AppEntry::new("Plain Text", "editor");
    entry.keywords = vec!["notepad".to_string()];
    let app = IndexedApp::configured(entry);

    let result = app_result(&app);

    assert_eq!(result.provider.as_str(), "apps");
    assert_eq!(result.title, "Plain Text");
    assert_eq!(result.keywords, ["notepad"]);
}

#[test]
fn app_result_uses_source_specific_subtitle() {
    let configured = app_result(&IndexedApp::configured(AppEntry::new("Configured Editor", "editor.exe")));
    let discovered = app_result(&IndexedApp::discovered(
        AppEntry::new("Discovered Editor", "editor.lnk"),
        "Tools/Discovered Editor.lnk",
    ));

    assert_eq!(configured.subtitle.as_deref(), Some("Configured app"));
    assert_eq!(discovered.subtitle.as_deref(), Some("Windows Start Menu"));
}

#[test]
fn configured_app_keyword_alias_is_searchable() {
    let mut entry = AppEntry::new("Visual Studio Code", "code.exe");
    entry.keywords = vec!["code".to_string(), "editor".to_string()];
    let provider = AppLauncherProvider::from_config_and_index_result(
        &Config { apps: vec![entry], ..Default::default() },
        Ok(AppIndex { entries: Vec::new(), roots_checked: 1 }),
        PLATFORM,
    );
    let mut registry = ProviderRegistry::new();
    registry.register(provider).expect("app provider should register");

    let results = registry.search("code", 10).expect("alias search should succeed");

    assert_eq!(results[0].result.title, "Visual Studio Code");
    assert_eq!(results[0].result.subtitle.as_deref(), Some("Configured app"));
}

#[test]
fn noisy_start_menu_entries_are_demoted_but_remain_searchable() {
    let discovered = |name: &str, file: &str| IndexedApp::discovered(AppEntry::new(name, file), file);
    let indexed = AppIndex {
        entries: vec![
            discovered("Node.js", "Node.js.lnk"),
            discovered("Uninstall Node.js", "Uninstall Node.js.lnk"),
            discovered("Node.js Documentation", "Node.js Documentation.lnk"),
            discovered("Documentation for Desktop Apps", "Documentation for Desktop Apps.lnk"),
            discovered("Install Additional Tools for Node.js", "Install Additional Tools for Node.js.lnk"),
        ],
        roots_checked: 1,
    };
    let provider = AppLauncherProvider::from_config_and_index_result(&Config::default(), Ok(indexed), PLATFORM);
    let mut registry = ProviderRegistry::new();
    registry.register(provider).expect("app provider should register");

    let node_results = registry.search("node", 10).expect("node search should succeed");
    let uninstall_results = registry.search("uninstall node", 10).expect("uninstall search should succeed");

    assert_eq!(node_results[0].result.title, "Node.js");
    assert!(node_results.iter().any(|ranked| ranked.result.title == "Uninstall Node.js"));
    let node_position = node_results
        .iter()
        .position(|ranked| ranked.result.title == "Node.js")
        .expect("normal app should remain visible");
    let docs_position = node_results
        .iter()
        .position(|ranked| ranked.result.title == "Documentation for Desktop Apps")
        .expect("noisy docs shortcut should remain searchable");

    assert!(node_position < docs_position);
    assert_eq!(uninstall_results[0].result.title, "Uninstall Node.js");
}

#[test]
fn stale_indexed_app_searches_without_panicking() {
    let (provider, missing_target) = stale_indexed_app();

    let results = provider.search(&SearchContext::new("stale", 10)).expect("stale indexed app search should not fail");

    assert_eq!(results.len(), 1);
    assert_eq!(results[0].title, "Stale App");
    assert!(matches!(
        &results[0].action,
        Action::LaunchApp { command, args } if command == &missing_target && args.is_empty()
    ));

    let report = provider.index_report();
    assert_eq!(report.entries.len(), 1);
    assert_eq!(report.entries[0].source, AppIndexEntrySource::WindowsStartMenu);
    assert_eq!(report.entries[0].source_detail.as_deref(), Some(missing_target.as_str()));
}

#[test]
fn stale_indexed_app_execution_fails_clearly() {
    let (provider, missing_target) = stale_indexed_app();
    let result = provider
        .search(&SearchContext::new("stale", 10))
        .expect("stale indexed app search should not fail")
        .into_iter()
        .next()
        .expect("stale app result should be present");

    let step = provider.execute(&result.action).expect("a launch of an explicit path needs outside work");
    let ExecutionStep::Perform(effect) = step else {
        panic!("a launch should wait for the target check and the spawn");
    };
    assert!(matches!(&effect, ActionEffect::Launch { check_target: true, .. }));
    let error = complete_effect(&effect, &EffectReport::Spawn(SpawnReport::TargetMissing))
        .expect_err("stale app launch should fail before spawning");
    let message = error.message();

    assert!(message.contains("app target does not exist"));
    assert!(message.contains(&missing_target));
}

#[test]
fn stale_indexed_app_does_not_displace_calculator_results() {
    let (provider, _missing_target) = stale_indexed_app();
    let mut registry = ProviderRegistry::new();
    registry
        .register(freepalette::providers::BuiltinProvider::Apps(provider))
        .expect("stale app provider should register");
    registry
        .register(freepalette::providers::BuiltinProvider::Calculator(CalculatorProvider))
        .expect("calculator provider should register");

    let results = registry.search("calc 2+2", 10).expect("search with stale app should succeed");

    assert_eq!(results[0].result.provider, ProviderId::new("calculator"));
    assert_eq!(results[0].result.title, "2+2 = 4");
}

#[test]
fn indexed_app_with_display_name_but_empty_command_fails_before_launch() {
    let indexed = AppIndex {
        entries: vec![IndexedApp::discovered(AppEntry::new("Empty Target", ""), "Empty Target.lnk")],
        roots_checked: 1,
    };
    let provider = AppLauncherProvider::from_config_and_index_result(&Config::default(), Ok(indexed), PLATFORM);

    let result = provider
        .search(&SearchContext::new("empty target", 10))
        .expect("search with incomplete indexed app should succeed")
        .into_iter()
        .next()
        .expect("incomplete indexed app should remain visible");

    assert_eq!(result.title, "Empty Target");
    assert!(matches!(
        result.action,
        Action::LaunchApp { ref command, ref args } if command.is_empty() && args.is_empty()
    ));

    let error = provider.execute(&result.action).expect_err("empty app command should fail before spawning");

    assert!(error.message().contains("app launch command is empty"));
}

#[test]
fn parsed_shortcut_target_with_spaces_preserves_command_and_args() {
    let executable = r"C:\Program Files\Example App\app.exe".to_string();
    let args = vec!["--profile".to_string(), "German News".to_string(), "--safe-mode".to_string()];
    let indexed = IndexedApp::discovered(
        AppEntry { name: "Example App".to_string(), command: executable.clone(), args: args.clone(), keywords: Vec::new() },
        r"C:\Start Menu\Example App.lnk",
    );

    let result = app_result(&indexed);
    let report_entry = app_index_entry(&indexed);

    assert!(matches!(
        &result.action,
        Action::LaunchApp { command, args: action_args } if command == &executable && action_args == &args
    ));
    assert!(!matches!(&result.action, Action::RunShell { .. }));
    assert_eq!(report_entry.command, executable);
    assert_eq!(report_entry.args, args);
    assert_eq!(report_entry.source_detail.as_deref(), Some(r"C:\Start Menu\Example App.lnk"));
}

#[test]
fn flattened_quoted_shortcut_target_is_rejected_before_launch() {
    let flattened_command = r#""C:\Program Files\Example App\app.exe" --profile "German News""#;

    let error = launch_command(flattened_command, &Vec::new(), PLATFORM).expect_err("flattened shortcut command should be rejected");

    assert!(error.message().contains("without embedded quotes or arguments"));
}

#[test]
fn discovered_shortcut_opens_with_default_app() {
    let path = "App.lnk";
    let app = indexed_app_from_start_menu_file(path).expect("lnk should be indexed");
    let result = app_result(&app);

    assert_eq!(app.entry.command, path.to_string());
    assert!(app.entry.args.is_empty());
    assert_eq!(app.entry.name, "App");
    assert!(matches!(result.action, Action::OpenPath { ref path } if path == "App.lnk"));
}

#[test]
fn configured_shortcut_keeps_configured_launch_action() {
    let app = IndexedApp::configured(AppEntry::new("Configured Shortcut", "App.lnk"));
    let result = app_result(&app);

    assert!(matches!(
        result.action,
        Action::LaunchApp { ref command, ref args } if command == "App.lnk" && args.is_empty()
    ));
}

#[test]
fn unsupported_start_menu_files_are_ignored() {
    assert!(indexed_app_from_start_menu_file("Readme.txt").is_none());
    assert!(indexed_app_from_start_menu_file("NoExtension").is_none());
}

#[test]
fn config_entries_win_over_discovered_duplicates() {
    let config = Config { apps: vec![AppEntry::new("Notepad", "custom-notepad.exe")], ..Default::default() };
    let indexed = AppIndex {
        entries: vec![IndexedApp::discovered(AppEntry::new("Notepad", "notepad.exe"), "Notepad.lnk")],
        roots_checked: 1,
    };

    let provider = AppLauncherProvider::from_config_and_index_result(&config, Ok(indexed), PLATFORM);
    let result = provider
        .search(&SearchContext::new("notepad", 10))
        .expect("app search should succeed")
        .into_iter()
        .find(|result| result.title == "Notepad")
        .expect("configured Notepad should be present");

    assert!(matches!(result.action, Action::LaunchApp { ref command, .. } if command == "custom-notepad.exe"));
}

#[test]
fn fallback_sample_is_used_when_indexing_is_unavailable_and_no_config_exists() {
    let provider = AppLauncherProvider::from_config_and_index_result(&Config::default(), Err(AppIndexError::UnsupportedPlatform), PLATFORM);

    let results = provider.search(&SearchContext::new("notepad", 10)).expect("fallback search should succeed");

    assert_eq!(
        provider.index_status_summary(),
        "app indexing unavailable: Windows Start Menu indexing is only available on Windows; using fallback if no configured apps exist"
    );
    assert!(results.iter().any(|result| {
        result.title == "Notepad"
            && result.subtitle.as_deref().is_some_and(|subtitle| subtitle.contains("Fallback sample"))
    }));
}

#[test]
fn fallback_sample_report_stays_separate_from_indexed_apps() {
    let provider = AppLauncherProvider::from_config_and_index_result(&Config::default(), Err(AppIndexError::UnsupportedPlatform), PLATFORM);

    let report = provider.index_report();

    assert_eq!(report.entries.len(), 1);
    assert_eq!(report.entries[0].name, "Notepad");
    assert_eq!(report.entries[0].source, AppIndexEntrySource::Fallback);
    assert!(report.entries[0]
        .source_detail
        .as_deref()
        .is_some_and(|detail| detail.contains("Windows Start Menu indexing is only available on Windows")));
}

#[test]
fn empty_index_does_not_add_fallback_when_config_apps_exist() {
    let config = Config { apps: vec![AppEntry::new("Configured App", "configured.exe")], ..Default::default() };
    let provider = AppLauncherProvider::from_config_and_index_result(&config, Ok(AppIndex { entries: Vec::new(), roots_checked: 2 }), PLATFORM);

    let results = provider.search(&SearchContext::new("", 10)).expect("app search should succeed");

    assert_eq!(results.len(), 1);
    assert_eq!(results[0].title, "Configured App");
}

#[test]
fn known_platform_apps_are_added_without_using_fallback() {
    let mut notepad = AppEntry::new("Notepad", "notepad.exe");
    notepad.keywords = vec!["built-in".to_string()];
    let provider = AppLauncherProvider::from_config_sources(
        &Config::default(),
        Ok(AppIndex { entries: Vec::new(), roots_checked: 1 }),
        vec![IndexedApp::known(notepad, "Windows built-in app")],
        PLATFORM,
    );

    let results = provider.search(&SearchContext::new("notepad", 10)).expect("known app search should succeed");

    assert!(results.iter().any(|result| {
        result.title == "Notepad"
            && result.subtitle.as_deref().is_some_and(|subtitle| subtitle.contains("Windows built-in app"))
    }));
}

#[test]
fn app_index_report_includes_entries_and_status() {
    let config = Config { apps: vec![AppEntry::new("Configured App", "configured.exe")], ..Default::default() };
    let provider = AppLauncherProvider::from_config_and_index_result(
        &config,
        Ok(AppIndex {
            entries: vec![IndexedApp::discovered(AppEntry::new("Discovered App", "Discovered App.lnk"), "Discovered App.lnk")],
            roots_checked: 2,
        }),
        PLATFORM,
    );

    let report = provider.index_report();

    assert_eq!(report.entries.len(), 2);
    assert!(matches!(report.status, AppIndexReportStatus::Indexed { roots_checked: 2, discovered: 1 }));
    assert_eq!(report.entries[0].source, AppIndexEntrySource::Config);
    assert_eq!(report.entries[1].source, AppIndexEntrySource::WindowsStartMenu);
}

struct StaticProvider;

impl Provider for StaticProvider {
    fn id(&self) -> ProviderId {
        ProviderId::new("static")
    }

    fn search(&self, _context: &SearchContext) -> Result<Vec<SearchResult>, PluginError> {
        Ok(vec![SearchResult::new(self.id(), "notepad", "Notepad", ResultKind::App, noop("noop"))])
    }

    fn execute(&self, action: &Action) -> Result<ExecutionStep, PluginError> {
        execute_noop_only(action)
    }
}

#[test]
fn registers_and_searches_provider() {
    let mut registry = ProviderRegistry::new();
    registry.register(StaticProvider).expect("test provider should register");

    assert!(registry.contains("static"));

    let results = registry.search("note", 5).expect("search should succeed");
    assert_eq!(results.len(), 1);
    assert_eq!(results[0].result.title, "Notepad");
}

#[test]
fn rejects_duplicate_provider_ids() {
    let mut registry = ProviderRegistry::new();
    registry.register(StaticProvider).expect("first provider should register");

    let error = registry.register(StaticProvider).expect_err("duplicate provider should be rejected");

    assert!(matches!(error, CoreError::ProviderAlreadyRegistered(_)));
}

struct ShellPreviewProvider {
    executions: Arc<AtomicUsize>,
}

impl Provider for ShellPreviewProvider {
    fn id(&self) -> ProviderId {
        ProviderId::new("shell-preview")
    }

    fn search(&self, context: &SearchContext) -> Result<Vec<SearchResult>, PluginError> {
        let command = context.query.raw().trim_start().strip_prefix('>').map(str::trim).unwrap_or_default();
        let title = format!("Run: {command}");
        Ok(vec![SearchResult::new(
            self.id(),
            "shell-preview",
            title.as_str(),
            ResultKind::Shell,
            Action::RunShell { command: command.to_string() },
        )
        .with_keywords(vec![">".to_string(), "shell".to_string(), "command".to_string()])
        .with_score_hint(900)])
    }

    fn execute(&self, _action: &Action) -> Result<ExecutionStep, PluginError> {
        self.executions.fetch_add(1, Ordering::SeqCst);
        Ok(ExecutionStep::Done(freepalette::plugin_api::ActionOutcome::new("fake shell executed".to_string())))
    }
}

#[test]
fn search_does_not_execute_shell_actions() {
    let executions = Arc::new(AtomicUsize::new(0));
    let mut registry = ProviderRegistry::new();
    registry
        .register(ShellPreviewProvider { executions: Arc::clone(&executions) })
        .expect("fake shell provider should register");

    let results = registry.search("> echo hello", 10).expect("shell-looking search should succeed");
    let result = results.first().expect("shell-looking search should return a preview result");

    assert!(matches!(result.result.action, Action::RunShell { ref command } if command == "echo hello"));
    assert_eq!(executions.load(Ordering::SeqCst), 0);
}

#[test]
fn duplicate_discovered_apps_keep_first_root() {
    let user = IndexedApp::discovered(AppEntry::new("Same App", "/user/Same App.lnk"), "/user/Same App.lnk");
    let system = IndexedApp::discovered(AppEntry::new("same app", "/system/same app.lnk"), "/system/same app.lnk");

    let app_index = index_from_discovered(vec![user, system], 2);

    assert_eq!(app_index.entries.len(), 1);
    assert_eq!(app_index.roots_checked, 2);
    assert!(matches!(
        &app_index.entries[0].source,
        AppSource::WindowsStartMenu { path } if path.starts_with("/user")
    ));
}

#[test]
fn discovered_apps_are_ordered_by_lowercase_name() {
    let found = vec![
        IndexedApp::discovered(AppEntry::new("zed", "/a/zed.lnk"), "/a/zed.lnk"),
        IndexedApp::discovered(AppEntry::new("Alpha", "/a/Alpha.lnk"), "/a/Alpha.lnk"),
        IndexedApp::discovered(AppEntry::new("beta", "/a/beta.lnk"), "/a/beta.lnk"),
        IndexedApp::discovered(AppEntry::new("ALPHA", "/b/ALPHA.lnk"), "/b/ALPHA.lnk"),
    ];

    let app_index = index_from_discovered(found, 1);
    let names: Vec<&str> = app_index.entries.iter().map(|app| app.entry.name.as_str()).collect();

    assert_eq!(names, vec!["Alpha", "beta", "zed"]);
}

#[test]
fn windows_knows_notepad_and_other_platforms_know_nothing() {
    let windows = platform_known_apps("windows");
    assert_eq!(windows.len(), 1);
    assert_eq!(windows[0].entry.name, "Notepad");
    assert_eq!(windows[0].entry.command, "notepad.exe");
    assert!(matches!(&windows[0].source, AppSource::Known { label } if label == "Windows built-in app"));

    assert!(platform_known_apps("linux").is_empty());
}

#[test]
fn calculator_values_are_bounded_by_the_supported_range() {
    assert_eq!(format_number(evaluate_expression("1000000000000000000").expect("at the bound")), "1000000000000000000");
    assert_eq!(
        evaluate_expression("1000000000000000001").expect_err("beyond the bound"),
        CalculatorError::TooLarge
    );
    let error = evaluate_expression("10000000000*10000000000").expect_err("product beyond the bound");
    assert_eq!(error, CalculatorError::TooLarge);
    assert_eq!(error.message(), "number is too large");
    assert_eq!(
        evaluate_expression("0.0000000000000000001").expect_err("more than 18 fractional digits"),
        CalculatorError::TooLarge
    );
    assert_eq!(format_number(evaluate_expression("0.000000000000000001*1000000000000000000").expect("within the bound")), "1");
}

#[test]
fn explicit_paths_follow_the_platform_rules() {
    assert!(command_is_explicit_path("C:\\Program Files\\App\\app.exe", "windows"));
    assert!(command_is_explicit_path("d:/tools/app.exe", "windows"));
    assert!(command_is_explicit_path("\\\\server\\share\\app.exe", "windows"));
    assert!(!command_is_explicit_path("C:app.exe", "windows"));
    assert!(!command_is_explicit_path("\\temp\\app.exe", "windows"));
    assert!(!command_is_explicit_path("/usr/bin/app", "windows"));
    assert!(!command_is_explicit_path("notepad.exe", "windows"));
    assert!(command_is_explicit_path("/usr/bin/app", "linux"));
    assert!(!command_is_explicit_path("C:\\Program Files\\App\\app.exe", "linux"));
    assert!(!command_is_explicit_path("app", "linux"));
}

#[test]
fn windows_drive_path_launch_checks_its_target() {
    let provider = AppLauncherProvider::from_config_and_index_result(&Config::default(), Ok(AppIndex { entries: Vec::new(), roots_checked: 1 }), "windows");
    let step = provider
        .execute(&Action::LaunchApp { command: "C:\\Missing\\App.exe".to_string(), args: Vec::new() })
        .expect("a complete command is handed to the launcher");
    assert!(matches!(step, ExecutionStep::Perform(ActionEffect::Launch { check_target: true, .. })));

    let linux = AppLauncherProvider::from_config_and_index_result(&Config::default(), Ok(AppIndex { entries: Vec::new(), roots_checked: 1 }), PLATFORM);
    let step = linux
        .execute(&Action::LaunchApp { command: "C:\\Missing\\App.exe".to_string(), args: Vec::new() })
        .expect("a complete command is handed to the launcher");
    assert!(matches!(step, ExecutionStep::Perform(ActionEffect::Launch { check_target: false, .. })));
}

#[test]
fn registry_lists_ids_in_registration_order_and_keeps_the_first_of_a_repeated_id() {
    let mut registry = ProviderRegistry::new();
    registry.register(BuiltinProvider::Shell(ShellCommandProvider)).expect("shell registers");
    registry.register(BuiltinProvider::Calculator(CalculatorProvider)).expect("calculator registers");
    assert!(matches!(
        registry.register(BuiltinProvider::Shell(ShellCommandProvider)),
        Err(CoreError::ProviderAlreadyRegistered(id)) if id == "shell"
    ));
    registry.register(BuiltinProvider::Clipboard(ClipboardHistoryProvider::empty())).expect("clipboard registers");
    let ids: Vec<String> = registry.provider_ids().iter().map(|id| id.as_str().to_string()).collect();
    assert_eq!(ids, vec!["shell", "calculator", "clipboard"]);
    assert!(registry.contains("calculator"));
    assert!(!registry.contains("apps"));
}

#[test]
fn provider_from_windows_sources_takes_the_scan_and_known_apps() {
    let sources = AppSources {
        index: Ok(AppIndex { entries: Vec::new(), roots_checked: 2 }),
        known: platform_known_apps("windows"),
        platform: "windows".to_string(),
    };
    let provider = AppLauncherProvider::from_config(&Config::default(), sources);
    assert_eq!(provider.platform, "windows");
    assert!(provider.apps.iter().any(|app| app.entry.name == "Notepad"));
    let report = provider.index_report();
    assert!(matches!(report.status, AppIndexReportStatus::Empty { roots_checked: 2 }));
}
