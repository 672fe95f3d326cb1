use freepalette::plugin_api::{Action, Provider, ProviderId, ResultKind, SearchContext, SearchResult};
use freepalette::providers::calculator::CalculatorProvider;
use freepalette::providers::shell::ShellCommandProvider;
use freepalette::ranking::rank_results;

fn result(title: &str, kind: ResultKind, score_hint: i64) -> SearchResult {
    result_from_provider("test", &title.to_ascii_lowercase(), title, kind, score_hint)
}

fn result_from_provider(provider: &str, id: &str, title: &str, kind: ResultKind, score_hint: i64) -> SearchResult {
    SearchResult::new(ProviderId::new(provider), id, title, kind, Action::Noop { message: "noop".to_string() })
        .with_score_hint(score_hint)
}

fn ugly_launcher_results() -> Vec<SearchResult> {
    [
        "Visual Studio Code",
        "Visual Studio Installer",
        "Visual Studio Code - Insiders",
        "Node.js",
        "Node.js command prompt",
        "Windows Defender Firewall with Advanced Security",
        "Uninstall Node.js",
        "README",
    ]
    .into_iter()
    .map(|title| result_from_provider("apps", title, title, ResultKind::App, 0))
    .collect()
}

#[test]
fn exact_title_match_beats_weaker_match() {
    let ranked = rank_results("notepad", vec![result("Notes archive", ResultKind::App, 0), result("Notepad", ResultKind::App, 0)]);

    assert_eq!(ranked[0].result.title, "Notepad");
}

#[test]
fn exact_app_name_match_orders_before_partial_app_name_match() {
    let ranked = rank_results(
        "notepad",
        vec![
            result_from_provider("apps", "notepad-helper", "Notepad Helper", ResultKind::App, 0),
            result_from_provider("apps", "notepad", "Notepad", ResultKind::App, 0),
        ],
    );

    let titles = ranked.iter().map(|ranked| ranked.result.title.as_str()).collect::<Vec<_>>();
    assert_eq!(titles, vec!["Notepad", "Notepad Helper"]);
}

#[test]
fn weak_plain_fuzzy_matches_are_removed_for_app_queries() {
    let ranked = rank_results(
        "node",
        vec![
            result_from_provider("apps", "node", "Node.js", ResultKind::App, 0),
            result_from_provider(
                "apps",
                "windows-defender-firewall",
                "Windows Defender Firewall with Advanced Security",
                ResultKind::App,
                0,
            ),
        ],
    );

    assert_eq!(ranked.len(), 1);
    assert_eq!(ranked[0].result.title, "Node.js");
}

#[test]
fn realistic_launcher_names_rank_expected_top_results() {
    let cases = [
        ("vsc", &["Visual Studio Code", "Visual Studio Code - Insiders"][..]),
        ("code", &["Visual Studio Code"][..]),
        ("node", &["Node.js"][..]),
        ("node prompt", &["Node.js command prompt"][..]),
        ("defender", &["Windows Defender Firewall with Advanced Security"][..]),
        ("uninstall node", &["Uninstall Node.js"][..]),
    ];

    for (query, expected_top_titles) in cases {
        let ranked = rank_results(query, ugly_launcher_results());
        let top_title = ranked.first().map(|ranked| ranked.result.title.as_str()).unwrap_or("<no result>");

        assert!(expected_top_titles.contains(&top_title), "query {query:?} ranked {top_title:?} first");
    }
}

#[test]
fn plain_node_query_does_not_prefer_uninstaller() {
    let ranked = rank_results("node", ugly_launcher_results());
    let node_position = ranked
        .iter()
        .position(|ranked| ranked.result.title == "Node.js")
        .expect("Node.js should be ranked for plain node query");
    let uninstall_position = ranked
        .iter()
        .position(|ranked| ranked.result.title == "Uninstall Node.js")
        .expect("uninstaller should remain searchable");

    assert!(node_position < uninstall_position);
}

#[test]
fn score_hint_keeps_dynamic_provider_result() {
    let ranked = rank_results("calc 2+2", vec![result("2 + 2 = 4", ResultKind::Calculator, 900)]);

    assert_eq!(ranked.len(), 1);
    assert_eq!(ranked[0].result.kind, ResultKind::Calculator);
}

#[test]
fn calculator_query_keeps_calculator_result_before_unrelated_results() {
    let calculator = CalculatorProvider;
    let mut results = vec![
        result_from_provider("apps", "notepad", "Notepad", ResultKind::App, 0),
        result_from_provider("plugins", "calendar", "Calendar", ResultKind::Plugin, 0),
    ];
    results.extend(calculator.search(&SearchContext::new("calc 2+2", 10)).expect("calculator search should succeed"));

    let ranked = rank_results("calc 2+2", results);

    assert_eq!(ranked[0].result.provider, ProviderId::new("calculator"));
    assert_eq!(ranked[0].result.kind, ResultKind::Calculator);
    assert_eq!(ranked[0].result.title, "2+2 = 4");
}

#[test]
fn shell_query_keeps_shell_result_visible_without_executing_action() {
    let command = "printf ranking-shell-ran > '/nonexistent/freepalette-ranking-marker'".to_string();
    let query = format!("> {command}");
    let shell = ShellCommandProvider;
    let mut results = vec![result_from_provider("apps", "echo-helper", "Echo Helper", ResultKind::App, 0)];
    results.extend(shell.search(&SearchContext::new(query.as_str(), 10)).expect("shell search should succeed"));

    let ranked = rank_results(&query, results);

    let shell_result = ranked
        .iter()
        .find(|ranked| ranked.result.kind == ResultKind::Shell)
        .expect("shell result should remain visible");
    assert!(matches!(&shell_result.result.action, Action::RunShell { command: actual } if actual == &command));
}

#[test]
fn equal_scores_sort_by_title_then_id() {
    let mut alpha_second = result("Alpha", ResultKind::System, 0);
    alpha_second.id = "b".to_string();
    let mut alpha_first = result("Alpha", ResultKind::System, 0);
    alpha_first.id = "a".to_string();
    let beta = result("Beta", ResultKind::System, 0);

    let ranked = rank_results("", vec![beta.clone(), alpha_second.clone(), alpha_first.clone()]);

    assert_eq!(ranked[0].result.title, "Alpha");
    assert_eq!(ranked[0].result.id, "a");
    assert_eq!(ranked[1].result.id, "b");
    assert_eq!(ranked[2].result.title, "Beta");

    let reversed_input = rank_results("", vec![alpha_first, alpha_second, beta]);
    let ordered_ids = reversed_input.iter().map(|ranked| ranked.result.id.as_str()).collect::<Vec<_>>();

    assert_eq!(ordered_ids, vec!["a", "b", "beta"]);
}

#[test]
fn ranked_results_come_out_sorted_by_score() {
    let ranked = rank_results("", ugly_launcher_results());

    assert_eq!(ranked.len(), 8);
    for pair in ranked.windows(2) {
        assert!(pair[0].score >= pair[1].score);
    }
}

#[test]
fn blank_query_keeps_every_result() {
    let input = vec![
        result("Alpha", ResultKind::App, 0),
        result("Beta", ResultKind::App, -220),
        result("Gamma", ResultKind::Plugin, 5),
    ];
    let ranked = rank_results("   ", input);
    assert_eq!(ranked.len(), 3);
    for title in ["Alpha", "Beta", "Gamma"] {
        assert_eq!(ranked.iter().filter(|r| r.result.title == title).count(), 1);
    }
}

#[test]
fn boosted_results_are_kept_while_unmatched_plain_and_demoted_ones_are_dropped() {
    let input = vec![
        result("Zebra", ResultKind::App, 0),
        result("Readme", ResultKind::App, -5),
        result("Xylophone", ResultKind::Plugin, 40),
    ];
    let ranked = rank_results("zzzz", input);
    let titles: Vec<&str> = ranked.iter().map(|r| r.result.title.as_str()).collect();
    assert_eq!(titles, vec!["Xylophone"]);
}

#[test]
fn demoted_result_with_a_weak_match_stays_findable() {
    let input = vec![result("Documentation for Desktop Apps", ResultKind::App, -220)];
    let ranked = rank_results("node", input);
    assert_eq!(ranked.len(), 1);
    assert_eq!(ranked[0].result.title, "Documentation for Desktop Apps");
}
