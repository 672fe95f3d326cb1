//! Shell command provider: `> command` queries become shell actions that
//! only run after explicit approval.

use vstd::prelude::*;

use crate::plugin_api::{
    EffectView, PluginErrorView, StepView,
    new_result_view, results_view, Action, ActionEffect, ActionOutcome, ActionView, ExecutionStep,
    PluginError, Provider, ProviderId, ResultKind, SearchContext, SearchResult, SearchResultView,
};
use crate::text::{chars_of, concat2, lit, string_from_chars, sub_chars, trim_chars, trim_seq, trim_start_chars, trim_start_seq};

verus! {

pub const SHELL_SCORE_HINT: i64 = 900;

pub struct ShellCommandProvider;

/// The command of a `> command` query: after leading whitespace a `>`, then a
/// command that is not blank once trimmed.
pub open spec fn shell_command_spec(query: Seq<char>) -> Option<Seq<char>> {
    let t = trim_start_seq(query);
    if t.len() > 0 && t[0] == '>' {
        let c = trim_seq(t.drop_first());
        if c.len() > 0 {
            Some(c)
        } else {
            None
        }
    } else {
        None
    }
}

pub fn shell_command_from_query(query: &str) -> (r: Option<String>)
    ensures
        match r {
            Some(c) => shell_command_spec(query@) == Some(c@),
            None => shell_command_spec(query@) is None,
        },
{
    let v = chars_of(query);
    let t = trim_start_chars(&v);
    if t.len() > 0 && t[0] == '>' {
        let rest = sub_chars(&t, 1, t.len());
        proof {
            assert(rest@ =~= t@.drop_first());
        }
        let c = trim_chars(&rest);
        if c.len() > 0 {
            Some(string_from_chars(&c))
        } else {
            None
        }
    } else {
        None
    }
}

pub open spec fn shell_keywords() -> Seq<Seq<char>> {
    seq![">"@, "shell"@, "command"@]
}

/// The one result a shell query produces.
pub open spec fn shell_result_view(command: Seq<char>) -> SearchResultView {
    SearchResultView {
        subtitle: Some("Shell command"@),
        keywords: shell_keywords(),
        score_hint: SHELL_SCORE_HINT,
        ..new_result_view(
            "shell"@,
            "shell:"@ + command,
            "Run: "@ + command,
            ResultKind::Shell,
            ActionView::RunShell { command },
        )
    }
}

pub open spec fn shell_search_spec(query: Seq<char>) -> Seq<SearchResultView> {
    match shell_command_spec(query) {
        Some(c) => seq![shell_result_view(c)],
        None => Seq::empty(),
    }
}

/// A list of strings built from literals.
pub fn strings3(a: &str, b: &str, c: &str) -> (r: Vec<String>)
    ensures
        r.deep_view() == seq![a@, b@, c@],
{
    let mut r: Vec<String> = Vec::new();
    r.push(lit(a));
    r.push(lit(b));
    r.push(lit(c));
    proof {
        assert(r.deep_view() =~= seq![a@, b@, c@]);
    }
    r
}

pub fn strings2(a: &str, b: &str) -> (r: Vec<String>)
    ensures
        r.deep_view() == seq![a@, b@],
{
    let mut r: Vec<String> = Vec::new();
    r.push(lit(a));
    r.push(lit(b));
    proof {
        assert(r.deep_view() =~= seq![a@, b@]);
    }
    r
}

impl Provider for ShellCommandProvider {
    open spec fn id_spec(&self) -> Seq<char> {
        "shell"@
    }

    open spec fn search_spec(&self, query: Seq<char>, limit: usize) -> Result<Seq<SearchResultView>, PluginErrorView> {
        Ok(shell_search_spec(query))
    }

    open spec fn execute_spec(&self, action: ActionView) -> Result<StepView, PluginErrorView> {
        match action {
            ActionView::RunShell { command } => Ok(StepView::Perform(EffectView::Shell { command })),
            _ => Err(PluginErrorView::UnsupportedAction),
        }
    }

    fn id(&self) -> (r: ProviderId)
        ensures
            r@ == "shell"@,
    {
        ProviderId::new("shell")
    }

    fn search(&self, context: &SearchContext) -> (r: Result<Vec<SearchResult>, PluginError>)
        ensures
            r matches Ok(v) && results_view(v@) == shell_search_spec(context.query@),
    {
        let mut out: Vec<SearchResult> = Vec::new();
        match shell_command_from_query(context.query.raw()) {
            None => {
                proof {
                    assert(results_view(out@) =~= Seq::<SearchResultView>::empty());
                }
            },
            Some(command) => {
                let id = concat2("shell:", command.as_str());
                let title = concat2("Run: ", command.as_str());
                let result = SearchResult::from_parts(
                    self.id(),
                    id,
                    title,
                    ResultKind::Shell,
                    Action::RunShell { command },
                ).with_subtitle("Shell command").with_keywords(strings3(">", "shell", "command"))
                    .with_score_hint(SHELL_SCORE_HINT);
                out.push(result);
                proof {
                    assert(results_view(out@) =~= seq![out@[0]@]);
                }
            },
        }
        Ok(out)
    }

    fn execute(&self, action: &Action) -> (r: Result<ExecutionStep, PluginError>)
        ensures
            match action {
                Action::RunShell { command } => r matches Ok(ExecutionStep::Perform(ActionEffect::Shell { command: c })) && c@ == command@,
                _ => r == Err::<ExecutionStep, PluginError>(PluginError::UnsupportedAction),
            },
    {
        match action {
            Action::RunShell { command } => Ok(ExecutionStep::Perform(ActionEffect::Shell { command: command.clone() })),
            _ => Err(PluginError::UnsupportedAction),
        }
    }
}

} // verus!
