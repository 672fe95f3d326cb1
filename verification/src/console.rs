//! What the command-line tool prints: result lists, app index reports,
//! daemon status and execution lines, and what it makes of a reply from a
//! running daemon.

use vstd::prelude::*;

use crate::cli::{
    command_with_args_spec, describe_action, describe_action_spec, describe_app_entry,
    describe_app_source, format_subtitle, source_name,
};
use crate::daemon::{
    result_blocked_spec, daemon_execute_spec, opt_report_view, opt_seq_view, record_recent_spec,
    same_but_recent, ActionExecutionPolicy, DaemonError, DaemonState,
};
use crate::hotkey::{hotkey_summary_spec, HotkeyLoopStatus};
use crate::ipc::{IpcReply, IpcRequest, IpcRequestView, IpcResponse, IpcResponseView};
use crate::plugin_api::{
    effect_error_text, effect_result_spec, primary_action_spec, report_fits, ActionEffect,
    EffectReport, EffectView, ExecutionStep, SearchResult, StepView,
};
use crate::providers::app::{AppIndexEntryView, AppIndexReport, AppIndexReportView};
use crate::ranking::{ranked_view, RankedResult, RankedView};
use crate::registry::core_error_text;
use crate::text::{append_str, chars_of, concat2, i64_to_decimal, int_digits, lit, nat_digits, push_char, usize_to_decimal};

verus! {

pub open spec fn spaces(n: nat) -> Seq<char> {
    Seq::new(n, |_i: int| ' ')
}

/// `s` right-aligned in `width` columns.
pub open spec fn pad_left(s: Seq<char>, width: nat) -> Seq<char> {
    if s.len() >= width {
        s
    } else {
        spaces((width - s.len()) as nat) + s
    }
}

fn pad_left_text(s: &str, width: usize) -> (r: String)
    ensures
        r@ == pad_left(s@, width as nat),
{
    let n = chars_of(s).len();
    let mut out = String::new();
    if n < width {
        let mut k: usize = 0;
        proof {
            assert(out@ =~= spaces(0));
        }
        while k < width - n
            invariant
                n < width,
                k <= width - n,
                out@ == spaces(k as nat),
            decreases width - n - k,
        {
            push_char(&mut out, ' ');
            k += 1;
            proof {
                assert(out@ =~= spaces(k as nat));
            }
        }
    }
    append_str(&mut out, s);
    proof {
        if n >= width {
            assert(out@ =~= s@);
        }
    }
    out
}

/// The items joined by `sep`.
pub open spec fn join_spec(items: Seq<Seq<char>>, sep: Seq<char>) -> Seq<char>
    decreases items.len(),
{
    if items.len() == 0 {
        Seq::empty()
    } else if items.len() == 1 {
        items[0]
    } else {
        join_spec(items.drop_last(), sep) + sep + items.last()
    }
}

pub fn join_strings(items: &Vec<String>, sep: &str) -> (r: String)
    ensures
        r@ == join_spec(items.deep_view(), sep@),
{
    let ghost d = items.deep_view();
    let mut out = String::new();
    let mut i: usize = 0;
    proof {
        assert(d.take(0) =~= Seq::<Seq<char>>::empty());
    }
    while i < items.len()
        invariant
            i <= items@.len(),
            d == items.deep_view(),
            out@ == join_spec(d.take(i as int), sep@),
        decreases items@.len() - i,
    {
        proof {
            assert(d.take(i + 1).drop_last() =~= d.take(i as int));
            assert(d.take(i + 1).last() == items@[i as int]@);
        }
        if i > 0 {
            append_str(&mut out, sep);
        } else {
            proof {
                assert(out@ =~= Seq::<char>::empty());
            }
        }
        append_str(&mut out, items[i].as_str());
        proof {
            if i == 0 {
                assert(d.take(1)[0] == items@[0]@);
                assert(out@ =~= join_spec(d.take(1), sep@));
            } else {
                assert(out@ =~= join_spec(d.take(i + 1), sep@));
            }
        }
        i += 1;
    }
    proof {
        assert(d.take(items@.len() as int) =~= d);
    }
    out
}

/// The subtitle part of a result line.
pub open spec fn subtitle_suffix(subtitle: Option<Seq<char>>) -> Seq<char> {
    match subtitle {
        Some(s) => if s.len() == 0 { Seq::empty() } else { " - "@ + s },
        None => Seq::empty(),
    }
}

/// The first line of the result at `index` (counted from zero).
pub open spec fn result_line(index: nat, r: RankedView) -> Seq<char> {
    pad_left(nat_digits(index + 1), 2) + ". ["@ + r.result.provider + "] "@ + r.result.title
        + subtitle_suffix(r.result.subtitle) + " (score "@ + int_digits(r.score as int) + ")"@
}

/// The second line of a result: what its action does.
pub open spec fn action_line(r: RankedView) -> Seq<char> {
    "    action: "@ + describe_action_spec(r.result.action)
}

pub open spec fn ranked_lines(results: Seq<RankedView>) -> Seq<Seq<char>>
    decreases results.len(),
{
    if results.len() == 0 {
        Seq::empty()
    } else {
        ranked_lines(results.drop_last()) + seq![
            result_line((results.len() - 1) as nat, results.last()),
            action_line(results.last()),
        ]
    }
}

/// The lines listing ranked results: two per result, numbered from one, or
/// `No results`.
pub open spec fn result_lines_spec(results: Seq<RankedView>) -> Seq<Seq<char>> {
    if results.len() == 0 {
        seq!["No results"@]
    } else {
        ranked_lines(results)
    }
}

/// The lines listing ranked results.
pub fn result_lines(results: &Vec<RankedResult>) -> (lines: Vec<String>)
    ensures
        lines.deep_view() == result_lines_spec(ranked_view(results@)),
{
    let ghost rv = ranked_view(results@);
    let mut lines: Vec<String> = Vec::new();
    if results.len() == 0 {
        lines.push(lit("No results"));
        proof {
            assert(lines.deep_view() =~= seq!["No results"@]);
        }
        return lines;
    }
    let mut i: usize = 0;
    proof {
        assert(rv.take(0) =~= Seq::<RankedView>::empty());
        assert(lines.deep_view() =~= ranked_lines(rv.take(0)));
    }
    while i < results.len()
        invariant
            i <= results@.len(),
            rv == ranked_view(results@),
            lines.deep_view() == ranked_lines(rv.take(i as int)),
        decreases results@.len() - i,
    {
        let ranked = &results[i];
        let number = usize_to_decimal(i + 1);
        let mut line = pad_left_text(number.as_str(), 2);
        append_str(&mut line, ". [");
        append_str(&mut line, ranked.result.provider.as_str());
        append_str(&mut line, "] ");
        append_str(&mut line, ranked.result.title.as_str());
        let subtitle = match &ranked.result.subtitle {
            Some(s) => format_subtitle(s.as_str()),
            None => String::new(),
        };
        append_str(&mut line, subtitle.as_str());
        append_str(&mut line, " (score ");
        let score = i64_to_decimal(ranked.score);
        append_str(&mut line, score.as_str());
        append_str(&mut line, ")");
        let action = describe_action(&ranked.result.action);
        let second = concat2("    action: ", action.as_str());
        let ghost before = lines.deep_view();
        lines.push(line);
        lines.push(second);
        proof {
            assert(rv.take(i + 1).drop_last() =~= rv.take(i as int));
            assert(rv.take(i + 1).last() == ranked@);
            assert(rv.take(i + 1).len() == i + 1);
            assert(subtitle@ == subtitle_suffix(ranked@.result.subtitle));
            assert(line@ =~= result_line(i as nat, ranked@));
            assert(lines.deep_view() =~= before + seq![line@, second@]);
            assert(lines.deep_view() =~= ranked_lines(rv.take(i + 1)));
        }
        i += 1;
    }
    proof {
        assert(rv.take(results@.len() as int) =~= rv);
    }
    lines
}

/// Where an app entry came from, as shown.
pub open spec fn source_text(e: AppIndexEntryView) -> Seq<char> {
    match e.source_detail {
        Some(d) => source_name(e.source) + " ("@ + d + ")"@,
        None => source_name(e.source),
    }
}

pub open spec fn entry_lines(entries: Seq<AppIndexEntryView>) -> Seq<Seq<char>>
    decreases entries.len(),
{
    if entries.len() == 0 {
        Seq::empty()
    } else {
        let e = entries.last();
        entry_lines(entries.drop_last()) + seq![
            pad_left(nat_digits(entries.len()), 3) + ". "@ + e.name + " - "@ + command_with_args_spec(e.command, e.args),
            "     source: "@ + source_text(e),
        ]
    }
}

/// The lines of an app index report: status and count, then two lines per
/// app; with no report, the app provider is disabled.
pub open spec fn app_report_lines_spec(report: Option<AppIndexReportView>) -> Seq<Seq<char>> {
    match report {
        None => seq!["status: app provider is disabled"@, "apps: 0"@],
        Some(r) => seq!["status: "@ + r.summary, "apps: "@ + nat_digits(r.entries.len())] + entry_lines(r.entries),
    }
}

/// The lines of an app index report.
pub fn app_report_lines(report: Option<&AppIndexReport>) -> (lines: Vec<String>)
    ensures
        lines.deep_view() == app_report_lines_spec(match report { Some(r) => Some(r@), None => None }),
{
    let mut lines: Vec<String> = Vec::new();
    let report = match report {
        None => {
            lines.push(lit("status: app provider is disabled"));
            lines.push(lit("apps: 0"));
            proof {
                assert(lines.deep_view() =~= app_report_lines_spec(None));
            }
            return lines;
        },
        Some(r) => r,
    };
    let ghost ev = report@.entries;
    lines.push(concat2("status: ", report.summary.as_str()));
    let count = usize_to_decimal(report.entries.len());
    lines.push(concat2("apps: ", count.as_str()));
    let ghost head = lines.deep_view();
    proof {
        assert(ev.take(0) =~= Seq::<AppIndexEntryView>::empty());
        assert(lines.deep_view() =~= head + entry_lines(ev.take(0)));
    }
    let mut i: usize = 0;
    while i < report.entries.len()
        invariant
            i <= report.entries@.len(),
            ev == report@.entries,
            ev.len() == report.entries@.len(),
            head == seq!["status: "@ + report@.summary, "apps: "@ + nat_digits(ev.len())],
            lines.deep_view() == head + entry_lines(ev.take(i as int)),
        decreases report.entries@.len() - i,
    {
        let entry = &report.entries[i];
        let number = usize_to_decimal(i + 1);
        let mut line = pad_left_text(number.as_str(), 3);
        append_str(&mut line, ". ");
        append_str(&mut line, entry.name.as_str());
        append_str(&mut line, " - ");
        let shown = describe_app_entry(entry);
        append_str(&mut line, shown.as_str());
        let source = describe_app_source(entry);
        let second = concat2("     source: ", source.as_str());
        let ghost before = lines.deep_view();
        lines.push(line);
        lines.push(second);
        proof {
            assert(ev[i as int] == entry@);
            assert(ev.take(i + 1).drop_last() =~= ev.take(i as int));
            assert(ev.take(i + 1).last() == entry@);
            assert(ev.take(i + 1).len() == i + 1);
            assert(second@ =~= "     source: "@ + source_text(entry@));
            assert(lines.deep_view() =~= before + seq![line@, second@]);
            assert(lines.deep_view() =~= head + entry_lines(ev.take(i + 1)));
        }
        i += 1;
    }
    proof {
        assert(ev.take(ev.len() as int) =~= ev);
    }
    lines
}


/// The lines of a daemon status.
pub open spec fn status_lines_spec(
    providers: Seq<Seq<char>>,
    clipboard_items: usize,
    recent_actions: usize,
    hotkey: Seq<char>,
    local_state_path: Option<Seq<char>>,
) -> Seq<Seq<char>> {
    seq![
        "providers: "@ + join_spec(providers, ", "@),
        "clipboard items: "@ + nat_digits(clipboard_items as nat),
        "recent actions: "@ + nat_digits(recent_actions as nat),
        "hotkey: "@ + hotkey,
        match local_state_path {
            Some(p) => "local state: "@ + p,
            None => "local state: unavailable"@,
        },
    ]
}

/// The lines printed for a status response; any other response is an error.
pub fn daemon_status_lines(response: &IpcResponse) -> (r: Result<Vec<String>, String>)
    ensures
        match response@ {
            IpcResponseView::Status { providers, clipboard_history_len, recent_result_count, hotkey, local_state_path, .. } =>
                r matches Ok(v) && v.deep_view() == status_lines_spec(providers, clipboard_history_len, recent_result_count, hotkey, local_state_path),
            _ => r matches Err(e) && e@ == "daemon returned an unexpected status response"@,
        },
{
    match response {
        IpcResponse::Status { providers, clipboard_history_len, recent_result_count, hotkey, local_state_path, .. } => {
            let mut lines: Vec<String> = Vec::new();
            let joined = join_strings(providers, ", ");
            lines.push(concat2("providers: ", joined.as_str()));
            let items = usize_to_decimal(*clipboard_history_len);
            lines.push(concat2("clipboard items: ", items.as_str()));
            let recent = usize_to_decimal(*recent_result_count);
            lines.push(concat2("recent actions: ", recent.as_str()));
            lines.push(concat2("hotkey: ", hotkey.as_str()));
            match local_state_path {
                Some(p) => lines.push(concat2("local state: ", p.as_str())),
                None => lines.push(lit("local state: unavailable")),
            }
            proof {
                assert(lines.deep_view() =~= status_lines_spec(
                    providers.deep_view(),
                    *clipboard_history_len,
                    *recent_result_count,
                    hotkey@,
                    opt_seq_view(*local_state_path),
                ));
            }
            Ok(lines)
        },
        _ => Err(lit("daemon returned an unexpected status response")),
    }
}

/// The lines printed after running a result: which result, unless there was
/// none, then the outcome.
pub open spec fn executed_lines_spec(provider: Seq<char>, title: Seq<char>, message: Seq<char>) -> Seq<Seq<char>> {
    if provider.len() == 0 {
        seq![message]
    } else {
        seq!["Running: ["@ + provider + "] "@ + title, message]
    }
}

pub fn executed_lines(provider: &str, title: &str, message: &str) -> (lines: Vec<String>)
    ensures
        lines.deep_view() == executed_lines_spec(provider@, title@, message@),
{
    let mut lines: Vec<String> = Vec::new();
    if chars_of(provider).len() > 0 {
        let mut first = concat2("Running: [", provider);
        append_str(&mut first, "] ");
        append_str(&mut first, title);
        lines.push(first);
    }
    lines.push(lit(message));
    proof {
        assert(lines.deep_view() =~= executed_lines_spec(provider@, title@, message@));
    }
    lines
}

/// The response in a reply, or the error to report.
pub open spec fn required_response_spec(
    ok: bool,
    response: Option<IpcResponseView>,
    error: Option<Seq<char>>,
) -> Result<IpcResponseView, Seq<char>> {
    if ok {
        match response {
            Some(r) => Ok(r),
            None => Err("daemon returned an empty success response"@),
        }
    } else {
        Err(match error {
            Some(e) => e,
            None => "daemon request failed without an error message"@,
        })
    }
}

pub open spec fn opt_response_view(r: Option<IpcResponse>) -> Option<IpcResponseView> {
    match r {
        Some(x) => Some(x@),
        None => None,
    }
}

/// The response in a reply from the daemon, or the error to report.
pub fn require_ipc_response(reply: IpcReply) -> (r: Result<IpcResponse, String>)
    ensures
        match (r, required_response_spec(reply.ok, opt_response_view(reply.response), opt_seq_view(reply.error))) {
            (Ok(x), Ok(v)) => x@ == v,
            (Err(e), Err(m)) => e@ == m,
            _ => false,
        },
{
    if reply.ok {
        return match reply.response {
            Some(response) => Ok(response),
            None => Err(lit("daemon returned an empty success response")),
        };
    }
    match reply.error {
        Some(e) => Err(e),
        None => Err(lit("daemon request failed without an error message")),
    }
}

/// A command of the command-line tool for a running daemon.
#[derive(Debug, PartialEq, Eq)]
pub enum DaemonClientCommand {
    Status { json: bool },
    Search { query: String, json: bool, limit: Option<usize> },
    Run { query: String, allow_shell: bool, limit: Option<usize> },
    RefreshApps { json: bool },
    Stop,
}

/// The request a command sends to the daemon.
pub fn daemon_client_request(command: &DaemonClientCommand) -> (r: IpcRequest)
    ensures
        r@ == match command {
            DaemonClientCommand::Status { .. } => IpcRequestView::Status,
            DaemonClientCommand::Search { query, limit, .. } => IpcRequestView::Search { query: query@, limit: *limit },
            DaemonClientCommand::Run { query, allow_shell, limit } => IpcRequestView::Execute {
                query: query@,
                limit: *limit,
                allow_shell: *allow_shell,
            },
            DaemonClientCommand::RefreshApps { .. } => IpcRequestView::RefreshAppIndex,
            DaemonClientCommand::Stop => IpcRequestView::Shutdown,
        },
{
    match command {
        DaemonClientCommand::Status { .. } => IpcRequest::Status,
        DaemonClientCommand::Search { query, limit, .. } => IpcRequest::Search { query: query.clone(), limit: *limit },
        DaemonClientCommand::Run { query, allow_shell, limit } => IpcRequest::Execute {
            query: query.clone(),
            limit: *limit,
            allow_shell: *allow_shell,
        },
        DaemonClientCommand::RefreshApps { .. } => IpcRequest::RefreshAppIndex,
        DaemonClientCommand::Stop => IpcRequest::Shutdown,
    }
}

/// What the command-line tool prints for a daemon reply.
#[derive(Debug)]
pub enum DaemonClientOutput {
    Lines(Vec<String>),
    /// Print this response as JSON.
    StatusJson(IpcResponse),
    /// Print these results as JSON.
    ResultsJson(Vec<RankedResult>),
    /// Print this app index report as JSON; with none, the report of a
    /// disabled app provider.
    ReportJson(Option<AppIndexReport>),
}

/// What a command prints for the daemon's response `resp`.
pub open spec fn client_output_fits(command: &DaemonClientCommand, resp: IpcResponseView, r: Result<DaemonClientOutput, String>) -> bool {
    match command {
        DaemonClientCommand::Status { json } => if *json {
            r matches Ok(DaemonClientOutput::StatusJson(x)) && x@ == resp
        } else {
            match resp {
                IpcResponseView::Status { providers, clipboard_history_len, recent_result_count, hotkey, local_state_path, .. } =>
                    r matches Ok(DaemonClientOutput::Lines(v))
                        && v.deep_view() == status_lines_spec(providers, clipboard_history_len, recent_result_count, hotkey, local_state_path),
                _ => r matches Err(e) && e@ == "daemon returned an unexpected status response"@,
            }
        },
        DaemonClientCommand::Search { json, .. } => match resp {
            IpcResponseView::Search { results } => if *json {
                r matches Ok(DaemonClientOutput::ResultsJson(v)) && ranked_view(v@) == results
            } else {
                r matches Ok(DaemonClientOutput::Lines(v)) && v.deep_view() == result_lines_spec(results)
            },
            _ => r matches Err(e) && e@ == "daemon returned an unexpected search response"@,
        },
        DaemonClientCommand::Run { .. } => match resp {
            IpcResponseView::Executed { provider, title, message } =>
                r matches Ok(DaemonClientOutput::Lines(v)) && v.deep_view() == executed_lines_spec(provider, title, message),
            _ => r matches Err(e) && e@ == "daemon returned an unexpected execution response"@,
        },
        DaemonClientCommand::RefreshApps { json } => match resp {
            IpcResponseView::AppIndexRefreshed { report } => if *json {
                r matches Ok(DaemonClientOutput::ReportJson(x)) && opt_report_view(x) == report
            } else {
                r matches Ok(DaemonClientOutput::Lines(v)) && v.deep_view() == app_report_lines_spec(report)
            },
            _ => r matches Err(e) && e@ == "daemon returned an unexpected app index refresh response"@,
        },
        DaemonClientCommand::Stop => match resp {
            IpcResponseView::ShuttingDown => r matches Ok(DaemonClientOutput::Lines(v)) && v.deep_view() == seq!["daemon stopping"@],
            _ => r matches Err(e) && e@ == "daemon returned an unexpected shutdown response"@,
        },
    }
}

/// What a command prints for the daemon's reply, or the error it reports.
pub fn daemon_client_output(command: &DaemonClientCommand, reply: IpcReply) -> (r: Result<DaemonClientOutput, String>)
    ensures
        match required_response_spec(reply.ok, opt_response_view(reply.response), opt_seq_view(reply.error)) {
            Err(m) => r matches Err(e) && e@ == m,
            Ok(resp) => client_output_fits(command, resp, r),
        },
{
    let response = match require_ipc_response(reply) {
        Ok(response) => response,
        Err(e) => return Err(e),
    };
    match command {
        DaemonClientCommand::Status { json } => {
            if *json {
                Ok(DaemonClientOutput::StatusJson(response))
            } else {
                match daemon_status_lines(&response) {
                    Ok(lines) => Ok(DaemonClientOutput::Lines(lines)),
                    Err(e) => Err(e),
                }
            }
        },
        DaemonClientCommand::Search { json, .. } => match response {
            IpcResponse::Search { results } => {
                if *json {
                    Ok(DaemonClientOutput::ResultsJson(results))
                } else {
                    Ok(DaemonClientOutput::Lines(result_lines(&results)))
                }
            },
            _ => Err(lit("daemon returned an unexpected search response")),
        },
        DaemonClientCommand::Run { .. } => match response {
            IpcResponse::Executed { provider, title, message } => Ok(DaemonClientOutput::Lines(
                executed_lines(provider.as_str(), title.as_str(), message.as_str()),
            )),
            _ => Err(lit("daemon returned an unexpected execution response")),
        },
        DaemonClientCommand::RefreshApps { json } => match response {
            IpcResponse::AppIndexRefreshed { report } => {
                if *json {
                    Ok(DaemonClientOutput::ReportJson(report))
                } else {
                    let lines = match &report {
                        Some(x) => app_report_lines(Some(x)),
                        None => app_report_lines(None),
                    };
                    Ok(DaemonClientOutput::Lines(lines))
                }
            },
            _ => Err(lit("daemon returned an unexpected app index refresh response")),
        },
        DaemonClientCommand::Stop => match response {
            IpcResponse::ShuttingDown => {
                let mut lines: Vec<String> = Vec::new();
                lines.push(lit("daemon stopping"));
                proof {
                    assert(lines.deep_view() =~= seq!["daemon stopping"@]);
                }
                Ok(DaemonClientOutput::Lines(lines))
            },
            _ => Err(lit("daemon returned an unexpected shutdown response")),
        },
    }
}

/// Running the top result from the command line: lines to print, or the
/// outside work the action needs.
#[derive(Debug)]
pub enum FirstResultRun {
    Lines(Vec<String>),
    /// Perform `effect`, then call [`finish_first_result`].
    Perform { result: SearchResult, effect: ActionEffect },
}

/// The first line printed for a run result.
pub open spec fn running_line(provider: Seq<char>, title: Seq<char>) -> Seq<char> {
    "Running: ["@ + provider + "] "@ + title
}

/// Run the top ranked result under `policy`: nothing to run without
/// results; a shell command the policy blocks is refused.
pub fn run_first_result(daemon: &mut DaemonState, results: &Vec<RankedResult>, policy: ActionExecutionPolicy) -> (r: Result<FirstResultRun, String>)
    requires
        old(daemon).wf(),
    ensures
        crate::daemon::recent_step(old(daemon).recent(), final(daemon).recent()),
        final(daemon).wf(),
        same_but_recent(&*final(daemon), &*old(daemon)),
        results@.len() == 0 ==> {
            &&& r matches Ok(FirstResultRun::Lines(v)) && v.deep_view() == seq!["Nothing to run"@]
            &&& final(daemon).recent() == old(daemon).recent()
        },
        results@.len() > 0 ==> {
            let res = results@[0].result@;
            if result_blocked_spec(res, policy) {
                &&& r matches Err(e) && e@ == "refusing to run shell command without --allow-shell"@
                &&& final(daemon).recent() == old(daemon).recent()
            } else {
                match daemon_execute_spec(old(daemon).config_view(), old(daemon).app_sources(), old(daemon).history(), res) {
                    Ok(StepView::Done(m)) => {
                        &&& r matches Ok(FirstResultRun::Lines(v)) && v.deep_view() == seq![running_line(res.provider, res.title), m]
                        &&& final(daemon).recent() == record_recent_spec(old(daemon).recent(), res)
                    },
                    Ok(StepView::Perform(e)) => {
                        &&& r matches Ok(FirstResultRun::Perform { result, effect }) && result@ == res && effect@ == e
                        &&& final(daemon).recent() == old(daemon).recent()
                    },
                    Err(ce) => {
                        &&& r matches Err(e) && e@ == core_error_text(ce)
                        &&& final(daemon).recent() == old(daemon).recent()
                    },
                }
            }
        },
{
    if results.len() == 0 {
        let mut lines: Vec<String> = Vec::new();
        lines.push(lit("Nothing to run"));
        proof {
            assert(lines.deep_view() =~= seq!["Nothing to run"@]);
        }
        return Ok(FirstResultRun::Lines(lines));
    }
    let first = results[0].result.clone();
    match daemon.execute_result(&first, policy) {
        Ok(ExecutionStep::Done(outcome)) => {
            let mut lines: Vec<String> = Vec::new();
            let mut line = concat2("Running: [", first.provider.as_str());
            append_str(&mut line, "] ");
            append_str(&mut line, first.title.as_str());
            lines.push(line);
            lines.push(outcome.message);
            proof {
                assert(lines.deep_view() =~= seq![running_line(first@.provider, first@.title), lines@[1]@]);
            }
            Ok(FirstResultRun::Lines(lines))
        },
        Ok(ExecutionStep::Perform(effect)) => Ok(FirstResultRun::Perform { result: first, effect }),
        Err(DaemonError::ShellCommandBlocked) => Err(lit("refusing to run shell command without --allow-shell")),
        Err(error) => Err(error.message()),
    }
}

/// Finish running the top result once its outside work was performed.
pub fn finish_first_result(
    daemon: &mut DaemonState,
    result: &SearchResult,
    effect: &ActionEffect,
    report: &EffectReport,
) -> (r: Result<Vec<String>, String>)
    requires
        old(daemon).wf(),
        report_fits(*effect, *report),
    ensures
        crate::daemon::recent_step(old(daemon).recent(), final(daemon).recent()),
        final(daemon).wf(),
        same_but_recent(&*final(daemon), &*old(daemon)),
        match effect_result_spec(*effect, *report) {
            Ok(t) => {
                &&& r matches Ok(v) && v.deep_view() == seq![running_line(result@.provider, result@.title), t]
                &&& final(daemon).recent() == record_recent_spec(old(daemon).recent(), result@)
            },
            Err(_) => {
                &&& r matches Err(e) && e@ == "provider '"@ + result@.provider + "' failed: "@
                    + ("action failed: "@ + effect_error_text(*effect, *report))
                &&& final(daemon).recent() == old(daemon).recent()
            },
        },
{
    match daemon.complete_execution(result, effect, report) {
        Ok(outcome) => {
            let mut lines: Vec<String> = Vec::new();
            let mut line = concat2("Running: [", result.provider.as_str());
            append_str(&mut line, "] ");
            append_str(&mut line, result.title.as_str());
            lines.push(line);
            lines.push(outcome.message);
            proof {
                assert(lines.deep_view() =~= seq![running_line(result@.provider, result@.title), lines@[1]@]);
            }
            Ok(lines)
        },
        Err(error) => Err(error.message()),
    }
}


/// What the daemon tool prints for `status`.
pub fn local_status_lines(daemon: &DaemonState) -> (lines: Vec<String>)
    ensures
        lines.deep_view() == seq![
            "freepalette-daemon initialized"@,
            hotkey_summary_spec(daemon.hotkey()),
            "IPC server is available with 'freepalette-daemon serve'"@,
            match daemon.state_path() {
                Some(p) => "local state: "@ + p,
                None => "local state: unavailable"@,
            },
        ],
{
    let mut lines: Vec<String> = Vec::new();
    lines.push(lit("freepalette-daemon initialized"));
    lines.push(daemon.hotkey_state().summary());
    lines.push(lit("IPC server is available with 'freepalette-daemon serve'"));
    match daemon.local_state_path() {
        Some(p) => lines.push(concat2("local state: ", p.as_str())),
        None => lines.push(lit("local state: unavailable")),
    }
    proof {
        assert(lines.deep_view() =~= seq![
            "freepalette-daemon initialized"@,
            hotkey_summary_spec(daemon.hotkey()),
            "IPC server is available with 'freepalette-daemon serve'"@,
            match daemon.state_path() {
                Some(p) => "local state: "@ + p,
                None => "local state: unavailable"@,
            },
        ]);
    }
    lines
}

/// The line the foreground daemon prints when its hotkey loop ends.
pub fn foreground_exit_line(status: &HotkeyLoopStatus) -> (s: String)
    ensures
        s@ == match status {
            HotkeyLoopStatus::Disabled => "global hotkey disabled; foreground daemon exited"@,
            HotkeyLoopStatus::UnsupportedPlatform { platform } =>
                "global hotkey unsupported on "@ + platform@ + "; foreground daemon exited"@,
        },
{
    match status {
        HotkeyLoopStatus::Disabled => lit("global hotkey disabled; foreground daemon exited"),
        HotkeyLoopStatus::UnsupportedPlatform { platform } => {
            let mut s = concat2("global hotkey unsupported on ", platform.as_str());
            append_str(&mut s, "; foreground daemon exited");
            s
        },
    }
}

/// What the daemon tool makes of the reply to its shutdown request: the
/// line to print, or the error.
pub fn shutdown_reply_outcome(reply: IpcReply) -> (r: Result<String, String>)
    ensures
        !reply.ok ==> (r matches Err(e) && e@ == match reply.error {
            Some(m) => m@,
            None => "daemon refused shutdown without a message"@,
        }),
        reply.ok ==> match reply.response {
            Some(IpcResponse::ShuttingDown) => r matches Ok(line) && line@ == "freepalette-daemon stopping"@,
            _ => r matches Err(e) && e@ == "daemon returned an unexpected shutdown response"@,
        },
{
    if !reply.ok {
        return match reply.error {
            Some(m) => Err(m),
            None => Err(lit("daemon refused shutdown without a message")),
        };
    }
    match reply.response {
        Some(IpcResponse::ShuttingDown) => Ok(lit("freepalette-daemon stopping")),
        _ => Err(lit("daemon returned an unexpected shutdown response")),
    }
}

} // verus!
