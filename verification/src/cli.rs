//! Text shown by the command-line tools, and the daemon tool's argument
//! parsing.

use vstd::prelude::*;

use crate::daemon::ActionExecutionPolicy;
use crate::plugin_api::{Action, ActionView};
use crate::providers::app::{AppIndexEntry, AppIndexEntrySource};
use crate::text::{append_str, chars_of, concat2, is_ws, lit, push_char};

verus! {

/// `s` with every `"` written as `\"`.
pub open spec fn escape_quotes(s: Seq<char>) -> Seq<char>
    decreases s.len(),
{
    if s.len() == 0 {
        Seq::empty()
    } else {
        escape_quotes(s.drop_last()) + (if s.last() == '"' { seq!['\\', '"'] } else { seq![s.last()] })
    }
}

pub open spec fn has_whitespace(s: Seq<char>) -> bool {
    exists|i: int| 0 <= i < s.len() && is_ws(#[trigger] s[i])
}

/// An argument as shown to the user: quoted, with its quotes escaped, when it
/// holds whitespace.
pub open spec fn display_arg_spec(arg: Seq<char>) -> Seq<char> {
    if has_whitespace(arg) {
        seq!['"'] + escape_quotes(arg) + seq!['"']
    } else {
        arg
    }
}

/// The displayed arguments, each preceded by a space.
pub open spec fn display_args_tail(args: Seq<Seq<char>>) -> Seq<char>
    decreases args.len(),
{
    if args.len() == 0 {
        Seq::empty()
    } else {
        display_args_tail(args.drop_last()) + seq![' '] + display_arg_spec(args.last())
    }
}

/// A command and its arguments as shown to the user, separated by spaces.
pub open spec fn command_with_args_spec(command: Seq<char>, args: Seq<Seq<char>>) -> Seq<char> {
    display_arg_spec(command) + display_args_tail(args)
}

/// One line describing what an action does.
pub open spec fn describe_action_spec(action: ActionView) -> Seq<char> {
    match action {
        ActionView::LaunchApp { command, args } => "launch app: "@ + command_with_args_spec(command, args),
        ActionView::OpenPath { path } => "open path: "@ + path,
        ActionView::RunShell { command } => "run shell command: "@ + command,
        ActionView::CopyText { text } => "copy text: "@ + text,
        ActionView::Noop { message } => "no-op: "@ + message,
    }
}

/// Show an argument, quoting it when it holds whitespace.
pub fn format_arg_for_display(arg: &str) -> (s: String)
    ensures
        s@ == display_arg_spec(arg@),
{
    let v = chars_of(arg);
    let mut found = false;
    let mut i: usize = 0;
    while i < v.len()
        invariant
            i <= v@.len(),
            v@ == arg@,
            found <==> exists|j: int| 0 <= j < i && is_ws(#[trigger] v@[j]),
        decreases v@.len() - i,
    {
        if crate::text::char_is_whitespace(v[i]) {
            found = true;
        }
        i += 1;
    }
    if !found {
        return lit(arg);
    }
    let mut out = String::new();
    push_char(&mut out, '"');
    let mut k: usize = 0;
    proof {
        assert(v@.take(0) =~= Seq::<char>::empty());
        assert(out@ =~= seq!['"'] + escape_quotes(v@.take(0)));
    }
    while k < v.len()
        invariant
            k <= v@.len(),
            out@ == seq!['"'] + escape_quotes(v@.take(k as int)),
        decreases v@.len() - k,
    {
        let c = v[k];
        proof {
            assert(v@.take(k + 1).drop_last() =~= v@.take(k as int));
        }
        if c == '"' {
            push_char(&mut out, '\\');
            push_char(&mut out, '"');
        } else {
            push_char(&mut out, c);
        }
        proof {
            assert(out@ =~= seq!['"'] + escape_quotes(v@.take(k + 1)));
        }
        k += 1;
    }
    push_char(&mut out, '"');
    proof {
        assert(v@.take(v@.len() as int) =~= v@);
    }
    out
}

/// Show a command with its arguments.
pub fn format_command_with_args(command: &str, args: &Vec<String>) -> (s: String)
    ensures
        s@ == command_with_args_spec(command@, args.deep_view()),
{
    let mut out = format_arg_for_display(command);
    let mut i: usize = 0;
    proof {
        assert(args.deep_view().take(0) =~= Seq::<Seq<char>>::empty());
        assert(out@ =~= display_arg_spec(command@) + display_args_tail(args.deep_view().take(0)));
    }
    while i < args.len()
        invariant
            i <= args@.len(),
            out@ == display_arg_spec(command@) + display_args_tail(args.deep_view().take(i as int)),
        decreases args@.len() - i,
    {
        let shown = format_arg_for_display(args[i].as_str());
        proof {
            assert(args.deep_view().take(i + 1).drop_last() =~= args.deep_view().take(i as int));
            assert(args.deep_view().take(i + 1).last() == args@[i as int]@);
        }
        append_str(&mut out, " ");
        append_str(&mut out, shown.as_str());
        proof {
            reveal_strlit(" ");
            assert(out@ =~= display_arg_spec(command@) + display_args_tail(args.deep_view().take(i + 1)));
        }
        i += 1;
    }
    proof {
        assert(args.deep_view().take(args@.len() as int) =~= args.deep_view());
    }
    out
}

/// One line describing what an action does.
pub fn describe_action(action: &Action) -> (s: String)
    ensures
        s@ == describe_action_spec(action@),
{
    match action {
        Action::LaunchApp { command, args } => {
            let shown = format_command_with_args(command.as_str(), args);
            concat2("launch app: ", shown.as_str())
        },
        Action::OpenPath { path } => concat2("open path: ", path.as_str()),
        Action::RunShell { command } => concat2("run shell command: ", command.as_str()),
        Action::CopyText { text } => concat2("copy text: ", text.as_str()),
        Action::Noop { message } => concat2("no-op: ", message.as_str()),
    }
}

/// The subtitle suffix of a result line: ` - subtitle`, or nothing.
pub fn format_subtitle(subtitle: &str) -> (s: String)
    ensures
        s@ == (if subtitle@.len() == 0 { Seq::empty() } else { " - "@ + subtitle@ }),
{
    let v = chars_of(subtitle);
    if v.len() == 0 {
        String::new()
    } else {
        concat2(" - ", subtitle)
    }
}

/// The policy for `--allow-shell`: shell commands only with the flag.
pub fn execution_policy(allow_shell: bool) -> (p: ActionExecutionPolicy)
    ensures
        p == (if allow_shell { ActionExecutionPolicy::AllowShellCommands } else { ActionExecutionPolicy::BlockShellCommands }),
{
    if allow_shell {
        ActionExecutionPolicy::AllowShellCommands
    } else {
        ActionExecutionPolicy::BlockShellCommands
    }
}

pub open spec fn source_name(s: AppIndexEntrySource) -> Seq<char> {
    match s {
        AppIndexEntrySource::Config => "config"@,
        AppIndexEntrySource::Known => "known"@,
        AppIndexEntrySource::WindowsStartMenu => "windows-start-menu"@,
        AppIndexEntrySource::Fallback => "fallback"@,
    }
}

/// Where an app entry came from, with its detail in parentheses.
pub fn describe_app_source(entry: &AppIndexEntry) -> (s: String)
    ensures
        s@ == match entry.source_detail {
            Some(d) => source_name(entry.source) + " ("@ + d@ + ")"@,
            None => source_name(entry.source),
        },
{
    let source = match entry.source {
        AppIndexEntrySource::Config => "config",
        AppIndexEntrySource::Known => "known",
        AppIndexEntrySource::WindowsStartMenu => "windows-start-menu",
        AppIndexEntrySource::Fallback => "fallback",
    };
    match &entry.source_detail {
        Some(detail) => {
            let mut s = concat2(source, " (");
            append_str(&mut s, detail.as_str());
            append_str(&mut s, ")");
            s
        },
        None => lit(source),
    }
}

/// An app entry's command line as shown to the user.
pub fn describe_app_entry(entry: &AppIndexEntry) -> (s: String)
    ensures
        s@ == command_with_args_spec(entry.command@, entry.args.deep_view()),
{
    format_command_with_args(entry.command.as_str(), &entry.args)
}

/// A command of the daemon tool.
#[derive(Debug, PartialEq, Eq)]
pub enum DaemonCommand {
    Status,
    Run,
    Start,
    Stop,
    Serve { bind: Option<String> },
}

pub enum DaemonCommandView {
    Status,
    Run,
    Start,
    Stop,
    Serve { bind: Option<Seq<char>> },
}

impl View for DaemonCommand {
    type V = DaemonCommandView;

    open spec fn view(&self) -> DaemonCommandView {
        match self {
            DaemonCommand::Status => DaemonCommandView::Status,
            DaemonCommand::Run => DaemonCommandView::Run,
            DaemonCommand::Start => DaemonCommandView::Start,
            DaemonCommand::Stop => DaemonCommandView::Stop,
            DaemonCommand::Serve { bind } => DaemonCommandView::Serve { bind: crate::daemon::opt_seq_view(*bind) },
        }
    }
}

pub open spec fn too_many_args_text() -> Seq<char> {
    "too many arguments. Use 'freepalette-daemon status', 'run', 'start', 'stop', or 'serve'"@
}

pub open spec fn bind_missing_text() -> Seq<char> {
    "--bind requires an address such as 127.0.0.1:0"@
}

/// The `serve` options from position `i` on, with the address given so far.
pub open spec fn serve_args_spec(rest: Seq<Seq<char>>, i: int, bind: Option<Seq<char>>) -> Result<DaemonCommandView, Seq<char>>
    decreases rest.len() - i,
{
    if i < 0 || i >= rest.len() {
        Ok(DaemonCommandView::Serve { bind })
    } else if rest[i] == "--bind"@ {
        if i + 1 < rest.len() {
            serve_args_spec(rest, i + 2, Some(rest[i + 1]))
        } else {
            Err(bind_missing_text())
        }
    } else {
        Err("unknown serve argument '"@ + rest[i] + "'. Use '--bind <address>'"@)
    }
}

/// What the daemon tool's arguments (program name first) ask for.
pub open spec fn daemon_command_spec(args: Seq<Seq<char>>) -> Result<DaemonCommandView, Seq<char>> {
    if args.len() <= 1 {
        Ok(DaemonCommandView::Status)
    } else {
        let command = args[1];
        let rest = args.skip(2);
        if command == "status"@ || command == "run"@ || command == "start"@ || command == "stop"@ {
            if rest.len() > 0 {
                Err(too_many_args_text())
            } else if command == "status"@ {
                Ok(DaemonCommandView::Status)
            } else if command == "run"@ {
                Ok(DaemonCommandView::Run)
            } else if command == "start"@ {
                Ok(DaemonCommandView::Start)
            } else {
                Ok(DaemonCommandView::Stop)
            }
        } else if command == "serve"@ {
            serve_args_spec(rest, 0, None)
        } else {
            Err("unknown daemon command '"@ + command + "'. Use 'status', 'run', 'start', 'stop', or 'serve'"@)
        }
    }
}

pub open spec fn command_result_view(r: Result<DaemonCommand, String>) -> Result<DaemonCommandView, Seq<char>> {
    match r {
        Ok(c) => Ok(c@),
        Err(e) => Err(e@),
    }
}

impl DaemonCommand {
    /// Parse the daemon tool's arguments, the program name first; no
    /// command means `status`.
    pub fn from_args(args: Vec<String>) -> (r: Result<DaemonCommand, String>)
        ensures
            command_result_view(r) == daemon_command_spec(args.deep_view()),
    {
        let ghost a = args.deep_view();
        proof {
            reveal_strlit("status");
            reveal_strlit("run");
            reveal_strlit("start");
            reveal_strlit("stop");
            reveal_strlit("serve");
            reveal_strlit("--bind");
        }
        if args.len() <= 1 {
            return Ok(DaemonCommand::Status);
        }
        let command = &args[1];
        let extra = args.len() > 2;
        proof {
            assert(a[1] == command@);
            assert(a.skip(2).len() > 0 <==> extra);
        }
        if *command == lit("status") || *command == lit("run") || *command == lit("start") || *command == lit("stop") {
            if extra {
                return Err(lit("too many arguments. Use 'freepalette-daemon status', 'run', 'start', 'stop', or 'serve'"));
            }
            if *command == lit("status") {
                return Ok(DaemonCommand::Status);
            } else if *command == lit("run") {
                return Ok(DaemonCommand::Run);
            } else if *command == lit("start") {
                return Ok(DaemonCommand::Start);
            } else {
                return Ok(DaemonCommand::Stop);
            }
        }
        if *command == lit("serve") {
            let mut bind: Option<String> = None;
            let mut i: usize = 2;
            while i < args.len()
                invariant
                    2 <= i <= args@.len(),
                    a == args.deep_view(),
                    daemon_command_spec(a) == serve_args_spec(a.skip(2), 0, None),
                    serve_args_spec(a.skip(2), 0, None) == serve_args_spec(a.skip(2), i - 2, crate::daemon::opt_seq_view(bind)),
                decreases args@.len() - i,
            {
                let arg = &args[i];
                proof {
                    assert(a.skip(2)[i - 2] == arg@);
                }
                if *arg == lit("--bind") {
                    if i + 1 < args.len() {
                        proof {
                            assert(a.skip(2)[i - 1] == args@[i + 1]@);
                        }
                        bind = Some(args[i + 1].clone());
                        i += 2;
                    } else {
                        return Err(lit("--bind requires an address such as 127.0.0.1:0"));
                    }
                } else {
                    let mut message = concat2("unknown serve argument '", arg.as_str());
                    append_str(&mut message, "'. Use '--bind <address>'");
                    return Err(message);
                }
            }
            return Ok(DaemonCommand::Serve { bind });
        }
        let mut message = concat2("unknown daemon command '", command.as_str());
        append_str(&mut message, "'. Use 'status', 'run', 'start', 'stop', or 'serve'");
        Err(message)
    }
}

} // verus!
