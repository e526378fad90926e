//! The command line: a small argument grammar, typed values, the subcommands
//! of each command group, and the whole command line with its global options.
//!
//! Global options stand before the command group: `--json`, `--agent-id ID`
//! (default `user`), `--mode MODE` (`normal`, `compact`, `agent`, `ref`;
//! default `normal`) and `--db PATH`. `--json` is also accepted anywhere
//! after the group.
pub mod args;
pub mod values;
pub mod output;
pub mod requests;
pub mod blocked;
pub mod board;
pub mod epic;
pub mod history;
pub mod hook;
pub mod issue;
pub mod mission;
pub mod note;
pub mod retro;
pub mod retrospective;
pub mod session;
pub mod sprint;
pub mod stalled;
pub mod task;

use vstd::prelude::*;
use crate::cli::args::{dashed, is_dashed, match_args, match_tokens, opt_views, tail_tokens, token_views, CliError, CliErrorKind, CliErrorView, MatchView, Matched, OptSpec, OptView};
use crate::cli::values::{opt_text, rview, take_opt_text};
use crate::cli::blocked::{blocked_command_parse, BlockedArgs, BlockedCommand, BlockedCommandView};
use crate::cli::board::{board_command_parse, BoardArgs, BoardCommand, BoardCommandView};
use crate::cli::epic::{epic_command_parse, EpicArgs, EpicCommand, EpicCommandView};
use crate::cli::history::{history_command_parse, HistoryArgs, HistoryCommand, HistoryCommandView};
use crate::cli::hook::{hook_command_parse, HookArgs, HookCommand, HookCommandView};
use crate::cli::issue::{issue_command_parse, IssueArgs, IssueCommand, IssueCommandView};
use crate::cli::mission::{mission_command_parse, MissionArgs, MissionCommand, MissionCommandView};
use crate::cli::note::{note_command_parse, NoteArgs, NoteCommand, NoteCommandView};
use crate::cli::retro::{retro_args_parse, RetroArgs, RetroArgsView};
use crate::cli::retrospective::{retrospective_subcommands_parse, RetrospectiveArgs, RetrospectiveSubcommands, RetrospectiveSubcommandsView};
use crate::cli::session::{session_command_parse, SessionArgs, SessionCommand, SessionCommandView};
use crate::cli::sprint::{sprint_command_parse, SprintArgs, SprintCommand, SprintCommandView};
use crate::cli::stalled::{stalled_args_parse, StalledArgs, StalledArgsView};
use crate::cli::task::{task_command_parse, TaskArgs, TaskCommand, TaskCommandView};
use crate::enums::OutputMode;
use crate::models::opt_view;
use crate::text::{str_eq, unescape_chars, unescape_newlines_spec};

verus! {

/// Turns each two-character sequence `\n` (backslash, `n`) into a newline.
pub fn unescape_newlines(s: String) -> (r: String)
    ensures
        r@ == unescape_newlines_spec(s@),
{
    unescape_chars(s.as_str())
}

/// [`unescape_newlines`] on an optional text; `None` stays `None`.
pub fn unescape_newlines_opt(s: Option<String>) -> (r: Option<String>)
    ensures
        opt_view(r) == (match opt_view(s) {
            Some(v) => Some(unescape_newlines_spec(v)),
            None => None,
        }),
{
    match s {
        Some(v) => Some(unescape_newlines(v)),
        None => None,
    }
}

/// A command group and its arguments.
#[derive(Clone, Debug)]
pub enum Command {
    Sprint(SprintArgs),
    Epic(EpicArgs),
    Issue(IssueArgs),
    Task(TaskArgs),
    Note(NoteArgs),
    Session(SessionArgs),
    Board(BoardArgs),
    Blocked(BlockedArgs),
    Stalled(StalledArgs),
    History(HistoryArgs),
    Hook(HookArgs),
    Mission(MissionArgs),
    Retro(RetroArgs),
    Retrospective(RetrospectiveArgs),
    /// The session context as text for hooks.
    SnapshotText { project: Option<String> },
}

/// The mathematical content of a [`Command`].
pub enum CommandView {
    Sprint(SprintCommandView),
    Epic(EpicCommandView),
    Issue(IssueCommandView),
    Task(TaskCommandView),
    Note(NoteCommandView),
    Session(SessionCommandView),
    Board(BoardCommandView),
    Blocked(BlockedCommandView),
    Stalled(StalledArgsView),
    History(HistoryCommandView),
    Hook(HookCommandView),
    Mission(MissionCommandView),
    Retro(RetroArgsView),
    Retrospective(RetrospectiveSubcommandsView),
    SnapshotText { project: Option<Seq<char>> },
}

impl View for Command {
    type V = CommandView;

    open spec fn view(&self) -> CommandView {
        match *self {
            Command::Sprint(a) => CommandView::Sprint(a@),
            Command::Epic(a) => CommandView::Epic(a@),
            Command::Issue(a) => CommandView::Issue(a@),
            Command::Task(a) => CommandView::Task(a@),
            Command::Note(a) => CommandView::Note(a@),
            Command::Session(a) => CommandView::Session(a@),
            Command::Board(a) => CommandView::Board(a@),
            Command::Blocked(a) => CommandView::Blocked(a@),
            Command::Stalled(a) => CommandView::Stalled(a@),
            Command::History(a) => CommandView::History(a@),
            Command::Hook(a) => CommandView::Hook(a@),
            Command::Mission(a) => CommandView::Mission(a@),
            Command::Retro(a) => CommandView::Retro(a@),
            Command::Retrospective(a) => CommandView::Retrospective(a@),
            Command::SnapshotText { project } => CommandView::SnapshotText { project: opt_view(project) },
        }
    }
}

/// The whole command line: global options and the command.
#[derive(Clone, Debug)]
pub struct Cli {
    pub json: bool,
    pub agent_id: String,
    pub mode: OutputMode,
    pub db: Option<String>,
    pub command: Command,
}

/// The mathematical content of a [`Cli`].
pub struct CliView {
    pub json: bool,
    pub agent_id: Seq<char>,
    pub mode: OutputMode,
    pub db: Option<Seq<char>>,
    pub command: CommandView,
}

impl View for Cli {
    type V = CliView;

    open spec fn view(&self) -> CliView {
        CliView {
            json: self.json,
            agent_id: self.agent_id@,
            mode: self.mode,
            db: opt_view(self.db),
            command: self.command@,
        }
    }
}

/// The options of `snapshot-text`.
pub open spec fn snapshot_text_options() -> Seq<OptView> {
    seq![OptView { name: "project"@, takes_value: true }]
}

/// Lifts a group's result into a [`CommandView`].
pub open spec fn lift<A>(r: Result<A, CliErrorView>, f: spec_fn(A) -> CommandView) -> Result<CommandView, CliErrorView> {
    match r {
        Ok(a) => Ok(f(a)),
        Err(e) => Err(e),
    }
}

/// What a command group makes of `argv`, where `argv[0]` is the group's
/// name and the rest its arguments.
pub open spec fn command_parse(argv: Seq<Seq<char>>) -> Result<CommandView, CliErrorView>
    recommends
        argv.len() >= 1,
{
    let g = argv[0];
    if g == "sprint"@ {
        lift(sprint_command_parse(argv), |c| CommandView::Sprint(c))
    } else if g == "epic"@ {
        lift(epic_command_parse(argv), |c| CommandView::Epic(c))
    } else if g == "issue"@ {
        lift(issue_command_parse(argv), |c| CommandView::Issue(c))
    } else if g == "task"@ {
        lift(task_command_parse(argv), |c| CommandView::Task(c))
    } else if g == "note"@ {
        lift(note_command_parse(argv), |c| CommandView::Note(c))
    } else if g == "session"@ {
        lift(session_command_parse(argv), |c| CommandView::Session(c))
    } else if g == "board"@ {
        lift(board_command_parse(argv), |c| CommandView::Board(c))
    } else if g == "blocked"@ {
        lift(blocked_command_parse(argv), |c| CommandView::Blocked(c))
    } else if g == "stalled"@ {
        lift(stalled_args_parse(argv), |c| CommandView::Stalled(c))
    } else if g == "history"@ {
        lift(history_command_parse(argv), |c| CommandView::History(c))
    } else if g == "hook"@ {
        lift(hook_command_parse(argv), |c| CommandView::Hook(c))
    } else if g == "mission"@ {
        lift(mission_command_parse(argv), |c| CommandView::Mission(c))
    } else if g == "retro"@ {
        lift(retro_args_parse(argv), |c| CommandView::Retro(c))
    } else if g == "retrospective"@ {
        lift(retrospective_subcommands_parse(argv), |c| CommandView::Retrospective(c))
    } else if g == "snapshot-text"@ {
        match match_args(argv.skip(1), snapshot_text_options(), false) {
            Ok(m) => Ok(CommandView::SnapshotText { project: opt_text(m, 0) }),
            Err(e) => Err(e),
        }
    } else {
        Err(CliErrorView { kind: CliErrorKind::UnknownSubcommand, arg: g })
    }
}

/// `s` without its `--json` tokens.
pub open spec fn without_json(s: Seq<Seq<char>>) -> Seq<Seq<char>>
    decreases s.len(),
{
    if s.len() == 0 {
        s
    } else if s.last() == "--json"@ {
        without_json(s.drop_last())
    } else {
        without_json(s.drop_last()).push(s.last())
    }
}

/// The global options read so far.
pub struct Globals {
    pub json: bool,
    pub agent_id: Seq<char>,
    pub mode: OutputMode,
    pub db: Option<Seq<char>>,
}

/// Reads global options from `toks[i..]`, then the command group and its
/// arguments.
pub open spec fn cli_from(toks: Seq<Seq<char>>, i: int, g: Globals) -> Result<CliView, CliErrorView>
    decreases toks.len() - i,
{
    if i < 0 || i >= toks.len() {
        Err(CliErrorView { kind: CliErrorKind::MissingSubcommand, arg: "engram"@ })
    } else {
        let t = toks[i];
        if t == "--json"@ {
            cli_from(toks, i + 1, Globals { json: true, agent_id: g.agent_id, mode: g.mode, db: g.db })
        } else if t == "--agent-id"@ || t == "--mode"@ || t == "--db"@ {
            if i + 1 < toks.len() && !dashed(toks[i + 1]) {
                let v = toks[i + 1];
                if t == "--agent-id"@ {
                    cli_from(toks, i + 2, Globals { json: g.json, agent_id: v, mode: g.mode, db: g.db })
                } else if t == "--db"@ {
                    cli_from(toks, i + 2, Globals { json: g.json, agent_id: g.agent_id, mode: g.mode, db: Some(v) })
                } else {
                    match OutputMode::from_name(v) {
                        Some(md) => cli_from(toks, i + 2, Globals { json: g.json, agent_id: g.agent_id, mode: md, db: g.db }),
                        None => Err(CliErrorView { kind: CliErrorKind::InvalidValue, arg: v }),
                    }
                }
            } else {
                Err(CliErrorView { kind: CliErrorKind::MissingValue, arg: t })
            }
        } else if t == "--help"@ || t == "-h"@ {
            Err(CliErrorView { kind: CliErrorKind::HelpRequested, arg: t })
        } else if dashed(t) {
            Err(CliErrorView { kind: CliErrorKind::UnknownArgument, arg: t })
        } else {
            let rest = toks.skip(i + 1);
            match command_parse(seq![t] + without_json(rest)) {
                Ok(c) => Ok(CliView {
                    json: g.json || rest.contains("--json"@),
                    agent_id: g.agent_id,
                    mode: g.mode,
                    db: g.db,
                    command: c,
                }),
                Err(e) => Err(e),
            }
        }
    }
}

/// What the program makes of its command line (`argv[0]` is its name).
pub open spec fn cli_parse(argv: Seq<Seq<char>>) -> Result<CliView, CliErrorView> {
    let toks = if argv.len() == 0 { argv } else { argv.skip(1) };
    cli_from(toks, 0, Globals { json: false, agent_id: "user"@, mode: OutputMode::Normal, db: None })
}

fn snapshot_text_option_specs() -> (v: Vec<OptSpec>)
    ensures
        opt_views(v@) == snapshot_text_options(),
{
    let mut v: Vec<OptSpec> = Vec::new();
    v.push(OptSpec { name: "project", takes_value: true });
    assert(opt_views(v@) =~= snapshot_text_options());
    v
}

/// Parses the arguments of the command group named `argv[0]`.
pub fn command_from(argv: &Vec<String>) -> (r: Result<Command, CliError>)
    requires
        argv.len() >= 1,
    ensures
        rview(r) == command_parse(token_views(argv@)),
{
    let ghost tv = token_views(argv@);
    let g = argv[0].as_str();
    assert(g@ == tv[0]);
    if str_eq(g, "sprint") {
        match SprintCommand::try_parse_from(argv) {
            Ok(c) => Ok(Command::Sprint(SprintArgs { command: c })),
            Err(e) => Err(e),
        }
    } else if str_eq(g, "epic") {
        match EpicCommand::try_parse_from(argv) {
            Ok(c) => Ok(Command::Epic(EpicArgs { command: c })),
            Err(e) => Err(e),
        }
    } else if str_eq(g, "issue") {
        match IssueCommand::try_parse_from(argv) {
            Ok(c) => Ok(Command::Issue(IssueArgs { command: c })),
            Err(e) => Err(e),
        }
    } else if str_eq(g, "task") {
        match TaskCommand::try_parse_from(argv) {
            Ok(c) => Ok(Command::Task(TaskArgs { command: c })),
            Err(e) => Err(e),
        }
    } else if str_eq(g, "note") {
        match NoteCommand::try_parse_from(argv) {
            Ok(c) => Ok(Command::Note(NoteArgs { command: c })),
            Err(e) => Err(e),
        }
    } else if str_eq(g, "session") {
        match SessionCommand::try_parse_from(argv) {
            Ok(c) => Ok(Command::Session(SessionArgs { command: c })),
            Err(e) => Err(e),
        }
    } else if str_eq(g, "board") {
        match BoardCommand::try_parse_from(argv) {
            Ok(c) => Ok(Command::Board(BoardArgs { command: c })),
            Err(e) => Err(e),
        }
    } else if str_eq(g, "blocked") {
        match BlockedCommand::try_parse_from(argv) {
            Ok(c) => Ok(Command::Blocked(BlockedArgs { command: c })),
            Err(e) => Err(e),
        }
    } else if str_eq(g, "stalled") {
        match StalledArgs::try_parse_from(argv) {
            Ok(c) => Ok(Command::Stalled(c)),
            Err(e) => Err(e),
        }
    } else if str_eq(g, "history") {
        match HistoryCommand::try_parse_from(argv) {
            Ok(c) => Ok(Command::History(HistoryArgs { command: c })),
            Err(e) => Err(e),
        }
    } else if str_eq(g, "hook") {
        match HookCommand::try_parse_from(argv) {
            Ok(c) => Ok(Command::Hook(HookArgs { command: c })),
            Err(e) => Err(e),
        }
    } else if str_eq(g, "mission") {
        match MissionCommand::try_parse_from(argv) {
            Ok(c) => Ok(Command::Mission(MissionArgs { command: c })),
            Err(e) => Err(e),
        }
    } else if str_eq(g, "retro") {
        match RetroArgs::try_parse_from(argv) {
            Ok(c) => Ok(Command::Retro(c)),
            Err(e) => Err(e),
        }
    } else if str_eq(g, "retrospective") {
        match RetrospectiveSubcommands::try_parse_from(argv) {
            Ok(c) => Ok(Command::Retrospective(RetrospectiveArgs { command: c })),
            Err(e) => Err(e),
        }
    } else if str_eq(g, "snapshot-text") {
        let rest = tail_tokens(argv, 1);
        let opts = snapshot_text_option_specs();
        match match_tokens(&rest, &opts, false) {
            Ok(m) => Ok(Command::SnapshotText { project: take_opt_text(&m, 0) }),
            Err(e) => Err(e),
        }
    } else {
        Err(CliError { kind: CliErrorKind::UnknownSubcommand, arg: argv[0].clone() })
    }
}

/// The group name at `toks[i]` followed by the later tokens other than
/// `--json`, and whether a `--json` was among them.
fn group_tokens(toks: &Vec<String>, i: usize) -> (r: (Vec<String>, bool))
    requires
        i < toks.len(),
    ensures
        token_views(r.0@) == seq![token_views(toks@)[i as int]] + without_json(token_views(toks@).skip(i + 1)),
        r.1 == token_views(toks@).skip(i + 1).contains("--json"@),
{
    let ghost tv = token_views(toks@);
    let mut out: Vec<String> = Vec::new();
    out.push(toks[i].clone());
    let mut found = false;
    let mut j = i + 1;
    assert(tv.subrange(i + 1, j as int) =~= Seq::<Seq<char>>::empty());
    assert(token_views(out@) =~= seq![tv[i as int]] + without_json(tv.subrange(i + 1, j as int)));
    while j < toks.len()
        invariant
            tv == token_views(toks@),
            i < j <= toks.len(),
            token_views(out@) == seq![tv[i as int]] + without_json(tv.subrange(i + 1, j as int)),
            found == tv.subrange(i + 1, j as int).contains("--json"@),
        decreases toks.len() - j,
    {
        let ghost prev = tv.subrange(i + 1, j as int);
        let ghost next = tv.subrange(i + 1, j + 1);
        assert(next.drop_last() =~= prev);
        assert(next.last() == tv[j as int]);
        let ghost before = out@;
        let t = toks[j].clone();
        if str_eq(t.as_str(), "--json") {
            assert(next[j - (i + 1)] == "--json"@);
            found = true;
        } else {
            out.push(t);
            assert(token_views(out@) =~= token_views(before).push(tv[j as int]));
            assert((seq![tv[i as int]] + without_json(prev)).push(tv[j as int]) =~= seq![tv[i as int]] + without_json(prev).push(tv[j as int]));
            assert(found == next.contains("--json"@)) by {
                if next.contains("--json"@) {
                    let k = choose|k: int| 0 <= k < next.len() && next[k] == "--json"@;
                    assert(k < prev.len());
                    assert(prev[k] == next[k]);
                }
                if prev.contains("--json"@) {
                    let k = choose|k: int| 0 <= k < prev.len() && prev[k] == "--json"@;
                    assert(next[k] == prev[k]);
                }
            }
        }
        assert(found == next.contains("--json"@)) by {
            if prev.contains("--json"@) {
                let k = choose|k: int| 0 <= k < prev.len() && prev[k] == "--json"@;
                assert(next[k] == prev[k]);
            }
        }
        j = j + 1;
    }
    assert(tv.subrange(i + 1, j as int) =~= tv.skip(i + 1));
    (out, found)
}

impl Cli {
    /// Parses the whole command line; see [`cli_parse`].
    pub fn try_parse_from(argv: &Vec<String>) -> (r: Result<Cli, CliError>)
        ensures
            rview(r) == cli_parse(token_views(argv@)),
    {
        let toks = if argv.len() == 0 { tail_tokens(argv, 0) } else { tail_tokens(argv, 1) };
        proof {
            if argv.len() == 0 {
                assert(token_views(argv@).skip(0) =~= token_views(argv@));
            }
        }
        let ghost tv = token_views(toks@);
        let mut json = false;
        let mut agent_id = String::from_str("user");
        let mut mode = OutputMode::Normal;
        let mut db: Option<String> = None;
        let mut i: usize = 0;
        while i < toks.len()
            invariant
                tv == token_views(toks@),
                i <= toks.len(),
                cli_parse(token_views(argv@)) == cli_from(tv, i as int,
                    Globals { json, agent_id: agent_id@, mode, db: opt_view(db) }),
            decreases toks.len() - i,
        {
            let t = toks[i].as_str();
            assert(t@ == tv[i as int]);
            if str_eq(t, "--json") {
                json = true;
                i = i + 1;
            } else if str_eq(t, "--agent-id") || str_eq(t, "--mode") || str_eq(t, "--db") {
                if i + 1 < toks.len() && !is_dashed(toks[i + 1].as_str()) {
                    let v = toks[i + 1].clone();
                    assert(v@ == tv[i + 1]);
                    if str_eq(t, "--agent-id") {
                        agent_id = v;
                    } else if str_eq(t, "--db") {
                        db = Some(v);
                    } else {
                        match OutputMode::parse(v.as_str()) {
                            Some(md) => {
                                mode = md;
                            },
                            None => {
                                return Err(CliError { kind: CliErrorKind::InvalidValue, arg: v });
                            },
                        }
                    }
                    i = i + 2;
                } else {
                    return Err(CliError { kind: CliErrorKind::MissingValue, arg: toks[i].clone() });
                }
            } else if str_eq(t, "--help") || str_eq(t, "-h") {
                return Err(CliError { kind: CliErrorKind::HelpRequested, arg: toks[i].clone() });
            } else if is_dashed(t) {
                return Err(CliError { kind: CliErrorKind::UnknownArgument, arg: toks[i].clone() });
            } else {
                let (group, found) = group_tokens(&toks, i);
                return match command_from(&group) {
                    Ok(c) => Ok(Cli { json: json || found, agent_id, mode, db, command: c }),
                    Err(e) => Err(e),
                };
            }
        }
        Err(CliError { kind: CliErrorKind::MissingSubcommand, arg: String::from_str("engram") })
    }
}

} // verus!
