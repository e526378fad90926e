//! `note`: notes on issues, tasks and broader scopes.
use vstd::prelude::*;
use crate::cli::args::{cli_error, match_args, match_tokens, opt_views, tail_tokens, token_views, CliError, CliErrorKind, CliErrorView, MatchView, Matched, OptSpec, OptView};
use crate::cli::values::{rview, arg_text, opt_text, switch_on, opt_i64, i64_or, positional_i64, take_text, take_opt_text, take_switch, take_opt_i64, take_i64_or, take_positional_i64, invalid_value};
use crate::models::opt_view;
use crate::text::str_eq;
use crate::enums::{NoteScope, NoteType};

verus! {

/// The note type of a new note: any text that is not one of the known
/// types (`evaluation` included) gives `context`.
pub open spec fn note_type_or_context(s: Seq<char>) -> NoteType {
    match NoteType::from_name(s) {
        Some(NoteType::Evaluation) => NoteType::Context,
        Some(t) => t,
        None => NoteType::Context,
    }
}

/// Reads the type of a new note; see [`note_type_or_context`].
pub fn parse_note_type(s: &str) -> (r: NoteType)
    ensures
        r == note_type_or_context(s@),
{
    match NoteType::parse(s) {
        Some(NoteType::Evaluation) => NoteType::Context,
        Some(t) => t,
        None => NoteType::Context,
    }
}

/// Reads the note type a listing is filtered by (not `evaluation`).
pub fn parse_note_type_filter(s: &str) -> (r: Result<NoteType, CliError>)
    ensures
        match r {
            Ok(v) => NoteType::from_name(s@) == Some(v) && (v == NoteType::Caveat || v == NoteType::Decision || v == NoteType::Discovery || v == NoteType::BlockerDetail || v == NoteType::Context || v == NoteType::Reference || v == NoteType::Comment),
            Err(e) => !(NoteType::from_name(s@) matches Some(v) && (v == NoteType::Caveat || v == NoteType::Decision || v == NoteType::Discovery || v == NoteType::BlockerDetail || v == NoteType::Context || v == NoteType::Reference || v == NoteType::Comment)) && e@ == invalid_value(s@),
        },
{
    match NoteType::parse(s) {
        Some(v) => match v {
            NoteType::Caveat | NoteType::Decision | NoteType::Discovery | NoteType::BlockerDetail | NoteType::Context | NoteType::Reference | NoteType::Comment => Ok(v),
            _ => Err(CliError { kind: CliErrorKind::InvalidValue, arg: String::from_str(s) }),
        },
        None => Err(CliError { kind: CliErrorKind::InvalidValue, arg: String::from_str(s) }),
    }
}

/// Reads a note scope by its wire name.
pub fn parse_scope(s: &str) -> (r: Result<NoteScope, CliError>)
    ensures
        match r {
            Ok(v) => NoteScope::from_name(s@) == Some(v),
            Err(e) => NoteScope::from_name(s@) is None && e@ == invalid_value(s@),
        },
{
    match NoteScope::parse(s) {
        Some(v) => Ok(v),
        None => Err(CliError { kind: CliErrorKind::InvalidValue, arg: String::from_str(s) }),
    }
}

/// Arguments of the `note` command group.
#[derive(Clone, Debug)]
pub struct NoteArgs {
    pub command: NoteCommand,
}

impl View for NoteArgs {
    type V = NoteCommandView;

    open spec fn view(&self) -> NoteCommandView {
        self.command@
    }
}

/// Subcommands of `note`.
#[derive(Clone, Debug)]
pub enum NoteCommand {
    /// Adds a note.
    Add {
        issue: i64,
        task: Option<i64>,
        note_type: String,
        summary: String,
        detail: Option<String>,
        scope: Option<String>,
        scope_target_id: Option<i64>,
        project_key: Option<String>,
        author: Option<String>,
        agent_id: Option<String>,
    },
    /// Lists notes.
    List {
        issue: Option<i64>,
        task: Option<i64>,
        note_type: Option<String>,
        include_resolved: bool,
        include_detail: bool,
    },
    /// Marks a note resolved.
    Resolve {
        id: i64,
    },
    /// Shows one note with its detail.
    Get {
        id: i64,
        compact: bool,
    },
}

/// The mathematical content of a [`NoteCommand`]: texts as character sequences.
pub enum NoteCommandView {
    Add {
        issue: i64,
        task: Option<i64>,
        note_type: Seq<char>,
        summary: Seq<char>,
        detail: Option<Seq<char>>,
        scope: Option<Seq<char>>,
        scope_target_id: Option<i64>,
        project_key: Option<Seq<char>>,
        author: Option<Seq<char>>,
        agent_id: Option<Seq<char>>,
    },
    List {
        issue: Option<i64>,
        task: Option<i64>,
        note_type: Option<Seq<char>>,
        include_resolved: bool,
        include_detail: bool,
    },
    Resolve {
        id: i64,
    },
    Get {
        id: i64,
        compact: bool,
    },
}

impl View for NoteCommand {
    type V = NoteCommandView;

    open spec fn view(&self) -> NoteCommandView {
        match *self {
            NoteCommand::Add { issue, task, note_type, summary, detail, scope, scope_target_id, project_key, author, agent_id } => NoteCommandView::Add { issue: issue, task: task, note_type: note_type@, summary: summary@, detail: opt_view(detail), scope: opt_view(scope), scope_target_id: scope_target_id, project_key: opt_view(project_key), author: opt_view(author), agent_id: opt_view(agent_id) },
            NoteCommand::List { issue, task, note_type, include_resolved, include_detail } => NoteCommandView::List { issue: issue, task: task, note_type: opt_view(note_type), include_resolved: include_resolved, include_detail: include_detail },
            NoteCommand::Resolve { id } => NoteCommandView::Resolve { id: id },
            NoteCommand::Get { id, compact } => NoteCommandView::Get { id: id, compact: compact },
        }
    }
}

/// The options of `note add`.
pub open spec fn note_command_add_options() -> Seq<OptView> {
    seq![OptView { name: "issue"@, takes_value: true }, OptView { name: "task"@, takes_value: true }, OptView { name: "type"@, takes_value: true }, OptView { name: "summary"@, takes_value: true }, OptView { name: "detail"@, takes_value: true }, OptView { name: "scope"@, takes_value: true }, OptView { name: "scope-target-id"@, takes_value: true }, OptView { name: "project-key"@, takes_value: true }, OptView { name: "author"@, takes_value: true }, OptView { name: "agent-id"@, takes_value: true }]
}

fn note_command_add_option_specs() -> (v: Vec<OptSpec>)
    ensures
        opt_views(v@) == note_command_add_options(),
{
    let mut v: Vec<OptSpec> = Vec::new();
    v.push(OptSpec { name: "issue", takes_value: true });
    v.push(OptSpec { name: "task", takes_value: true });
    v.push(OptSpec { name: "type", takes_value: true });
    v.push(OptSpec { name: "summary", takes_value: true });
    v.push(OptSpec { name: "detail", takes_value: true });
    v.push(OptSpec { name: "scope", takes_value: true });
    v.push(OptSpec { name: "scope-target-id", takes_value: true });
    v.push(OptSpec { name: "project-key", takes_value: true });
    v.push(OptSpec { name: "author", takes_value: true });
    v.push(OptSpec { name: "agent-id", takes_value: true });
    assert(opt_views(v@) =~= note_command_add_options());
    v
}

/// The `add` subcommand built from its matched arguments.
pub open spec fn note_command_add_decode(m: MatchView) -> Result<NoteCommandView, CliErrorView> {
    match i64_or(m, 0, 0i64) {
        Err(e) => Err(e),
        Ok(issue) => {
            match opt_i64(m, 1) {
                Err(e) => Err(e),
                Ok(task) => {
                    match arg_text(m, 2, "type"@) {
                        Err(e) => Err(e),
                        Ok(note_type) => {
                            match arg_text(m, 3, "summary"@) {
                                Err(e) => Err(e),
                                Ok(summary) => {
                                    let detail = opt_text(m, 4);
                                    let scope = opt_text(m, 5);
                                    match opt_i64(m, 6) {
                                        Err(e) => Err(e),
                                        Ok(scope_target_id) => {
                                            let project_key = opt_text(m, 7);
                                            let author = opt_text(m, 8);
                                            let agent_id = opt_text(m, 9);
                                            Ok(NoteCommandView::Add { issue, task, note_type, summary, detail, scope, scope_target_id, project_key, author, agent_id })
                                        },
                                    }
                                },
                            }
                        },
                    }
                },
            }
        },
    }
}

fn note_command_add_from(m: &Matched) -> (r: Result<NoteCommand, CliError>)
    requires
        m.values@.len() == 10,
    ensures
        rview(r) == note_command_add_decode(m@),
{
    let issue = match take_i64_or(m, 0, 0) {
        Ok(v) => v,
        Err(e) => {
            return Err(e);
        },
    };
    let task = match take_opt_i64(m, 1) {
        Ok(v) => v,
        Err(e) => {
            return Err(e);
        },
    };
    let note_type = match take_text(m, 2, "type") {
        Ok(v) => v,
        Err(e) => {
            return Err(e);
        },
    };
    let summary = match take_text(m, 3, "summary") {
        Ok(v) => v,
        Err(e) => {
            return Err(e);
        },
    };
    let detail = take_opt_text(m, 4);
    let scope = take_opt_text(m, 5);
    let scope_target_id = match take_opt_i64(m, 6) {
        Ok(v) => v,
        Err(e) => {
            return Err(e);
        },
    };
    let project_key = take_opt_text(m, 7);
    let author = take_opt_text(m, 8);
    let agent_id = take_opt_text(m, 9);
    Ok(NoteCommand::Add { issue, task, note_type, summary, detail, scope, scope_target_id, project_key, author, agent_id })
}

/// The options of `note list`.
pub open spec fn note_command_list_options() -> Seq<OptView> {
    seq![OptView { name: "issue"@, takes_value: true }, OptView { name: "task"@, takes_value: true }, OptView { name: "type"@, takes_value: true }, OptView { name: "include-resolved"@, takes_value: false }, OptView { name: "include-detail"@, takes_value: false }]
}

fn note_command_list_option_specs() -> (v: Vec<OptSpec>)
    ensures
        opt_views(v@) == note_command_list_options(),
{
    let mut v: Vec<OptSpec> = Vec::new();
    v.push(OptSpec { name: "issue", takes_value: true });
    v.push(OptSpec { name: "task", takes_value: true });
    v.push(OptSpec { name: "type", takes_value: true });
    v.push(OptSpec { name: "include-resolved", takes_value: false });
    v.push(OptSpec { name: "include-detail", takes_value: false });
    assert(opt_views(v@) =~= note_command_list_options());
    v
}

/// The `list` subcommand built from its matched arguments.
pub open spec fn note_command_list_decode(m: MatchView) -> Result<NoteCommandView, CliErrorView> {
    match opt_i64(m, 0) {
        Err(e) => Err(e),
        Ok(issue) => {
            match opt_i64(m, 1) {
                Err(e) => Err(e),
                Ok(task) => {
                    let note_type = opt_text(m, 2);
                    let include_resolved = switch_on(m, 3);
                    let include_detail = switch_on(m, 4);
                    Ok(NoteCommandView::List { issue, task, note_type, include_resolved, include_detail })
                },
            }
        },
    }
}

fn note_command_list_from(m: &Matched) -> (r: Result<NoteCommand, CliError>)
    requires
        m.values@.len() == 5,
    ensures
        rview(r) == note_command_list_decode(m@),
{
    let issue = match take_opt_i64(m, 0) {
        Ok(v) => v,
        Err(e) => {
            return Err(e);
        },
    };
    let task = match take_opt_i64(m, 1) {
        Ok(v) => v,
        Err(e) => {
            return Err(e);
        },
    };
    let note_type = take_opt_text(m, 2);
    let include_resolved = take_switch(m, 3);
    let include_detail = take_switch(m, 4);
    Ok(NoteCommand::List { issue, task, note_type, include_resolved, include_detail })
}

/// The options of `note resolve`.
pub open spec fn note_command_resolve_options() -> Seq<OptView> {
    Seq::empty()
}

fn note_command_resolve_option_specs() -> (v: Vec<OptSpec>)
    ensures
        opt_views(v@) == note_command_resolve_options(),
{
    let mut v: Vec<OptSpec> = Vec::new();
    assert(opt_views(v@) =~= note_command_resolve_options());
    v
}

/// The `resolve` subcommand built from its matched arguments.
pub open spec fn note_command_resolve_decode(m: MatchView) -> Result<NoteCommandView, CliErrorView> {
    match positional_i64(m, "id"@) {
        Err(e) => Err(e),
        Ok(id) => {
            Ok(NoteCommandView::Resolve { id })
        },
    }
}

fn note_command_resolve_from(m: &Matched) -> (r: Result<NoteCommand, CliError>)
    requires
        m.values@.len() == 0,
    ensures
        rview(r) == note_command_resolve_decode(m@),
{
    let id = match take_positional_i64(m, "id") {
        Ok(v) => v,
        Err(e) => {
            return Err(e);
        },
    };
    Ok(NoteCommand::Resolve { id })
}

/// The options of `note get`.
pub open spec fn note_command_get_options() -> Seq<OptView> {
    seq![OptView { name: "compact"@, takes_value: false }]
}

fn note_command_get_option_specs() -> (v: Vec<OptSpec>)
    ensures
        opt_views(v@) == note_command_get_options(),
{
    let mut v: Vec<OptSpec> = Vec::new();
    v.push(OptSpec { name: "compact", takes_value: false });
    assert(opt_views(v@) =~= note_command_get_options());
    v
}

/// The `get` subcommand built from its matched arguments.
pub open spec fn note_command_get_decode(m: MatchView) -> Result<NoteCommandView, CliErrorView> {
    match positional_i64(m, "id"@) {
        Err(e) => Err(e),
        Ok(id) => {
            let compact = switch_on(m, 0);
            Ok(NoteCommandView::Get { id, compact })
        },
    }
}

fn note_command_get_from(m: &Matched) -> (r: Result<NoteCommand, CliError>)
    requires
        m.values@.len() == 1,
    ensures
        rview(r) == note_command_get_decode(m@),
{
    let id = match take_positional_i64(m, "id") {
        Ok(v) => v,
        Err(e) => {
            return Err(e);
        },
    };
    let compact = take_switch(m, 0);
    Ok(NoteCommand::Get { id, compact })
}

/// What `note` makes of its arguments: `argv[0]` is the program name,
/// `argv[1]` the subcommand, the rest its arguments.
pub open spec fn note_command_parse(argv: Seq<Seq<char>>) -> Result<NoteCommandView, CliErrorView> {
    if argv.len() < 2 {
        Err(CliErrorView { kind: CliErrorKind::MissingSubcommand, arg: "note"@ })
    } else if argv[1] == "add"@ {
        match match_args(argv.skip(2), note_command_add_options(), false) {
            Ok(m) => note_command_add_decode(m),
            Err(e) => Err(e),
        }
    } else if argv[1] == "list"@ {
        match match_args(argv.skip(2), note_command_list_options(), false) {
            Ok(m) => note_command_list_decode(m),
            Err(e) => Err(e),
        }
    } else if argv[1] == "resolve"@ {
        match match_args(argv.skip(2), note_command_resolve_options(), true) {
            Ok(m) => note_command_resolve_decode(m),
            Err(e) => Err(e),
        }
    } else if argv[1] == "get"@ {
        match match_args(argv.skip(2), note_command_get_options(), true) {
            Ok(m) => note_command_get_decode(m),
            Err(e) => Err(e),
        }
    } else {
        Err(CliErrorView { kind: CliErrorKind::UnknownSubcommand, arg: argv[1] })
    }
}

impl NoteCommand {
    /// Parses a `note` command line; see [`note_command_parse`].
    pub fn try_parse_from(argv: &Vec<String>) -> (r: Result<NoteCommand, CliError>)
        ensures
            rview(r) == note_command_parse(token_views(argv@)),
    {
        if argv.len() < 2 {
            return Err(cli_error(CliErrorKind::MissingSubcommand, "note"));
        }
        let ghost tv = token_views(argv@);
        let sub = argv[1].as_str();
        assert(sub@ == tv[1]);
        if str_eq(sub, "add") {
            let rest = tail_tokens(argv, 2);
            let opts = note_command_add_option_specs();
            match match_tokens(&rest, &opts, false) {
                Ok(m) => note_command_add_from(&m),
                Err(e) => Err(e),
            }
        } else if str_eq(sub, "list") {
            let rest = tail_tokens(argv, 2);
            let opts = note_command_list_option_specs();
            match match_tokens(&rest, &opts, false) {
                Ok(m) => note_command_list_from(&m),
                Err(e) => Err(e),
            }
        } else if str_eq(sub, "resolve") {
            let rest = tail_tokens(argv, 2);
            let opts = note_command_resolve_option_specs();
            match match_tokens(&rest, &opts, true) {
                Ok(m) => note_command_resolve_from(&m),
                Err(e) => Err(e),
            }
        } else if str_eq(sub, "get") {
            let rest = tail_tokens(argv, 2);
            let opts = note_command_get_option_specs();
            match match_tokens(&rest, &opts, true) {
                Ok(m) => note_command_get_from(&m),
                Err(e) => Err(e),
            }
        } else {
            Err(CliError { kind: CliErrorKind::UnknownSubcommand, arg: argv[1].clone() })
        }
    }
}

} // verus!
