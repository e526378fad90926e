//! `history`: the change log.
use vstd::prelude::*;
use crate::cli::args::{cli_error, match_args, match_tokens, opt_views, tail_tokens, token_views, CliError, CliErrorKind, CliErrorView, MatchView, Matched, OptSpec, OptView};
use crate::cli::values::{rview, arg_text, arg_i64, opt_i64, i64_or, take_text, take_i64, take_opt_i64, take_i64_or, invalid_value};
use crate::text::str_eq;
use crate::enums::EntityType;

verus! {

/// Reads the entity type of a history query (missions are not queried here).
pub fn parse_entity_type(s: &str) -> (r: Result<EntityType, CliError>)
    ensures
        match r {
            Ok(v) => EntityType::from_name(s@) == Some(v) && (v == EntityType::Sprint || v == EntityType::Epic || v == EntityType::Issue || v == EntityType::Task || v == EntityType::Note),
            Err(e) => !(EntityType::from_name(s@) matches Some(v) && (v == EntityType::Sprint || v == EntityType::Epic || v == EntityType::Issue || v == EntityType::Task || v == EntityType::Note)) && e@ == invalid_value(s@),
        },
{
    match EntityType::parse(s) {
        Some(v) => match v {
            EntityType::Sprint | EntityType::Epic | EntityType::Issue | EntityType::Task | EntityType::Note => Ok(v),
            _ => Err(CliError { kind: CliErrorKind::InvalidValue, arg: String::from_str(s) }),
        },
        None => Err(CliError { kind: CliErrorKind::InvalidValue, arg: String::from_str(s) }),
    }
}

/// Arguments of the `history` command group.
#[derive(Clone, Debug)]
pub struct HistoryArgs {
    pub command: HistoryCommand,
}

impl View for HistoryArgs {
    type V = HistoryCommandView;

    open spec fn view(&self) -> HistoryCommandView {
        self.command@
    }
}

/// Subcommands of `history`.
#[derive(Clone, Debug)]
pub enum HistoryCommand {
    /// Recent changes.
    Recent {
        limit: i64,
        since_minutes: Option<i64>,
    },
    /// The changes of one entity, oldest first.
    For {
        entity_type: String,
        entity_id: i64,
    },
    /// Recent changes made by one agent.
    ByAgent {
        agent_id: String,
        limit: i64,
    },
}

/// The mathematical content of a [`HistoryCommand`]: texts as character sequences.
pub enum HistoryCommandView {
    Recent {
        limit: i64,
        since_minutes: Option<i64>,
    },
    For {
        entity_type: Seq<char>,
        entity_id: i64,
    },
    ByAgent {
        agent_id: Seq<char>,
        limit: i64,
    },
}

impl View for HistoryCommand {
    type V = HistoryCommandView;

    open spec fn view(&self) -> HistoryCommandView {
        match *self {
            HistoryCommand::Recent { limit, since_minutes } => HistoryCommandView::Recent { limit: limit, since_minutes: since_minutes },
            HistoryCommand::For { entity_type, entity_id } => HistoryCommandView::For { entity_type: entity_type@, entity_id: entity_id },
            HistoryCommand::ByAgent { agent_id, limit } => HistoryCommandView::ByAgent { agent_id: agent_id@, limit: limit },
        }
    }
}

/// The options of `history recent`.
pub open spec fn history_command_recent_options() -> Seq<OptView> {
    seq![OptView { name: "limit"@, takes_value: true }, OptView { name: "since-minutes"@, takes_value: true }]
}

fn history_command_recent_option_specs() -> (v: Vec<OptSpec>)
    ensures
        opt_views(v@) == history_command_recent_options(),
{
    let mut v: Vec<OptSpec> = Vec::new();
    v.push(OptSpec { name: "limit", takes_value: true });
    v.push(OptSpec { name: "since-minutes", takes_value: true });
    assert(opt_views(v@) =~= history_command_recent_options());
    v
}

/// The `recent` subcommand built from its matched arguments.
pub open spec fn history_command_recent_decode(m: MatchView) -> Result<HistoryCommandView, CliErrorView> {
    match i64_or(m, 0, 20i64) {
        Err(e) => Err(e),
        Ok(limit) => {
            match opt_i64(m, 1) {
                Err(e) => Err(e),
                Ok(since_minutes) => {
                    Ok(HistoryCommandView::Recent { limit, since_minutes })
                },
            }
        },
    }
}

fn history_command_recent_from(m: &Matched) -> (r: Result<HistoryCommand, CliError>)
    requires
        m.values@.len() == 2,
    ensures
        rview(r) == history_command_recent_decode(m@),
{
    let limit = match take_i64_or(m, 0, 20) {
        Ok(v) => v,
        Err(e) => {
            return Err(e);
        },
    };
    let since_minutes = match take_opt_i64(m, 1) {
        Ok(v) => v,
        Err(e) => {
            return Err(e);
        },
    };
    Ok(HistoryCommand::Recent { limit, since_minutes })
}

/// The options of `history for`.
pub open spec fn history_command_for_options() -> Seq<OptView> {
    seq![OptView { name: "entity-type"@, takes_value: true }, OptView { name: "entity-id"@, takes_value: true }]
}

fn history_command_for_option_specs() -> (v: Vec<OptSpec>)
    ensures
        opt_views(v@) == history_command_for_options(),
{
    let mut v: Vec<OptSpec> = Vec::new();
    v.push(OptSpec { name: "entity-type", takes_value: true });
    v.push(OptSpec { name: "entity-id", takes_value: true });
    assert(opt_views(v@) =~= history_command_for_options());
    v
}

/// The `for` subcommand built from its matched arguments.
pub open spec fn history_command_for_decode(m: MatchView) -> Result<HistoryCommandView, CliErrorView> {
    match arg_text(m, 0, "entity-type"@) {
        Err(e) => Err(e),
        Ok(entity_type) => {
            match arg_i64(m, 1, "entity-id"@) {
                Err(e) => Err(e),
                Ok(entity_id) => {
                    Ok(HistoryCommandView::For { entity_type, entity_id })
                },
            }
        },
    }
}

fn history_command_for_from(m: &Matched) -> (r: Result<HistoryCommand, CliError>)
    requires
        m.values@.len() == 2,
    ensures
        rview(r) == history_command_for_decode(m@),
{
    let entity_type = match take_text(m, 0, "entity-type") {
        Ok(v) => v,
        Err(e) => {
            return Err(e);
        },
    };
    let entity_id = match take_i64(m, 1, "entity-id") {
        Ok(v) => v,
        Err(e) => {
            return Err(e);
        },
    };
    Ok(HistoryCommand::For { entity_type, entity_id })
}

/// The options of `history by-agent`.
pub open spec fn history_command_by_agent_options() -> Seq<OptView> {
    seq![OptView { name: "agent-id"@, takes_value: true }, OptView { name: "limit"@, takes_value: true }]
}

fn history_command_by_agent_option_specs() -> (v: Vec<OptSpec>)
    ensures
        opt_views(v@) == history_command_by_agent_options(),
{
    let mut v: Vec<OptSpec> = Vec::new();
    v.push(OptSpec { name: "agent-id", takes_value: true });
    v.push(OptSpec { name: "limit", takes_value: true });
    assert(opt_views(v@) =~= history_command_by_agent_options());
    v
}

/// The `by-agent` subcommand built from its matched arguments.
pub open spec fn history_command_by_agent_decode(m: MatchView) -> Result<HistoryCommandView, CliErrorView> {
    match arg_text(m, 0, "agent-id"@) {
        Err(e) => Err(e),
        Ok(agent_id) => {
            match i64_or(m, 1, 50i64) {
                Err(e) => Err(e),
                Ok(limit) => {
                    Ok(HistoryCommandView::ByAgent { agent_id, limit })
                },
            }
        },
    }
}

fn history_command_by_agent_from(m: &Matched) -> (r: Result<HistoryCommand, CliError>)
    requires
        m.values@.len() == 2,
    ensures
        rview(r) == history_command_by_agent_decode(m@),
{
    let agent_id = match take_text(m, 0, "agent-id") {
        Ok(v) => v,
        Err(e) => {
            return Err(e);
        },
    };
    let limit = match take_i64_or(m, 1, 50) {
        Ok(v) => v,
        Err(e) => {
            return Err(e);
        },
    };
    Ok(HistoryCommand::ByAgent { agent_id, limit })
}

/// What `history` makes of its arguments: `argv[0]` is the program name,
/// `argv[1]` the subcommand, the rest its arguments.
pub open spec fn history_command_parse(argv: Seq<Seq<char>>) -> Result<HistoryCommandView, CliErrorView> {
    if argv.len() < 2 {
        Err(CliErrorView { kind: CliErrorKind::MissingSubcommand, arg: "history"@ })
    } else if argv[1] == "recent"@ {
        match match_args(argv.skip(2), history_command_recent_options(), false) {
            Ok(m) => history_command_recent_decode(m),
            Err(e) => Err(e),
        }
    } else if argv[1] == "for"@ {
        match match_args(argv.skip(2), history_command_for_options(), false) {
            Ok(m) => history_command_for_decode(m),
            Err(e) => Err(e),
        }
    } else if argv[1] == "by-agent"@ {
        match match_args(argv.skip(2), history_command_by_agent_options(), false) {
            Ok(m) => history_command_by_agent_decode(m),
            Err(e) => Err(e),
        }
    } else {
        Err(CliErrorView { kind: CliErrorKind::UnknownSubcommand, arg: argv[1] })
    }
}

impl HistoryCommand {
    /// Parses a `history` command line; see [`history_command_parse`].
    pub fn try_parse_from(argv: &Vec<String>) -> (r: Result<HistoryCommand, CliError>)
        ensures
            rview(r) == history_command_parse(token_views(argv@)),
    {
        if argv.len() < 2 {
            return Err(cli_error(CliErrorKind::MissingSubcommand, "history"));
        }
        let ghost tv = token_views(argv@);
        let sub = argv[1].as_str();
        assert(sub@ == tv[1]);
        if str_eq(sub, "recent") {
            let rest = tail_tokens(argv, 2);
            let opts = history_command_recent_option_specs();
            match match_tokens(&rest, &opts, false) {
                Ok(m) => history_command_recent_from(&m),
                Err(e) => Err(e),
            }
        } else if str_eq(sub, "for") {
            let rest = tail_tokens(argv, 2);
            let opts = history_command_for_option_specs();
            match match_tokens(&rest, &opts, false) {
                Ok(m) => history_command_for_from(&m),
                Err(e) => Err(e),
            }
        } else if str_eq(sub, "by-agent") {
            let rest = tail_tokens(argv, 2);
            let opts = history_command_by_agent_option_specs();
            match match_tokens(&rest, &opts, false) {
                Ok(m) => history_command_by_agent_from(&m),
                Err(e) => Err(e),
            }
        } else {
            Err(CliError { kind: CliErrorKind::UnknownSubcommand, arg: argv[1].clone() })
        }
    }
}

} // verus!
