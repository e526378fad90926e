//! `task`: the tasks of an issue.
use vstd::prelude::*;
use crate::cli::args::{cli_error, match_args, match_tokens, opt_views, tail_tokens, token_views, CliError, CliErrorKind, CliErrorView, MatchView, Matched, OptSpec, OptView};
use crate::cli::values::{rview, arg_text, opt_text, arg_i64, positional_i64, take_text, take_opt_text, take_i64, take_positional_i64, invalid_value};
use crate::models::opt_view;
use crate::text::str_eq;
use crate::enums::TaskStatus;

verus! {

/// Reads a task status by its wire name.
pub fn parse_task_status(s: &str) -> (r: Result<TaskStatus, CliError>)
    ensures
        match r {
            Ok(v) => TaskStatus::from_name(s@) == Some(v),
            Err(e) => TaskStatus::from_name(s@) is None && e@ == invalid_value(s@),
        },
{
    match TaskStatus::parse(s) {
        Some(v) => Ok(v),
        None => Err(CliError { kind: CliErrorKind::InvalidValue, arg: String::from_str(s) }),
    }
}

/// Arguments of the `task` command group.
#[derive(Clone, Debug)]
pub struct TaskArgs {
    pub command: TaskCommand,
}

impl View for TaskArgs {
    type V = TaskCommandView;

    open spec fn view(&self) -> TaskCommandView {
        self.command@
    }
}

/// Subcommands of `task`.
#[derive(Clone, Debug)]
pub enum TaskCommand {
    /// Creates a task.
    Create {
        issue: i64,
        title: String,
        goal: Option<String>,
    },
    /// Lists the tasks of an issue.
    List {
        issue: i64,
    },
    /// Finishes a task.
    Finish {
        id: i64,
    },
    /// The next task to work on.
    Next {
        project: Option<String>,
    },
    /// Changes a task.
    Update {
        id: i64,
        status: Option<String>,
        title: Option<String>,
    },
    /// Inserts a discovered task after another.
    InsertAfter {
        issue: i64,
        after_task_id: i64,
        title: String,
    },
}

/// The mathematical content of a [`TaskCommand`]: texts as character sequences.
pub enum TaskCommandView {
    Create {
        issue: i64,
        title: Seq<char>,
        goal: Option<Seq<char>>,
    },
    List {
        issue: i64,
    },
    Finish {
        id: i64,
    },
    Next {
        project: Option<Seq<char>>,
    },
    Update {
        id: i64,
        status: Option<Seq<char>>,
        title: Option<Seq<char>>,
    },
    InsertAfter {
        issue: i64,
        after_task_id: i64,
        title: Seq<char>,
    },
}

impl View for TaskCommand {
    type V = TaskCommandView;

    open spec fn view(&self) -> TaskCommandView {
        match *self {
            TaskCommand::Create { issue, title, goal } => TaskCommandView::Create { issue: issue, title: title@, goal: opt_view(goal) },
            TaskCommand::List { issue } => TaskCommandView::List { issue: issue },
            TaskCommand::Finish { id } => TaskCommandView::Finish { id: id },
            TaskCommand::Next { project } => TaskCommandView::Next { project: opt_view(project) },
            TaskCommand::Update { id, status, title } => TaskCommandView::Update { id: id, status: opt_view(status), title: opt_view(title) },
            TaskCommand::InsertAfter { issue, after_task_id, title } => TaskCommandView::InsertAfter { issue: issue, after_task_id: after_task_id, title: title@ },
        }
    }
}

/// The options of `task create`.
pub open spec fn task_command_create_options() -> Seq<OptView> {
    seq![OptView { name: "issue"@, takes_value: true }, OptView { name: "title"@, takes_value: true }, OptView { name: "goal"@, takes_value: true }]
}

fn task_command_create_option_specs() -> (v: Vec<OptSpec>)
    ensures
        opt_views(v@) == task_command_create_options(),
{
    let mut v: Vec<OptSpec> = Vec::new();
    v.push(OptSpec { name: "issue", takes_value: true });
    v.push(OptSpec { name: "title", takes_value: true });
    v.push(OptSpec { name: "goal", takes_value: true });
    assert(opt_views(v@) =~= task_command_create_options());
    v
}

/// The `create` subcommand built from its matched arguments.
pub open spec fn task_command_create_decode(m: MatchView) -> Result<TaskCommandView, CliErrorView> {
    match arg_i64(m, 0, "issue"@) {
        Err(e) => Err(e),
        Ok(issue) => {
            match arg_text(m, 1, "title"@) {
                Err(e) => Err(e),
                Ok(title) => {
                    let goal = opt_text(m, 2);
                    Ok(TaskCommandView::Create { issue, title, goal })
                },
            }
        },
    }
}

fn task_command_create_from(m: &Matched) -> (r: Result<TaskCommand, CliError>)
    requires
        m.values@.len() == 3,
    ensures
        rview(r) == task_command_create_decode(m@),
{
    let issue = match take_i64(m, 0, "issue") {
        Ok(v) => v,
        Err(e) => {
            return Err(e);
        },
    };
    let title = match take_text(m, 1, "title") {
        Ok(v) => v,
        Err(e) => {
            return Err(e);
        },
    };
    let goal = take_opt_text(m, 2);
    Ok(TaskCommand::Create { issue, title, goal })
}

/// The options of `task list`.
pub open spec fn task_command_list_options() -> Seq<OptView> {
    seq![OptView { name: "issue"@, takes_value: true }]
}

fn task_command_list_option_specs() -> (v: Vec<OptSpec>)
    ensures
        opt_views(v@) == task_command_list_options(),
{
    let mut v: Vec<OptSpec> = Vec::new();
    v.push(OptSpec { name: "issue", takes_value: true });
    assert(opt_views(v@) =~= task_command_list_options());
    v
}

/// The `list` subcommand built from its matched arguments.
pub open spec fn task_command_list_decode(m: MatchView) -> Result<TaskCommandView, CliErrorView> {
    match arg_i64(m, 0, "issue"@) {
        Err(e) => Err(e),
        Ok(issue) => {
            Ok(TaskCommandView::List { issue })
        },
    }
}

fn task_command_list_from(m: &Matched) -> (r: Result<TaskCommand, CliError>)
    requires
        m.values@.len() == 1,
    ensures
        rview(r) == task_command_list_decode(m@),
{
    let issue = match take_i64(m, 0, "issue") {
        Ok(v) => v,
        Err(e) => {
            return Err(e);
        },
    };
    Ok(TaskCommand::List { issue })
}

/// The options of `task finish`.
pub open spec fn task_command_finish_options() -> Seq<OptView> {
    Seq::empty()
}

fn task_command_finish_option_specs() -> (v: Vec<OptSpec>)
    ensures
        opt_views(v@) == task_command_finish_options(),
{
    let mut v: Vec<OptSpec> = Vec::new();
    assert(opt_views(v@) =~= task_command_finish_options());
    v
}

/// The `finish` subcommand built from its matched arguments.
pub open spec fn task_command_finish_decode(m: MatchView) -> Result<TaskCommandView, CliErrorView> {
    match positional_i64(m, "id"@) {
        Err(e) => Err(e),
        Ok(id) => {
            Ok(TaskCommandView::Finish { id })
        },
    }
}

fn task_command_finish_from(m: &Matched) -> (r: Result<TaskCommand, CliError>)
    requires
        m.values@.len() == 0,
    ensures
        rview(r) == task_command_finish_decode(m@),
{
    let id = match take_positional_i64(m, "id") {
        Ok(v) => v,
        Err(e) => {
            return Err(e);
        },
    };
    Ok(TaskCommand::Finish { id })
}

/// The options of `task next`.
pub open spec fn task_command_next_options() -> Seq<OptView> {
    seq![OptView { name: "project"@, takes_value: true }]
}

fn task_command_next_option_specs() -> (v: Vec<OptSpec>)
    ensures
        opt_views(v@) == task_command_next_options(),
{
    let mut v: Vec<OptSpec> = Vec::new();
    v.push(OptSpec { name: "project", takes_value: true });
    assert(opt_views(v@) =~= task_command_next_options());
    v
}

/// The `next` subcommand built from its matched arguments.
pub open spec fn task_command_next_decode(m: MatchView) -> Result<TaskCommandView, CliErrorView> {
    let project = opt_text(m, 0);
    Ok(TaskCommandView::Next { project })
}

fn task_command_next_from(m: &Matched) -> (r: Result<TaskCommand, CliError>)
    requires
        m.values@.len() == 1,
    ensures
        rview(r) == task_command_next_decode(m@),
{
    let project = take_opt_text(m, 0);
    Ok(TaskCommand::Next { project })
}

/// The options of `task update`.
pub open spec fn task_command_update_options() -> Seq<OptView> {
    seq![OptView { name: "status"@, takes_value: true }, OptView { name: "title"@, takes_value: true }]
}

fn task_command_update_option_specs() -> (v: Vec<OptSpec>)
    ensures
        opt_views(v@) == task_command_update_options(),
{
    let mut v: Vec<OptSpec> = Vec::new();
    v.push(OptSpec { name: "status", takes_value: true });
    v.push(OptSpec { name: "title", takes_value: true });
    assert(opt_views(v@) =~= task_command_update_options());
    v
}

/// The `update` subcommand built from its matched arguments.
pub open spec fn task_command_update_decode(m: MatchView) -> Result<TaskCommandView, CliErrorView> {
    match positional_i64(m, "id"@) {
        Err(e) => Err(e),
        Ok(id) => {
            let status = opt_text(m, 0);
            let title = opt_text(m, 1);
            Ok(TaskCommandView::Update { id, status, title })
        },
    }
}

fn task_command_update_from(m: &Matched) -> (r: Result<TaskCommand, CliError>)
    requires
        m.values@.len() == 2,
    ensures
        rview(r) == task_command_update_decode(m@),
{
    let id = match take_positional_i64(m, "id") {
        Ok(v) => v,
        Err(e) => {
            return Err(e);
        },
    };
    let status = take_opt_text(m, 0);
    let title = take_opt_text(m, 1);
    Ok(TaskCommand::Update { id, status, title })
}

/// The options of `task insert-after`.
pub open spec fn task_command_insert_after_options() -> Seq<OptView> {
    seq![OptView { name: "issue"@, takes_value: true }, OptView { name: "after"@, takes_value: true }, OptView { name: "title"@, takes_value: true }]
}

fn task_command_insert_after_option_specs() -> (v: Vec<OptSpec>)
    ensures
        opt_views(v@) == task_command_insert_after_options(),
{
    let mut v: Vec<OptSpec> = Vec::new();
    v.push(OptSpec { name: "issue", takes_value: true });
    v.push(OptSpec { name: "after", takes_value: true });
    v.push(OptSpec { name: "title", takes_value: true });
    assert(opt_views(v@) =~= task_command_insert_after_options());
    v
}

/// The `insert-after` subcommand built from its matched arguments.
pub open spec fn task_command_insert_after_decode(m: MatchView) -> Result<TaskCommandView, CliErrorView> {
    match arg_i64(m, 0, "issue"@) {
        Err(e) => Err(e),
        Ok(issue) => {
            match arg_i64(m, 1, "after"@) {
                Err(e) => Err(e),
                Ok(after_task_id) => {
                    match arg_text(m, 2, "title"@) {
                        Err(e) => Err(e),
                        Ok(title) => {
                            Ok(TaskCommandView::InsertAfter { issue, after_task_id, title })
                        },
                    }
                },
            }
        },
    }
}

fn task_command_insert_after_from(m: &Matched) -> (r: Result<TaskCommand, CliError>)
    requires
        m.values@.len() == 3,
    ensures
        rview(r) == task_command_insert_after_decode(m@),
{
    let issue = match take_i64(m, 0, "issue") {
        Ok(v) => v,
        Err(e) => {
            return Err(e);
        },
    };
    let after_task_id = match take_i64(m, 1, "after") {
        Ok(v) => v,
        Err(e) => {
            return Err(e);
        },
    };
    let title = match take_text(m, 2, "title") {
        Ok(v) => v,
        Err(e) => {
            return Err(e);
        },
    };
    Ok(TaskCommand::InsertAfter { issue, after_task_id, title })
}

/// What `task` makes of its arguments: `argv[0]` is the program name,
/// `argv[1]` the subcommand, the rest its arguments.
pub open spec fn task_command_parse(argv: Seq<Seq<char>>) -> Result<TaskCommandView, CliErrorView> {
    if argv.len() < 2 {
        Err(CliErrorView { kind: CliErrorKind::MissingSubcommand, arg: "task"@ })
    } else if argv[1] == "create"@ {
        match match_args(argv.skip(2), task_command_create_options(), false) {
            Ok(m) => task_command_create_decode(m),
            Err(e) => Err(e),
        }
    } else if argv[1] == "list"@ {
        match match_args(argv.skip(2), task_command_list_options(), false) {
            Ok(m) => task_command_list_decode(m),
            Err(e) => Err(e),
        }
    } else if argv[1] == "finish"@ {
        match match_args(argv.skip(2), task_command_finish_options(), true) {
            Ok(m) => task_command_finish_decode(m),
            Err(e) => Err(e),
        }
    } else if argv[1] == "next"@ {
        match match_args(argv.skip(2), task_command_next_options(), false) {
            Ok(m) => task_command_next_decode(m),
            Err(e) => Err(e),
        }
    } else if argv[1] == "update"@ {
        match match_args(argv.skip(2), task_command_update_options(), true) {
            Ok(m) => task_command_update_decode(m),
            Err(e) => Err(e),
        }
    } else if argv[1] == "insert-after"@ {
        match match_args(argv.skip(2), task_command_insert_after_options(), false) {
            Ok(m) => task_command_insert_after_decode(m),
            Err(e) => Err(e),
        }
    } else {
        Err(CliErrorView { kind: CliErrorKind::UnknownSubcommand, arg: argv[1] })
    }
}

impl TaskCommand {
    /// Parses a `task` command line; see [`task_command_parse`].
    pub fn try_parse_from(argv: &Vec<String>) -> (r: Result<TaskCommand, CliError>)
        ensures
            rview(r) == task_command_parse(token_views(argv@)),
    {
        if argv.len() < 2 {
            return Err(cli_error(CliErrorKind::MissingSubcommand, "task"));
        }
        let ghost tv = token_views(argv@);
        let sub = argv[1].as_str();
        assert(sub@ == tv[1]);
        if str_eq(sub, "create") {
            let rest = tail_tokens(argv, 2);
            let opts = task_command_create_option_specs();
            match match_tokens(&rest, &opts, false) {
                Ok(m) => task_command_create_from(&m),
                Err(e) => Err(e),
            }
        } else if str_eq(sub, "list") {
            let rest = tail_tokens(argv, 2);
            let opts = task_command_list_option_specs();
            match match_tokens(&rest, &opts, false) {
                Ok(m) => task_command_list_from(&m),
                Err(e) => Err(e),
            }
        } else if str_eq(sub, "finish") {
            let rest = tail_tokens(argv, 2);
            let opts = task_command_finish_option_specs();
            match match_tokens(&rest, &opts, true) {
                Ok(m) => task_command_finish_from(&m),
                Err(e) => Err(e),
            }
        } else if str_eq(sub, "next") {
            let rest = tail_tokens(argv, 2);
            let opts = task_command_next_option_specs();
            match match_tokens(&rest, &opts, false) {
                Ok(m) => task_command_next_from(&m),
                Err(e) => Err(e),
            }
        } else if str_eq(sub, "update") {
            let rest = tail_tokens(argv, 2);
            let opts = task_command_update_option_specs();
            match match_tokens(&rest, &opts, true) {
                Ok(m) => task_command_update_from(&m),
                Err(e) => Err(e),
            }
        } else if str_eq(sub, "insert-after") {
            let rest = tail_tokens(argv, 2);
            let opts = task_command_insert_after_option_specs();
            match match_tokens(&rest, &opts, false) {
                Ok(m) => task_command_insert_after_from(&m),
                Err(e) => Err(e),
            }
        } else {
            Err(CliError { kind: CliErrorKind::UnknownSubcommand, arg: argv[1].clone() })
        }
    }
}

} // verus!
