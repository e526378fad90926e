//! How outcomes are reported: the output format, and the code, message and
//! exit status of each failure.
use vstd::prelude::*;
use crate::Error;

verus! {

/// The output format of the command line.
#[derive(Clone, Copy, Debug, PartialEq, Eq, Structural)]
pub enum OutputFormat {
    /// One compact JSON value per line, nothing else on stdout.
    Json,
    /// Indented JSON for people.
    Pretty,
}

impl OutputFormat {
    /// `Json` when the `--json` flag was given, `Pretty` otherwise.
    pub fn from_flags(json: bool) -> (r: OutputFormat)
        ensures
            r == (if json { OutputFormat::Json } else { OutputFormat::Pretty }),
    {
        if json {
            OutputFormat::Json
        } else {
            OutputFormat::Pretty
        }
    }
}

/// A failed command: an error of the tracker, or any other failure with its
/// message.
#[derive(Clone, Debug)]
pub enum Failure {
    Core(Error),
    Other(String),
}

/// The code under which a failure is reported.
pub open spec fn failure_code(f: Failure) -> Seq<char> {
    match f {
        Failure::Core(Error::Validation(_)) => "validation"@,
        Failure::Core(Error::NotFound(_)) => "not_found"@,
        Failure::Core(Error::Conflict(_)) => "invalid_transition"@,
        Failure::Core(Error::InvalidTransition(_)) => "invalid_transition"@,
        _ => "internal"@,
    }
}

/// The message under which a failure is reported: the bare message of a
/// refused request, the labelled one of a storage failure.
pub open spec fn failure_message(f: Failure) -> Seq<char> {
    match f {
        Failure::Core(Error::Validation(m)) => m@,
        Failure::Core(Error::NotFound(m)) => m@,
        Failure::Core(Error::Conflict(m)) => m@,
        Failure::Core(Error::InvalidTransition(m)) => m@,
        Failure::Core(Error::Db(m)) => "Database error: "@ + m@,
        Failure::Core(Error::Migration(m)) => "Migration error: "@ + m@,
        Failure::Other(m) => m@,
    }
}

/// The exit status of a failure: 2 for a malformed request, 3 for a missing
/// record, 4 for a refused transition, 1 for anything else.
pub open spec fn failure_exit_code(f: Failure) -> i32 {
    match f {
        Failure::Core(Error::Validation(_)) => 2,
        Failure::Core(Error::NotFound(_)) => 3,
        Failure::Core(Error::Conflict(_)) => 4,
        Failure::Core(Error::InvalidTransition(_)) => 4,
        _ => 1,
    }
}

fn labelled(label: &str, m: &String) -> (r: String)
    ensures
        r@ == label@ + m@,
{
    let mut s = String::from_str(label);
    crate::text::push_str(&mut s, m.as_str());
    s
}

/// The code and message of a failure.
pub fn classify_error(err: &Failure) -> (r: (&'static str, String))
    ensures
        r.0@ == failure_code(*err),
        r.1@ == failure_message(*err),
{
    match err {
        Failure::Core(Error::Validation(m)) => ("validation", m.clone()),
        Failure::Core(Error::NotFound(m)) => ("not_found", m.clone()),
        Failure::Core(Error::Conflict(m)) => ("invalid_transition", m.clone()),
        Failure::Core(Error::InvalidTransition(m)) => ("invalid_transition", m.clone()),
        Failure::Core(Error::Db(m)) => ("internal", labelled("Database error: ", m)),
        Failure::Core(Error::Migration(m)) => ("internal", labelled("Migration error: ", m)),
        Failure::Other(m) => ("internal", m.clone()),
    }
}

/// The exit status of a failure; see [`failure_exit_code`].
pub fn error_exit_code(err: &Failure) -> (r: i32)
    ensures
        r == failure_exit_code(*err),
{
    match err {
        Failure::Core(Error::Validation(_)) => 2,
        Failure::Core(Error::NotFound(_)) => 3,
        Failure::Core(Error::Conflict(_)) => 4,
        Failure::Core(Error::InvalidTransition(_)) => 4,
        _ => 1,
    }
}

/// The line that reports a failure to people: `error[CODE]: MESSAGE`.
pub fn error_text(err: &Failure) -> (r: String)
    ensures
        r@ == "error["@ + failure_code(*err) + "]: "@ + failure_message(*err),
{
    let (code, message) = classify_error(err);
    let mut s = String::from_str("error[");
    crate::text::push_str(&mut s, code);
    crate::text::push_str(&mut s, "]: ");
    crate::text::push_str(&mut s, message.as_str());
    proof {
        assert("error["@ + failure_code(*err) + "]: "@ + failure_message(*err)
            =~= ((("error["@ + code@) + "]: "@) + message@));
    }
    s
}

} // verus!
