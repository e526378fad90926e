//! Engram: an issue tracker for agents — sprints, missions, epics, issues,
//! tasks and notes.
//!
//! This crate holds the tracker's rules and computations: the wire names of
//! its enumerations, the decisions behind every state change (who may move
//! an issue where, what the change log records), the blocking graph, the
//! session and board summaries, the agent text renderings and the
//! command-line grammar. Storage and printing live in the application.
use vstd::prelude::*;
use unicode_normalization::UnicodeNormalization;

pub mod text;
pub mod enums;
pub mod models;
pub mod issue_flow;
pub mod blocking;
pub mod cli;
pub mod session;
pub mod records;
pub mod notes;
pub mod query;
pub mod render;
pub mod retro;
pub mod planning;

verus! {

/// Errors of the tracker.
#[derive(Clone, Debug)]
pub enum Error {
    /// The storage failed.
    Db(String),
    /// The schema could not be brought up to date.
    Migration(String),
    /// The named record does not exist.
    NotFound(String),
    /// The request clashes with the current state (a held issue, a blocker,
    /// a status that forbids the move).
    Conflict(String),
    /// A state transition was refused.
    InvalidTransition(String),
    /// The request itself is malformed or not allowed for the caller.
    Validation(String),
}

/// The Unicode canonical composition (NFC) of a text.
pub uninterp spec fn nfc(s: Seq<char>) -> Seq<char>;

/// `UnicodeNormalization::nfc` of the `unicode-normalization` crate, collected
/// into a `String`: the canonical composition of `s`, which depends on `s` alone.
#[verifier::external_body]
fn nfc_string(s: &str) -> (r: String)
    ensures
        r@ == nfc(s@),
{
    s.nfc().collect()
}

/// `s` in Unicode normalization form C.
pub fn normalize_nfc(s: &str) -> (r: String)
    ensures
        r@ == nfc(s@),
{
    nfc_string(s)
}

/// The NFC form of an optional text; `None` stays `None`.
pub fn normalize_nfc_opt(s: Option<String>) -> (r: Option<String>)
    ensures
        s is None ==> r is None,
        s matches Some(v) ==> r matches Some(w) && w@ == nfc(v@),
{
    match s {
        Some(v) => Some(nfc_string(v.as_str())),
        None => None,
    }
}

} // verus!
