//! The error taxonomy of the tool. Every failure is terminal: the caller
//! prints the diagnostic and exits with the error's exit code.

use vstd::prelude::*;
use vstd::string::StringExecFns;

verus! {

/// The three command-line flags that must always be supplied.
#[derive(Clone, Copy, Debug, PartialEq, Eq, Structural)]
pub enum RequiredFlag {
    Url,
    Index,
    Query,
}

/// Why a run failed. Each variant is terminal; no recovery is attempted.
#[derive(Debug)]
pub enum EsError {
    /// A required command-line flag was absent.
    MissingArgument { flag: RequiredFlag },
    /// The query payload was not well-formed JSON.
    MalformedQuery { detail: String },
    /// The search endpoint could not be reached, or the request failed.
    TransportError { detail: String },
    /// The output file could not be created or written.
    FileWriteError { detail: String },
}

impl EsError {
    /// The process exit status that reports this error: 1 for a missing
    /// flag, and a distinct non-zero code for each later failure.
    pub open spec fn spec_exit_code(&self) -> i32 {
        match self {
            EsError::MissingArgument { .. } => 1,
            EsError::MalformedQuery { .. } => 2,
            EsError::TransportError { .. } => 3,
            EsError::FileWriteError { .. } => 4,
        }
    }

    pub fn exit_code(&self) -> (code: i32)
        ensures
            code == self.spec_exit_code(),
            code != 0,
    {
        match self {
            EsError::MissingArgument { .. } => 1,
            EsError::MalformedQuery { .. } => 2,
            EsError::TransportError { .. } => 3,
            EsError::FileWriteError { .. } => 4,
        }
    }
}

/// How a required flag is written on the command line, short and long form.
pub open spec fn spec_flag_text(flag: RequiredFlag) -> Seq<char> {
    match flag {
        RequiredFlag::Url => "-u/--url"@,
        RequiredFlag::Index => "-i/--index"@,
        RequiredFlag::Query => "-q/--query"@,
    }
}

pub fn flag_text(flag: RequiredFlag) -> (s: &'static str)
    ensures
        s@ == spec_flag_text(flag),
{
    match flag {
        RequiredFlag::Url => "-u/--url",
        RequiredFlag::Index => "-i/--index",
        RequiredFlag::Query => "-q/--query",
    }
}

impl EsError {
    /// The diagnostic printed for this error before the process exits.
    pub open spec fn spec_message(&self) -> Seq<char> {
        match self {
            EsError::MissingArgument { flag } => "missing required argument: "@ + spec_flag_text(
                *flag,
            ),
            EsError::MalformedQuery { detail } => "malformed query: "@ + detail@,
            EsError::TransportError { detail } => "transport error: "@ + detail@,
            EsError::FileWriteError { detail } => "cannot write output file: "@ + detail@,
        }
    }

    pub fn message(&self) -> (m: String)
        ensures
            m@ == self.spec_message(),
    {
        match self {
            EsError::MissingArgument { flag } => {
                let mut m = "missing required argument: ".to_owned();
                m.append(flag_text(*flag));
                m
            },
            EsError::MalformedQuery { detail } => {
                let mut m = "malformed query: ".to_owned();
                m.append(detail.as_str());
                m
            },
            EsError::TransportError { detail } => {
                let mut m = "transport error: ".to_owned();
                m.append(detail.as_str());
                m
            },
            EsError::FileWriteError { detail } => {
                let mut m = "cannot write output file: ".to_owned();
                m.append(detail.as_str());
                m
            },
        }
    }
}

/// A missing required flag always exits with status 1.
pub proof fn lemma_missing_argument_exits_one(e: &EsError)
    requires
        e matches EsError::MissingArgument { .. },
    ensures
        e.spec_exit_code() == 1,
{
}

/// Every error is terminal: whatever failed, the process exit status is
/// never the success status 0.
pub proof fn lemma_every_error_is_fatal(e: &EsError)
    ensures
        e.spec_exit_code() != 0,
{
}

} // verus!
