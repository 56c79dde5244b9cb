//! A small library behind a command-line search client: it resolves the
//! command-line flags into an invocation, prepares a single search request
//! from them, and materializes the response either as console text or as the
//! verbatim bytes of an output file.

pub mod args;
pub mod errors;
pub mod output;
pub mod query;
