//! Shared helpers: the runtime's error value and its recovery helpers, and
//! the decisions behind the project-wide configuration.

pub mod config;
pub mod recovery;

use vstd::prelude::*;

verus! {

/// An error carrying its message.
#[derive(Clone, Debug)]
pub struct MerixError {
    pub message: String,
}

impl MerixError {
    /// The error's message.
    pub fn to_string(&self) -> (s: String)
        ensures
            s@ == self.message@,
    {
        self.message.clone()
    }
}

/// The error for a failure described by `err` (the caller logs it at
/// error level).
pub fn log_error(err: &str) -> (e: MerixError)
    ensures
        e.message@ == err@,
{
    MerixError { message: err.to_owned() }
}

/// Where logs go, as the caller configures it.
#[derive(Clone, Debug)]
pub struct LogConfig {
    /// A directory that overrides the one chosen by `MerixConfig`.
    pub log_dir: Option<String>,
}

} // verus!
