//! The command line's decisions: the logging level that the flags ask for
//! and the log filter it stands for.

use vstd::prelude::*;

verus! {

/// A logging severity level.
#[derive(Clone, Copy, Debug, PartialEq, Eq, Structural)]
pub enum LogLevel {
    /// Standard information level (the default).
    Info,
    /// Detailed debug information.
    Debug,
    /// Maximum verbosity for troubleshooting.
    Trace,
}

/// The level that `--log-level` and the count of `-v` flags ask for:
/// trace if either asks for it (two or more `-v`), else debug if either
/// asks for it (one `-v`), else info.
pub open spec fn effective_level_spec(log_level: LogLevel, verbose: u8) -> LogLevel {
    if log_level == LogLevel::Trace || verbose >= 2 {
        LogLevel::Trace
    } else if log_level == LogLevel::Debug || verbose == 1 {
        LogLevel::Debug
    } else {
        LogLevel::Info
    }
}

/// The verbosity of a level: info 0, debug 1, trace 2.
pub open spec fn level_rank(level: LogLevel) -> int {
    match level {
        LogLevel::Info => 0,
        LogLevel::Debug => 1,
        LogLevel::Trace => 2,
    }
}

/// The verbosity that a count of `-v` flags asks for: one per flag, up to
/// trace.
pub open spec fn verbose_rank(verbose: u8) -> int {
    if verbose >= 2 { 2 } else { verbose as int }
}

/// The level that the flags ask for: the more verbose of the two requests.
pub fn effective_level(log_level: LogLevel, verbose: u8) -> (l: LogLevel)
    ensures
        l == effective_level_spec(log_level, verbose),
        level_rank(l) == (if level_rank(log_level) >= verbose_rank(verbose) {
            level_rank(log_level)
        } else {
            verbose_rank(verbose)
        }),
        l == LogLevel::Trace <==> (log_level == LogLevel::Trace || verbose >= 2),
        verbose == 0 ==> l == log_level,
        verbose == 1 && log_level != LogLevel::Trace ==> l == LogLevel::Debug,
{
    match (log_level, verbose) {
        (LogLevel::Trace, _) => LogLevel::Trace,
        (_, v) if v >= 2 => LogLevel::Trace,
        (LogLevel::Debug, _) => LogLevel::Debug,
        (_, 1) => LogLevel::Debug,
        _ => LogLevel::Info,
    }
}

/// The lowercase name of a level.
pub open spec fn level_name_spec(level: LogLevel) -> Seq<char> {
    match level {
        LogLevel::Info => "info"@,
        LogLevel::Debug => "debug"@,
        LogLevel::Trace => "trace"@,
    }
}

/// The lowercase name of a level, as the command line and filters write it.
pub fn level_name(level: LogLevel) -> (s: &'static str)
    ensures
        s@ == level_name_spec(level),
{
    proof {
        reveal_strlit("info");
        reveal_strlit("debug");
        reveal_strlit("trace");
    }
    match level {
        LogLevel::Info => "info",
        LogLevel::Debug => "debug",
        LogLevel::Trace => "trace",
    }
}

/// The log filter that sets both the runtime's and the command line's
/// targets to a level: `merix=<level>,merix_cli=<level>`.
pub open spec fn filter_spec(level: LogLevel) -> Seq<char> {
    "merix="@ + level_name_spec(level) + ",merix_cli="@ + level_name_spec(level)
}

/// The log filter for a level.
pub fn default_filter(level: LogLevel) -> (f: String)
    ensures
        f@ == filter_spec(level),
{
    proof {
        reveal_strlit("merix=");
        reveal_strlit(",merix_cli=");
    }
    let name = level_name(level);
    let mut f = "merix=".to_owned();
    f.append(name);
    f.append(",merix_cli=");
    f.append(name);
    f
}


/// The level is the more verbose of the two requests, never their sum:
/// its verbosity is the larger of `--log-level`'s and the `-v` count's.
pub proof fn lemma_level_is_the_larger_request(log_level: LogLevel, verbose: u8)
    ensures
        level_rank(effective_level_spec(log_level, verbose)) == (if level_rank(log_level) >= verbose_rank(verbose) {
            level_rank(log_level)
        } else {
            verbose_rank(verbose)
        }),
        effective_level_spec(log_level, verbose) == LogLevel::Trace <==> (log_level == LogLevel::Trace || verbose >= 2),
        verbose == 0 ==> effective_level_spec(log_level, verbose) == log_level,
        verbose == 1 && log_level != LogLevel::Trace ==> effective_level_spec(log_level, verbose) == LogLevel::Debug,
{
}

} // verus!
