//! Recovery helpers: carry on after a failure (which the caller logs).

use vstd::prelude::*;
use crate::utilities::{log_error, MerixError};

verus! {

/// Recovers from a failure described by `err` by handing back `fallback`.
pub fn log_and_recover<T>(err: &str, fallback: T) -> (r: T)
    ensures
        r == fallback,
{
    let _ = log_error(err);
    fallback
}

/// Continues after a failure described by `err`: always succeeds.
pub fn log_and_continue(err: &str) -> (r: Result<(), MerixError>)
    ensures
        r is Ok,
{
    let _ = log_error(err);
    Ok(())
}

} // verus!
