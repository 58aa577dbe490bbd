//! The wall clock, used to stamp tasks.

use vstd::prelude::*;

verus! {

/// Relies on chrono::Local::now and chrono::DateTime::format: the local time
/// as "%Y-%m-%d %H:%M:%S". It depends on when it is called, so nothing is
/// promised of it.
#[verifier::external_body]
pub(crate) fn current_timestamp() -> (r: String) {
    chrono::Local::now().format("%Y-%m-%d %H:%M:%S").to_string()
}

} // verus!
