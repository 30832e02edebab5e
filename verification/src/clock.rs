//! The wall-clock source for audit timestamps.
//!
//! Timestamps are environmental: no two calls need agree, so nothing is
//! promised of the value and no contract of this crate depends on it.

use vstd::prelude::*;

verus! {

/// Relies on `chrono::Utc::now` for the current wall-clock time,
/// rendered as text. The value depends on the clock, so nothing is
/// promised of it.
#[verifier::external_body]
pub(crate) fn current_time_string() -> String {
    chrono::Utc::now().to_string()
}

} // verus!
