//! Short names for the error-reporting library's result types, and a
//! one-time installer for its process-wide report hooks.

use vstd::prelude::*;

verus! {

#[verifier::external_type_specification]
#[verifier::external_body]
pub struct ExReport(color_eyre::eyre::Report);

/// Short name for a result whose failure case is an error report.
pub type R<T> = Result<T, color_eyre::eyre::Report>;

/// Short name for `R<()>`.
pub type U = R<()>;

/// Installs the process-wide colorized panic and error report hooks.
///
/// Relies on `color_eyre::install`: it succeeds at most once per process;
/// a second call, or one made after another hook or theme was already set,
/// returns an error report instead of panicking.  Whether it succeeds
/// depends only on that process-global state, so no more is promised here.
#[verifier::external_body]
pub fn init() -> U {
    color_eyre::install()
}

} // verus!
