//! Well-known directories of the host environment, as plain strings.
//!
//! The answers depend on the machine and the user's environment, so the
//! contracts promise nothing of them; callers state what holds whatever
//! comes back.

use vstd::prelude::*;

verus! {

/// Relies on dirs::home_dir; the result depends on the environment, so
/// nothing is promised of it.
#[verifier::external_body]
pub fn home_dir() -> (r: Option<String>) {
    dirs::home_dir().map(|p| p.to_string_lossy().into_owned())
}

/// Relies on dirs::document_dir; the result depends on the environment,
/// so nothing is promised of it.
#[verifier::external_body]
pub fn document_dir() -> (r: Option<String>) {
    dirs::document_dir().map(|p| p.to_string_lossy().into_owned())
}

/// Relies on dirs::download_dir; the result depends on the environment,
/// so nothing is promised of it.
#[verifier::external_body]
pub fn download_dir() -> (r: Option<String>) {
    dirs::download_dir().map(|p| p.to_string_lossy().into_owned())
}

} // verus!
