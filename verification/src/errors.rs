//! The library's own error values.
//!
//! Environment and configuration failures are reported immediately and
//! never retried; each variant names one such condition exactly.

use vstd::prelude::*;
use vstd::string::*;

verus! {

/// A failure of the controller itself, as opposed to a structured error
/// reported by the server.
#[derive(PartialEq, Eq, Structural, Clone, Copy, Debug)]
pub enum FrameworkError {
    /// A `--features` flag stood last in the cargo argument list, with no
    /// feature list following it.
    MissingFeatureList,
    /// The introspective query returned no row, so no session identity can
    /// be derived and the correlation guarantee cannot be upheld.
    MissingSessionIdentity,
}

impl FrameworkError {
    /// A human-readable account of the failure.
    pub fn describe(&self) -> (r: String)
        ensures
            *self == FrameworkError::MissingFeatureList ==> r@
                == "no `--features` specified in the cargo argument list"@,
            *self == FrameworkError::MissingSessionIdentity ==> r@
                == "Failed to obtain a client Session ID from Postgres"@,
    {
        match self {
            FrameworkError::MissingFeatureList => "no `--features` specified in the cargo argument list".to_owned(),
            FrameworkError::MissingSessionIdentity => "Failed to obtain a client Session ID from Postgres".to_owned(),
        }
    }
}

} // verus!
