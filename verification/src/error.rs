//! The failures that the library reports.

use vstd::prelude::*;

verus! {

/// Why an operation of the library failed. Each variant carries the text
/// that it failed on, or a description of what went wrong.
#[derive(Debug, Clone)]
pub enum ReleaserError {
    PyPiError(String),
    BuildoutParseError(String),
    ConfigError(String),
    /// A text that is no version.
    VersionError(String),
    /// A text that is no constraint, or the part of it that is none.
    ConstraintError(String),
}

} // verus!
