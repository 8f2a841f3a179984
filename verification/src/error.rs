//! The ways in which loading or saving the configuration can fail.

use vstd::prelude::*;

verus! {

/// Why an operation on the configuration store ended without success. Every
/// failure ends the operation: nothing is retried and nothing falls back to
/// the defaults.
#[derive(Clone, Copy, Debug, PartialEq, Eq, Structural)]
pub enum ConfigError {
    /// No configuration directory can be determined for this user and
    /// platform.
    PathResolution,
    /// A directory could not be created, or the file could not be read or
    /// written.
    Io,
    /// The file is there, but its content is not a valid record: it does not
    /// parse, or a parameter is missing or of the wrong kind.
    Decode,
}

} // verus!
