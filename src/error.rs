use vstd::prelude::*;

verus! {

/// Errors reported by the library.
#[derive(Debug, Clone, PartialEq, Eq)]
pub enum SmuError {
    /// The driver's directory, or one of its attribute files, does not exist.
    ModuleNotLoaded(String),
    /// An attribute file exists but may not be read by this user.
    PermissionDenied(String),
    /// No offset layout is known for this PM table version.
    UnsupportedPmTableVersion(u32),
    /// The processor family is not supported.
    UnsupportedProcessor(u32),
    /// The PM table is shorter than its layout and core count require.
    InvalidPmTableSize { expected: usize, actual: usize },
    /// Reading an attribute file failed; the text describes the failure.
    Io(String),
}

/// Result type of the library.
pub type Result<T> = core::result::Result<T, SmuError>;

} // verus!
