//! Typed, recoverable errors for every operational failure the engine
//! can report.  Each variant carries enough context (a path, a source
//! string, a function name) for the caller to log or retry.

use vstd::prelude::*;

verus! {

/// The kind of an engine-reported operational failure.
#[derive(Debug, Clone, PartialEq, Eq)]
pub enum ClipsErrorKind {
    /// The engine could not allocate a new runtime instance.
    CreateEnvironmentError,
    /// The engine failed to clear its constructs.
    ClearError,
    /// The engine rejected rule source given as a string; carries that source.
    LoadFromStringError(String),
    /// The engine failed to remove the named user-defined function.
    RemoveUDFError(String),
    /// The engine failed to batch-execute the named command file.
    BatchStarError(String),
    /// The engine could not open the rule file at the carried path.
    LoadOpenFileError(String),
    /// The engine could not parse the rule file at the carried path.
    LoadParsingError(String),
    /// Registration of the named user-defined function asked for a
    /// minimum argument count above the maximum.
    AddUDFMinExceedsMaxError(String),
    /// The name of the user-defined function is already taken.
    AddUDFFunctionNameInUseError(String),
    /// The engine rejected an argument type constraint of the named
    /// user-defined function.
    AddUDFInvalidArgumentTypeError(String),
    /// The engine rejected the return type constraint of the named
    /// user-defined function.
    AddUDFInvalidReturnTypeError(String),
}

/// An error surfaced to the host.
#[derive(Debug, Clone, PartialEq, Eq)]
pub struct ClipsError {
    pub kind: ClipsErrorKind,
}

impl From<ClipsErrorKind> for ClipsError {
    fn from(kind: ClipsErrorKind) -> (r: Self) {
        ClipsError { kind }
    }
}

impl vstd::std_specs::convert::FromSpecImpl<ClipsErrorKind> for ClipsError {
    open spec fn obeys_from_spec() -> bool {
        true
    }

    open spec fn from_spec(kind: ClipsErrorKind) -> ClipsError {
        ClipsError { kind }
    }
}

} // verus!
