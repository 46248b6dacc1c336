//! What the entry point settles at load time: the registration record under
//! which the host engine is asked to install the scalar function, and the
//! status code handed back to the host for each way the load can end.

use vstd::prelude::*;

verus! {

/// The host's status code for a successful extension load.
pub const STATUS_OK: i32 = 0;

/// The host's generic-error status code, returned for every failed load.
pub const STATUS_GENERIC_ERROR: i32 = 1;

/// The record under which the host is asked to install the scalar function.
pub struct FunctionRegistration {
    /// The SQL-level name of the function.
    pub name: &'static str,
    /// How many arguments the host accepts for it.
    pub arity: i32,
    /// Text reaches the function in UTF-8 encoding only.
    pub utf8_only: bool,
    /// The result depends on the arguments alone, with no side effects, so
    /// the host's planner may cache results or reorder calls.
    pub deterministic: bool,
}

/// The one registration record this extension ever uses: the two-argument,
/// UTF-8-only, deterministic scalar function `hamming_distance`.
pub fn hamming_registration() -> (r: FunctionRegistration)
    ensures
        r.name@ == "hamming_distance"@,
        r.arity == 2,
        r.utf8_only,
        r.deterministic,
{
    FunctionRegistration { name: "hamming_distance", arity: 2, utf8_only: true, deterministic: true }
}

/// How one attempt to load the extension into a session ended.
#[derive(Clone, Copy, Debug, PartialEq, Eq, Structural)]
pub enum LoadOutcome {
    /// The connection was adopted and the function registered: every later
    /// statement on that connection may call `hamming_distance`.
    Loaded,
    /// The raw connection handle could not be adopted; nothing was
    /// registered.
    ConnectionBindingFailure,
    /// The host rejected the registration; no fallback name is attempted.
    RegistrationFailure,
}

impl LoadOutcome {
    /// The status code for the host: success exactly for a completed load,
    /// and the generic error code for either failure.
    pub fn status_code(&self) -> (r: i32)
        ensures
            r == STATUS_OK <==> *self is Loaded,
            !(*self is Loaded) ==> r == STATUS_GENERIC_ERROR,
    {
        match self {
            LoadOutcome::Loaded => STATUS_OK,
            LoadOutcome::ConnectionBindingFailure => STATUS_GENERIC_ERROR,
            LoadOutcome::RegistrationFailure => STATUS_GENERIC_ERROR,
        }
    }
}

} // verus!
