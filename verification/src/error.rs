//! The fatal conditions a profiling run can end with.

use vstd::prelude::*;

verus! {

/// A condition that cannot be recovered from locally: the caller logs it and
/// stops the process.
#[derive(Clone, Copy, Debug, PartialEq, Eq, Structural)]
pub enum ProfilingError {
    /// The guarded constructor of a primitive instance ran more than once.
    DoubleInitialization,
    /// A hardware facility that the active profiling target needs was never
    /// configured.
    UnavailableResource,
}

impl ProfilingError {
    /// The text of the record that is logged before the process halts.
    pub fn describe(&self) -> (text: &'static str)
        ensures
            text@ == describe_spec(*self),
    {
        match self {
            ProfilingError::DoubleInitialization => "multiple initialization of a primitive instance",
            ProfilingError::UnavailableResource => "required hardware resource not configured",
        }
    }
}

/// The description of each condition.
pub open spec fn describe_spec(e: ProfilingError) -> Seq<char> {
    match e {
        ProfilingError::DoubleInitialization => "multiple initialization of a primitive instance"@,
        ProfilingError::UnavailableResource => "required hardware resource not configured"@,
    }
}

} // verus!
