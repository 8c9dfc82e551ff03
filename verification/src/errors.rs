//! Structured classification of configuration and per-call failures.
//!
//! Every failure a caller can observe is one of a fixed taxonomy, so that a
//! script-raised exception, a resource ceiling, a guest fault and a malformed
//! boundary payload can each be reacted to differently — never by matching
//! free-text messages.

use vstd::prelude::*;

verus! {

/// The structured cause of a call stopped by a resource ceiling.
///
/// Running out of guest memory and exceeding the wall-clock ceiling are
/// distinct causes: callers may retry one and not the other.
#[derive(Clone, Copy, Debug, PartialEq, Eq, Structural)]
pub enum ResourceLimitError {
    /// A guest memory-growth request was refused by the memory ceiling.
    OutOfMemory,
    /// The call's tick budget reached zero before the guest finished.
    TimeLimitExceeded,
}

/// Why no engine could be built. Fatal to construction only: nothing of a
/// partially built engine survives.
#[derive(Debug, PartialEq, Eq)]
pub enum ConfigurationError {
    /// The time ceiling affords zero whole poll ticks (the ceiling is shorter
    /// than the poll interval, or the poll interval is zero), so the time
    /// limit could never fire. Rejected here, never at call time.
    ZeroTickBudget,
    /// The computed tick budget does not fit the 32-bit deadline counter.
    TickBudgetTooLarge,
    /// No guest module was supplied to build the engine from.
    MissingModule,
    /// The runtime refused the engine configuration.
    Engine(String),
    /// The supplied guest module bytes did not compile.
    InvalidModule(String),
}

/// Why one call failed. Fatal to that call only: the engine remains valid
/// for later calls.
#[derive(Debug, PartialEq, Eq)]
pub enum ExecutionError {
    /// A configuration fault surfaced at call time. This is a defensive
    /// recheck of conditions that engine construction already rejects.
    Configuration(String),
    /// The guest trapped or broke the call protocol.
    GuestFault(String),
    /// A resource ceiling stopped the call.
    ResourceLimit(ResourceLimitError),
    /// The script itself raised an exception; carries the script's own
    /// error description.
    Script(String),
    /// A buffer crossing the host/guest boundary was not valid UTF-8, or a
    /// supplied data payload was not valid JSON.
    Transcoding(String),
}

/// The mathematical value of an [`ExecutionError`]: messages as character
/// sequences.
pub enum ErrorModel {
    Configuration(Seq<char>),
    GuestFault(Seq<char>),
    ResourceLimit(ResourceLimitError),
    Script(Seq<char>),
    Transcoding(Seq<char>),
}

impl View for ExecutionError {
    type V = ErrorModel;

    open spec fn view(&self) -> ErrorModel {
        match self {
            ExecutionError::Configuration(m) => ErrorModel::Configuration(m@),
            ExecutionError::GuestFault(m) => ErrorModel::GuestFault(m@),
            ExecutionError::ResourceLimit(c) => ErrorModel::ResourceLimit(*c),
            ExecutionError::Script(m) => ErrorModel::Script(m@),
            ExecutionError::Transcoding(m) => ErrorModel::Transcoding(m@),
        }
    }
}

} // verus!
