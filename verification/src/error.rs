//! The errors that the library reports.

use vstd::prelude::*;

verus! {

/// What a request can fail with.
#[derive(Clone, Copy, Debug, PartialEq, Eq, Structural)]
pub enum MirakcError {
    /// There is no recorder of that name, or nothing has been recorded yet.
    RecordNotFound,
    /// The recorder holds no record of that identifier.
    ProgramNotFound,
    /// The requested position is not inside the record.
    OutOfRange,
    /// A command template cannot be compiled or rendered.
    InvalidTemplate,
    /// A value cannot be handed to a command template.
    InvalidTemplateValue,
    /// The tuner gives no stream for the requested channel.
    TunerUnavailable,
    /// A command of the recording pipeline cannot be started.
    PipelineFailed,
    /// The output of a recording command cannot be read.
    UnreadableReport,
    /// A recording command has reported something that is not a known message.
    InvalidReport,
}

} // verus!
