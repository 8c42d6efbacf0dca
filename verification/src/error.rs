//! The ways in which a recording can fail.

use vstd::prelude::*;

verus! {

/// Every failure ends the recording: none is retried and none is ignored.
#[derive(Clone, Copy, Debug, PartialEq, Eq, Structural)]
pub enum RecordError {
    /// The audio graph could not be reached, or answered with a status flag set.
    Connection,
    /// The audio graph rejected one of the two input ports.
    PortRegistration,
    /// The audio graph does not offer exactly two output ports.
    NoOutputPorts,
    /// A source port could not be wired to its input port.
    PortConnection,
    /// The container could not be created.
    FileCreation,
    /// A sample pair could not be written to the container.
    Write,
    /// The container could not be flushed.
    Flush,
    /// The lock around the container is unusable.
    Lock,
}

impl RecordError {
    /// The diagnostic message of an error: the operation that failed.
    pub open spec fn message(&self) -> Seq<char> {
        match self {
            RecordError::Connection => "cannot open a session on the audio graph"@,
            RecordError::PortRegistration => "cannot register an input port"@,
            RecordError::NoOutputPorts =>
                "the audio graph does not offer exactly two output ports"@,
            RecordError::PortConnection => "cannot connect a source to its input port"@,
            RecordError::FileCreation => "cannot create the recording file"@,
            RecordError::Write => "cannot write to the recording file"@,
            RecordError::Flush => "cannot flush the recording file"@,
            RecordError::Lock => "the lock around the recording file is unusable"@,
        }
    }

    /// The diagnostic message that is logged before the process ends.
    pub fn describe(&self) -> (text: &'static str)
        ensures
            text@ == self.message(),
    {
        match self {
            RecordError::Connection => "cannot open a session on the audio graph",
            RecordError::PortRegistration => "cannot register an input port",
            RecordError::NoOutputPorts => "the audio graph does not offer exactly two output ports",
            RecordError::PortConnection => "cannot connect a source to its input port",
            RecordError::FileCreation => "cannot create the recording file",
            RecordError::Write => "cannot write to the recording file",
            RecordError::Flush => "cannot flush the recording file",
            RecordError::Lock => "the lock around the recording file is unusable",
        }
    }
}

} // verus!
