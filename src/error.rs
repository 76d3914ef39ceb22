//! The failures that a handler meets on its way to a response.
use vstd::prelude::*;

verus! {

/// What went wrong in one step of a handler. Every one of them ends in a
/// response: none escapes the handler.
#[derive(Debug, Clone, Copy, PartialEq, Eq, Structural)]
pub enum TaskError {
    /// The storage directory could not be listed.
    DirectoryRead,
    /// A task could not be written out as JSON.
    Serialization,
    /// Stored text is not a JSON object holding the three task fields as strings.
    Deserialization,
    /// A task file could not be opened or created.
    FileOpen,
    /// A task file could not be written or read through.
    FileWrite,
    /// A task file could not be removed.
    FileRemove,
}

} // verus!
