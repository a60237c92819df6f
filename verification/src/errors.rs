//! The failures that an operation of the store reports.

use vstd::prelude::*;

verus! {

/// The step of a file access that the operating system refused.
#[derive(Clone, Copy, Debug, PartialEq, Eq, Structural)]
pub enum IoFailure {
    /// The backing file could not be opened for reading.
    Open,
    /// The backing file was opened, but could not be read to its end.
    Read,
    /// The backing file could not be created or truncated.
    Create,
    /// The backing file was created, but the text could not be written.
    Write,
}

/// Why an operation of the store failed.
#[derive(Debug)]
pub enum StoreError {
    /// A file access failed at the operating system.
    Io(IoFailure),
    /// The file's text is not an encoding of the expected value.
    Decode(serde_json::Error),
    /// The value could not be encoded.
    Encode(serde_json::Error),
    /// The lock was poisoned: an earlier holder panicked inside it.
    Lock,
}

/// What [`StoreError::message`] returns, as a sequence of characters.
pub open spec fn message_of(e: StoreError) -> Seq<char> {
    match e {
        StoreError::Io(IoFailure::Open) => "Failed to open file"@,
        StoreError::Io(IoFailure::Read) => "Failed to read file"@,
        StoreError::Io(IoFailure::Create) => "Failed to create file"@,
        StoreError::Io(IoFailure::Write) => "Failed to write to file"@,
        StoreError::Decode(_) => "Deserialize error"@,
        StoreError::Encode(_) => "Failed to serialize"@,
        StoreError::Lock => "failed to lock"@,
    }
}

impl StoreError {
    /// A short description of the failure, without its cause.
    pub fn message(&self) -> (text: String)
        ensures
            text@ == message_of(*self),
    {
        match self {
            StoreError::Io(IoFailure::Open) => "Failed to open file".to_string(),
            StoreError::Io(IoFailure::Read) => "Failed to read file".to_string(),
            StoreError::Io(IoFailure::Create) => "Failed to create file".to_string(),
            StoreError::Io(IoFailure::Write) => "Failed to write to file".to_string(),
            StoreError::Decode(_) => "Deserialize error".to_string(),
            StoreError::Encode(_) => "Failed to serialize".to_string(),
            StoreError::Lock => "failed to lock".to_string(),
        }
    }
}

} // verus!
