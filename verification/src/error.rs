//! The failures a session reports, and the text each one carries.

use vstd::prelude::*;
use vstd::string::StringExecFns;

verus! {

/// Why an entry's source could not be turned into bytes.
///
/// Each variant holds the description that the operating system gave.
#[derive(Debug, Clone, PartialEq, Eq)]
pub enum SourceFailure {
    /// The source could not be opened.
    Open(String),
    /// The source was opened, but reading it to its end failed.
    Read(String),
}

/// A failed operation of the session.
///
/// Every variant is the same kind of failure to a caller, an I/O failure that
/// carries a message; the variants keep apart where it arose. The `String` of
/// a variant is the description that the failing layer gave.
#[derive(Debug, Clone, PartialEq, Eq)]
pub enum SessionError {
    /// The file at a path destination could not be created.
    Destination(String),
    /// A stream destination lacks an operation that the sink needs.
    Capability(String),
    /// An entry was to be written after the session had been closed.
    Closed,
    /// The source of an entry could not be opened.
    SourceOpen(String),
    /// The source of an entry could not be read.
    SourceRead(String),
    /// The name of an entry is longer than the container can record.
    NameTooLong,
    /// The codec refused to begin the entry.
    StartEntry(String),
    /// The codec failed while it took the bytes read from a source.
    WriteFile(String),
    /// The codec failed while it took the bytes of a buffer.
    WriteBytes(String),
    /// The codec failed to write the container's trailing index.
    Finish(String),
}

impl SessionError {
    /// The message of this failure: for a failure of the destination the
    /// description alone, for a closed session and for a name that is too
    /// long a fixed sentence, and for the others a prefix that names the
    /// step, followed by the description.
    pub open spec fn message_spec(self) -> Seq<char> {
        match self {
            SessionError::Destination(detail) => detail@,
            SessionError::Capability(detail) => detail@,
            SessionError::Closed => "ZipWriter is closed"@,
            SessionError::SourceOpen(detail) => "Failed to open source file: "@ + detail@,
            SessionError::SourceRead(detail) => "Failed to read source file: "@ + detail@,
            SessionError::NameTooLong => "Failed to start file entry: name is too long"@,
            SessionError::StartEntry(detail) => "Failed to start file entry: "@ + detail@,
            SessionError::WriteFile(detail) => "Failed to write file data: "@ + detail@,
            SessionError::WriteBytes(detail) => "Failed to write data: "@ + detail@,
            SessionError::Finish(detail) => "Failed to finish ZIP file: "@ + detail@,
        }
    }

    /// Builds the message that a caller is shown.
    pub fn message(&self) -> (text: String)
        ensures
            text@ == self.message_spec(),
    {
        match self {
            SessionError::Destination(detail) => detail.clone(),
            SessionError::Capability(detail) => detail.clone(),
            SessionError::Closed => String::from_str("ZipWriter is closed"),
            SessionError::SourceOpen(detail) => String::from_str(
                "Failed to open source file: ",
            ).concat(detail.as_str()),
            SessionError::SourceRead(detail) => String::from_str(
                "Failed to read source file: ",
            ).concat(detail.as_str()),
            SessionError::NameTooLong => String::from_str(
                "Failed to start file entry: name is too long",
            ),
            SessionError::StartEntry(detail) => String::from_str(
                "Failed to start file entry: ",
            ).concat(detail.as_str()),
            SessionError::WriteFile(detail) => String::from_str(
                "Failed to write file data: ",
            ).concat(detail.as_str()),
            SessionError::WriteBytes(detail) => String::from_str("Failed to write data: ").concat(
                detail.as_str(),
            ),
            SessionError::Finish(detail) => String::from_str("Failed to finish ZIP file: ").concat(
                detail.as_str(),
            ),
        }
    }
}

/// Turns a failed source into the session's failure, the description kept.
pub fn source_error(failure: SourceFailure) -> (error: SessionError)
    ensures
        error == match failure {
            SourceFailure::Open(detail) => SessionError::SourceOpen(detail),
            SourceFailure::Read(detail) => SessionError::SourceRead(detail),
        },
{
    match failure {
        SourceFailure::Open(detail) => SessionError::SourceOpen(detail),
        SourceFailure::Read(detail) => SessionError::SourceRead(detail),
    }
}

} // verus!
