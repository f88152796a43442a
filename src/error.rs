//! The error taxonomy surfaced to callers.

use vstd::prelude::*;

verus! {

/// Declares `std::io::Error` as an opaque type, so that I/O failures met by
/// the caller can be carried, unexamined, inside `Error`.
#[verifier::external_type_specification]
#[verifier::external_body]
pub struct ExIoError(std::io::Error);

/// Declares `std::string::FromUtf8Error` as an opaque type: the error that
/// `String::from_utf8` returns, carried unexamined inside `Error`.
#[verifier::external_type_specification]
#[verifier::external_body]
pub struct ExFromUtf8Error(std::string::FromUtf8Error);

/// Every failure of a sandbox session. A non-zero exit of the sandboxed process
/// is not one of them: it travels in the response's `success` flag.
#[derive(Debug)]
pub enum Error {
    /// The temporary source file or output directory could not be created.
    UnableToCreateTempDir(std::io::Error),
    /// The submitted source could not be written into the workspace.
    UnableToCreateSourceFile(std::io::Error),
    /// The container engine could not be started at all.
    UnableToExecuteCompiler(std::io::Error),
    /// An artifact exists but could not be read.
    UnableToReadOutput(std::io::Error),
    /// Captured output or an artifact is not valid UTF-8.
    OutputNotUtf8(std::string::FromUtf8Error),
    /// An artifact that must exist after the run does not.
    OutputMissing,
}

} // verus!
