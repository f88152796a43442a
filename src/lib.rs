//! Orchestration logic for running untrusted code inside a disposable container:
//! the request and response model, the exact argument vectors handed to the
//! container engine, and the translation of a finished process into a typed
//! response.

pub mod command;
pub mod error;
pub mod laws;
pub mod model;
pub mod response;

pub use command::{build_execution_command, CommandBuilder};
pub use error::Error;
pub use model::{
    Channel, ClippyRequest, ClippyResponse, CompileRequest, CompileResponse, CompileTarget,
    ExecuteRequest, ExecuteResponse, FormatRequest, FormatResponse, Mode,
};
pub use response::{
    clippy_response, compile_response, execute_response, extract_artifact, format_response,
    vec_to_str, ArtifactRead, ProcessOutput,
};
