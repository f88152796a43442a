//! The result extractor and the assembly of typed responses from what a
//! finished process left behind.

use vstd::prelude::*;
use vstd::utf8::{decode_utf8, valid_utf8};

use crate::error::Error;
use crate::model::{ClippyResponse, CompileResponse, ExecuteResponse, FormatResponse};

verus! {

/// The text that a byte sequence encodes, if it is well-formed UTF-8.
pub open spec fn text_of(b: Seq<u8>) -> Option<Seq<char>> {
    if valid_utf8(b) {
        Some(decode_utf8(b))
    } else {
        None
    }
}

/// Relies on `String::from_utf8`: it succeeds exactly on well-formed UTF-8 and
/// then holds the characters that the bytes encode.
#[verifier::external_body]
fn decode_utf8_bytes(v: Vec<u8>) -> (r: Result<String, std::string::FromUtf8Error>)
    ensures
        match r {
            Ok(s) => text_of(v@) == Some(s@),
            Err(_) => text_of(v@) is None,
        },
{
    String::from_utf8(v)
}

/// Decodes captured bytes as text; bytes that are not UTF-8 are an error, never
/// silently truncated.
pub fn vec_to_str(v: Vec<u8>) -> (r: Result<String, Error>)
    ensures
        match r {
            Ok(s) => text_of(v@) == Some(s@),
            Err(e) => text_of(v@) is None && e is OutputNotUtf8,
        },
{
    match decode_utf8_bytes(v) {
        Ok(s) => Ok(s),
        Err(e) => Err(Error::OutputNotUtf8(e)),
    }
}

/// What the sandboxed process handed back, as plain values: whether it exited
/// successfully, and its captured standard output and error.
pub struct ProcessOutput {
    pub success: bool,
    pub stdout: Vec<u8>,
    pub stderr: Vec<u8>,
}

/// The outcome of trying to read an artifact file.
pub enum ArtifactRead {
    /// The file was read whole.
    Found(Vec<u8>),
    /// There is no such file.
    NotFound,
    /// The file exists, or may exist, but reading it failed.
    Failed(std::io::Error),
}

/// Both captured streams are valid text.
pub open spec fn streams_ok(o: ProcessOutput) -> bool {
    text_of(o.stdout@) is Some && text_of(o.stderr@) is Some
}

/// The captured streams, decoded, land unchanged in the response's fields.
pub open spec fn streams_match(o: ProcessOutput, stdout: Seq<char>, stderr: Seq<char>) -> bool {
    text_of(o.stdout@) == Some(stdout) && text_of(o.stderr@) == Some(stderr)
}

/// Reading the artifact gives no error: it is absent, or it is valid text.
pub open spec fn artifact_ok(a: ArtifactRead) -> bool {
    match a {
        ArtifactRead::Found(b) => text_of(b@) is Some,
        ArtifactRead::NotFound => true,
        ArtifactRead::Failed(_) => false,
    }
}

pub open spec fn text_view(t: Option<String>) -> Option<Seq<char>> {
    match t {
        Some(s) => Some(s@),
        None => None,
    }
}

/// What the extractor yields for an artifact that gives no error.
pub open spec fn artifact_text(a: ArtifactRead) -> Option<Seq<char>> {
    match a {
        ArtifactRead::Found(b) => text_of(b@),
        _ => None,
    }
}

/// The error that reading an artifact gives: a failed read keeps its cause, and
/// a file that is not text is an encoding error.
pub open spec fn artifact_error(a: ArtifactRead, e: Error) -> bool {
    match a {
        ArtifactRead::Failed(io) => e == Error::UnableToReadOutput(io),
        _ => e is OutputNotUtf8,
    }
}

/// The result extractor: an absent artifact is no error, a present one must be
/// readable text.
pub fn extract_artifact(a: ArtifactRead) -> (r: Result<Option<String>, Error>)
    ensures
        match r {
            Ok(t) => artifact_ok(a) && text_view(t) == artifact_text(a),
            Err(e) => !artifact_ok(a) && artifact_error(a, e),
        },
{
    match a {
        ArtifactRead::Found(b) => match vec_to_str(b) {
            Ok(s) => Ok(Some(s)),
            Err(e) => Err(e),
        },
        ArtifactRead::NotFound => Ok(None),
        ArtifactRead::Failed(e) => Err(Error::UnableToReadOutput(e)),
    }
}

/// Decodes both captured streams, standard output first.
fn decode_streams(stdout: Vec<u8>, stderr: Vec<u8>) -> (r: Result<(String, String), Error>)
    ensures
        match r {
            Ok((o, e)) => text_of(stdout@) == Some(o@) && text_of(stderr@) == Some(e@),
            Err(e) => !(text_of(stdout@) is Some && text_of(stderr@) is Some) && e is OutputNotUtf8,
        },
{
    let o = match vec_to_str(stdout) {
        Ok(o) => o,
        Err(e) => return Err(e),
    };
    let e = match vec_to_str(stderr) {
        Ok(e) => e,
        Err(e) => return Err(e),
    };
    Ok((o, e))
}

/// A compilation's response: the artifact's text (empty if there is none) and
/// the decoded streams. The artifact is examined first.
pub fn compile_response(output: ProcessOutput, artifact: ArtifactRead) -> (r: Result<
    CompileResponse,
    Error,
>)
    ensures
        match r {
            Ok(resp) => {
                &&& artifact_ok(artifact) && streams_ok(output)
                &&& resp.success == output.success
                &&& resp.code@ == match artifact_text(artifact) {
                    Some(t) => t,
                    None => Seq::empty(),
                }
                &&& streams_match(output, resp.stdout@, resp.stderr@)
            },
            Err(e) => !(artifact_ok(artifact) && streams_ok(output)) && if artifact_ok(artifact) {
                e is OutputNotUtf8
            } else {
                artifact_error(artifact, e)
            },
        },
{
    let ProcessOutput { success, stdout, stderr } = output;
    let code = match extract_artifact(artifact) {
        Ok(Some(c)) => c,
        Ok(None) => String::new(),
        Err(e) => return Err(e),
    };
    match decode_streams(stdout, stderr) {
        Ok((stdout, stderr)) => Ok(CompileResponse { success, code, stdout, stderr }),
        Err(e) => Err(e),
    }
}

/// An execution's response: the decoded streams, unchanged.
pub fn execute_response(output: ProcessOutput) -> (r: Result<ExecuteResponse, Error>)
    ensures
        match r {
            Ok(resp) => streams_ok(output) && resp.success == output.success && streams_match(
                output,
                resp.stdout@,
                resp.stderr@,
            ),
            Err(e) => !streams_ok(output) && e is OutputNotUtf8,
        },
{
    let ProcessOutput { success, stdout, stderr } = output;
    match decode_streams(stdout, stderr) {
        Ok((stdout, stderr)) => Ok(ExecuteResponse { success, stdout, stderr }),
        Err(e) => Err(e),
    }
}

/// A formatting run's response. The formatter rewrites the source file in
/// place, so that file must still be there: its absence is an error.
pub fn format_response(output: ProcessOutput, rewritten: ArtifactRead) -> (r: Result<
    FormatResponse,
    Error,
>)
    ensures
        match r {
            Ok(resp) => {
                &&& rewritten is Found && artifact_ok(rewritten) && streams_ok(output)
                &&& resp.success == output.success
                &&& artifact_text(rewritten) == Some(resp.code@)
                &&& streams_match(output, resp.stdout@, resp.stderr@)
            },
            Err(e) => !(rewritten is Found && artifact_ok(rewritten) && streams_ok(output)) && if rewritten is NotFound {
                e is OutputMissing
            } else if artifact_ok(rewritten) {
                e is OutputNotUtf8
            } else {
                artifact_error(rewritten, e)
            },
        },
{
    let ProcessOutput { success, stdout, stderr } = output;
    let code = match extract_artifact(rewritten) {
        Ok(Some(c)) => c,
        Ok(None) => return Err(Error::OutputMissing),
        Err(e) => return Err(e),
    };
    match decode_streams(stdout, stderr) {
        Ok((stdout, stderr)) => Ok(FormatResponse { success, code, stdout, stderr }),
        Err(e) => Err(e),
    }
}

/// A lint run's response: the decoded streams, unchanged.
pub fn clippy_response(output: ProcessOutput) -> (r: Result<ClippyResponse, Error>)
    ensures
        match r {
            Ok(resp) => streams_ok(output) && resp.success == output.success && streams_match(
                output,
                resp.stdout@,
                resp.stderr@,
            ),
            Err(e) => !streams_ok(output) && e is OutputNotUtf8,
        },
{
    let ProcessOutput { success, stdout, stderr } = output;
    match decode_streams(stdout, stderr) {
        Ok((stdout, stderr)) => Ok(ClippyResponse { success, stdout, stderr }),
        Err(e) => Err(e),
    }
}

} // verus!
