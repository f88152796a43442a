//! The closed enumerations that parameterise a request, and the fixed tables
//! that map each of them onto the outside world.

use vstd::prelude::*;

verus! {

/// The kind of artifact a compilation is asked to leave behind.
#[derive(Debug, Copy, Clone, PartialEq, Eq, Structural)]
pub enum CompileTarget {
    Assembly,
    LlvmIr,
}

/// The toolchain release track; it alone selects the container image.
#[derive(Debug, Copy, Clone, PartialEq, Eq, Structural)]
pub enum Channel {
    Stable,
    Beta,
    Nightly,
}

/// Build profile; it decides only whether an optimisation flag is passed.
#[derive(Debug, Copy, Clone, PartialEq, Eq, Structural)]
pub enum Mode {
    Debug,
    Release,
}

/// The container image that runs a given channel.
pub open spec fn image_of(c: Channel) -> Seq<char> {
    match c {
        Channel::Stable => "rust-stable"@,
        Channel::Beta => "rust-beta"@,
        Channel::Nightly => "rust-nightly"@,
    }
}

impl Channel {
    pub fn container_name(&self) -> (r: &'static str)
        ensures
            r@ == image_of(*self),
    {
        match *self {
            Channel::Stable => "rust-stable",
            Channel::Beta => "rust-beta",
            Channel::Nightly => "rust-nightly",
        }
    }
}

/// The single table tying a compile target to its emission flag and to the
/// name of the file it leaves in the output directory.
pub open spec fn target_table(t: CompileTarget) -> (Seq<char>, Seq<char>) {
    match t {
        CompileTarget::Assembly => ("--emit=asm"@, "compilation.s"@),
        CompileTarget::LlvmIr => ("--emit=llvm-ir"@, "compilation.ll"@),
    }
}

pub open spec fn emit_flag_of(t: CompileTarget) -> Seq<char> {
    target_table(t).0
}

pub open spec fn artifact_name_of(t: CompileTarget) -> Seq<char> {
    target_table(t).1
}

impl CompileTarget {
    /// The emission flag and the artifact file name, read from one table so
    /// that the two cannot drift apart.
    pub fn outputs(&self) -> (r: (&'static str, &'static str))
        ensures
            r.0@ == emit_flag_of(*self),
            r.1@ == artifact_name_of(*self),
    {
        match *self {
            CompileTarget::Assembly => ("--emit=asm", "compilation.s"),
            CompileTarget::LlvmIr => ("--emit=llvm-ir", "compilation.ll"),
        }
    }

    pub fn emit_flag(&self) -> (r: &'static str)
        ensures
            r@ == emit_flag_of(*self),
    {
        self.outputs().0
    }

    pub fn artifact_file_name(&self) -> (r: &'static str)
        ensures
            r@ == artifact_name_of(*self),
    {
        self.outputs().1
    }
}

#[derive(Debug, Clone)]
pub struct CompileRequest {
    pub target: CompileTarget,
    pub channel: Channel,
    pub mode: Mode,
    pub tests: bool,
    pub code: String,
}

#[derive(Debug, Clone)]
pub struct CompileResponse {
    pub success: bool,
    /// The artifact's text; empty when the compilation left none.
    pub code: String,
    pub stdout: String,
    pub stderr: String,
}

#[derive(Debug, Clone)]
pub struct ExecuteRequest {
    pub channel: Channel,
    pub mode: Mode,
    pub tests: bool,
    pub code: String,
}

#[derive(Debug, Clone)]
pub struct ExecuteResponse {
    pub success: bool,
    pub stdout: String,
    pub stderr: String,
}

#[derive(Debug, Clone)]
pub struct FormatRequest {
    pub code: String,
}

#[derive(Debug, Clone)]
pub struct FormatResponse {
    pub success: bool,
    /// The source file as the formatter left it.
    pub code: String,
    pub stdout: String,
    pub stderr: String,
}

#[derive(Debug, Clone)]
pub struct ClippyRequest {
    pub code: String,
}

#[derive(Debug, Clone)]
pub struct ClippyResponse {
    pub success: bool,
    pub stdout: String,
    pub stderr: String,
}

} // verus!
