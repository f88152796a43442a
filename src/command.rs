//! The command builder: pure functions from a request's parameters to the exact
//! argument vector that starts the container engine.

use vstd::prelude::*;

use crate::model::{emit_flag_of, image_of, Channel, CompileTarget, Mode};

verus! {

/// Where the output directory is mounted inside the container.
pub open spec fn result_mount() -> Seq<char> {
    "/playground-result"@
}

/// The toolchain command run inside the container: a single `cargo rustc` for a
/// compilation, otherwise `cargo test` or `cargo run`; `--release` in release
/// mode; and for a compilation, the output path and the emission flag.
pub open spec fn execution_args(target: Option<CompileTarget>, mode: Mode, tests: bool) -> Seq<
    Seq<char>,
> {
    let sub = if target is Some {
        "rustc"@
    } else if tests {
        "test"@
    } else {
        "run"@
    };
    let opt = if mode == Mode::Release {
        seq!["--release"@]
    } else {
        Seq::empty()
    };
    let out = match target {
        Some(t) => seq!["--"@, "-o"@, "/playground-result/compilation"@, emit_flag_of(t)],
        None => Seq::empty(),
    };
    seq!["cargo"@, sub] + opt + out
}

pub open spec fn views_of(v: Seq<&'static str>) -> Seq<Seq<char>> {
    v.map_values(|s: &'static str| s@)
}

pub fn build_execution_command(target: Option<CompileTarget>, mode: Mode, tests: bool) -> (r: Vec<
    &'static str,
>)
    ensures
        views_of(r@) == execution_args(target, mode, tests),
{
    let mut cmd: Vec<&'static str> = Vec::new();
    cmd.push("cargo");
    match target {
        Some(_) => cmd.push("rustc"),
        None => {
            if tests {
                cmd.push("test");
            } else {
                cmd.push("run");
            }
        },
    }
    if mode == Mode::Release {
        cmd.push("--release");
    }
    if let Some(t) = target {
        cmd.push("--");
        cmd.push("-o");
        cmd.push("/playground-result/compilation");
        cmd.push(t.emit_flag());
    }
    assert(views_of(cmd@) =~= execution_args(target, mode, tests));
    cmd
}

pub open spec fn strings_of(v: Seq<String>) -> Seq<Seq<char>> {
    v.map_values(|s: String| s@)
}

/// A bind mount in the engine's `host:guest` syntax.
pub open spec fn mount(host: Seq<char>, guest: Seq<char>) -> Seq<char> {
    host + ":"@ + guest
}

/// The engine invocation that precedes the image name: a disposable container
/// (`--rm`) with the source file and the output directory mounted read-write,
/// a fixed working directory, no network, a memory ceiling with a slightly
/// higher memory-plus-swap ceiling, a wall-clock timeout handed in through the
/// environment, and optionally a cap on the number of processes.
pub open spec fn engine_args(input_file: Seq<char>, output_dir: Seq<char>, limit_pids: bool) -> Seq<
    Seq<char>,
> {
    let base = seq![
        "docker"@,
        "run"@,
        "--rm"@,
        "--volume"@,
        mount(input_file, "/playground/src/main.rs"@),
        "--volume"@,
        mount(output_dir, result_mount()),
        "--workdir"@,
        "/playground"@,
        "--net"@,
        "none"@,
        "--memory"@,
        "256m"@,
        "--memory-swap"@,
        "320m"@,
        "--env"@,
        "PLAYGROUND_TIMEOUT=10"@,
        "--env"@,
        "RUST_BACKTRACE=1"@,
    ];
    if limit_pids {
        base + seq!["--pids-limit"@, "512"@]
    } else {
        base
    }
}

/// Builds the argument vectors for one workspace. The first element of every
/// vector it returns is the program to start.
pub struct CommandBuilder {
    /// Host path of the file that holds the submitted source.
    pub input_file: String,
    /// Host path of the directory that receives artifacts.
    pub output_dir: String,
    /// Whether the engine caps the number of processes in the container.
    pub limit_pids: bool,
}

impl CommandBuilder {
    pub open spec fn engine_spec(&self) -> Seq<Seq<char>> {
        engine_args(self.input_file@, self.output_dir@, self.limit_pids)
    }

    /// The whole invocation: engine options, then the image, then what the
    /// image runs.
    pub open spec fn invocation(&self, image: Seq<char>, inner: Seq<Seq<char>>) -> Seq<Seq<char>> {
        self.engine_spec() + seq![image] + inner
    }

    pub fn new(input_file: String, output_dir: String, limit_pids: bool) -> (r: CommandBuilder)
        ensures
            r.input_file == input_file,
            r.output_dir == output_dir,
            r.limit_pids == limit_pids,
    {
        CommandBuilder { input_file, output_dir, limit_pids }
    }

    fn push_arg(cmd: &mut Vec<String>, arg: &str)
        ensures
            strings_of(final(cmd)@) == strings_of(old(cmd)@).push(arg@),
    {
        cmd.push(arg.to_owned());
        assert(strings_of(cmd@) =~= strings_of(old(cmd)@).push(arg@));
    }

    fn push_args(cmd: &mut Vec<String>, args: &Vec<&'static str>)
        ensures
            strings_of(final(cmd)@) == strings_of(old(cmd)@) + views_of(args@),
    {
        let ghost start = strings_of(cmd@);
        let mut i: usize = 0;
        while i < args.len()
            invariant
                i <= args.len(),
                strings_of(cmd@) == start + views_of(args@.take(i as int)),
            decreases args.len() - i,
        {
            Self::push_arg(cmd, args[i]);
            assert(views_of(args@.take(i + 1)) =~= views_of(args@.take(i as int)).push(args@[i as int]@));
            i += 1;
        }
        assert(args@.take(args.len() as int) =~= args@);
    }

    fn mount_arg(host: &String, guest: &str) -> (r: String)
        ensures
            r@ == mount(host@, guest@),
    {
        let mut m = host.clone();
        m.append(":");
        m.append(guest);
        m
    }

    pub fn docker_command(&self) -> (r: Vec<String>)
        ensures
            strings_of(r@) == self.engine_spec(),
    {
        let mut cmd: Vec<String> = Vec::new();
        Self::push_arg(&mut cmd, "docker");
        Self::push_arg(&mut cmd, "run");
        Self::push_arg(&mut cmd, "--rm");
        Self::push_arg(&mut cmd, "--volume");
        let input_mount = Self::mount_arg(&self.input_file, "/playground/src/main.rs");
        Self::push_arg(&mut cmd, input_mount.as_str());
        Self::push_arg(&mut cmd, "--volume");
        let output_mount = Self::mount_arg(&self.output_dir, "/playground-result");
        Self::push_arg(&mut cmd, output_mount.as_str());
        Self::push_arg(&mut cmd, "--workdir");
        Self::push_arg(&mut cmd, "/playground");
        Self::push_arg(&mut cmd, "--net");
        Self::push_arg(&mut cmd, "none");
        Self::push_arg(&mut cmd, "--memory");
        Self::push_arg(&mut cmd, "256m");
        Self::push_arg(&mut cmd, "--memory-swap");
        Self::push_arg(&mut cmd, "320m");
        Self::push_arg(&mut cmd, "--env");
        Self::push_arg(&mut cmd, "PLAYGROUND_TIMEOUT=10");
        Self::push_arg(&mut cmd, "--env");
        Self::push_arg(&mut cmd, "RUST_BACKTRACE=1");
        if self.limit_pids {
            Self::push_arg(&mut cmd, "--pids-limit");
            Self::push_arg(&mut cmd, "512");
        }
        assert(strings_of(cmd@) =~= self.engine_spec());
        cmd
    }

    pub fn compile_command(&self, target: CompileTarget, channel: Channel, mode: Mode, tests: bool) -> (r:
        Vec<String>)
        ensures
            strings_of(r@) == self.invocation(
                image_of(channel),
                execution_args(Some(target), mode, tests),
            ),
    {
        let mut cmd = self.docker_command();
        let execution_cmd = build_execution_command(Some(target), mode, tests);
        Self::push_arg(&mut cmd, channel.container_name());
        Self::push_args(&mut cmd, &execution_cmd);
        cmd
    }

    pub fn execute_command(&self, channel: Channel, mode: Mode, tests: bool) -> (r: Vec<String>)
        ensures
            strings_of(r@) == self.invocation(image_of(channel), execution_args(None, mode, tests)),
    {
        let mut cmd = self.docker_command();
        let execution_cmd = build_execution_command(None, mode, tests);
        Self::push_arg(&mut cmd, channel.container_name());
        Self::push_args(&mut cmd, &execution_cmd);
        cmd
    }

    /// Runs the formatter image, which rewrites the mounted source in place.
    pub fn format_command(&self) -> (r: Vec<String>)
        ensures
            strings_of(r@) == self.invocation(
                "rustfmt"@,
                seq!["--write-mode"@, "overwrite"@, "src/main.rs"@],
            ),
    {
        let mut cmd = self.docker_command();
        Self::push_arg(&mut cmd, "rustfmt");
        Self::push_arg(&mut cmd, "--write-mode");
        Self::push_arg(&mut cmd, "overwrite");
        Self::push_arg(&mut cmd, "src/main.rs");
        assert(strings_of(cmd@) =~= self.invocation(
            "rustfmt"@,
            seq!["--write-mode"@, "overwrite"@, "src/main.rs"@],
        ));
        cmd
    }

    /// Runs the linter image on the mounted project.
    pub fn clippy_command(&self) -> (r: Vec<String>)
        ensures
            strings_of(r@) == self.invocation("clippy"@, seq!["cargo"@, "clippy"@]),
    {
        let mut cmd = self.docker_command();
        Self::push_arg(&mut cmd, "clippy");
        Self::push_arg(&mut cmd, "cargo");
        Self::push_arg(&mut cmd, "clippy");
        assert(strings_of(cmd@) =~= self.invocation("clippy"@, seq!["cargo"@, "clippy"@]));
        cmd
    }
}

} // verus!
