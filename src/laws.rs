//! Properties that every invocation built by this crate has, whatever the
//! request: each command begins with `engine_args`, so what holds of those
//! options holds of every sandboxed run.

use vstd::prelude::*;

use crate::command::{engine_args, mount, result_mount};
use crate::model::{artifact_name_of, emit_flag_of, image_of, Channel, CompileTarget};

verus! {

/// The engine options hold `flag` immediately followed by `value`.
pub open spec fn has_option(args: Seq<Seq<char>>, flag: Seq<char>, value: Seq<char>) -> bool {
    exists|i: int| 0 <= i && i + 1 < args.len() && #[trigger] args[i] == flag && args[i + 1] == value
}

/// Networking is switched off for every invocation.
pub proof fn lemma_network_disabled(input_file: Seq<char>, output_dir: Seq<char>, limit_pids: bool)
    ensures
        has_option(engine_args(input_file, output_dir, limit_pids), "--net"@, "none"@),
{
    let a = engine_args(input_file, output_dir, limit_pids);
    assert(a[9] == "--net"@ && a[10] == "none"@);
}

/// Every invocation runs under a memory ceiling and under a memory-plus-swap
/// ceiling set slightly above it.
pub proof fn lemma_memory_ceiling(input_file: Seq<char>, output_dir: Seq<char>, limit_pids: bool)
    ensures
        has_option(engine_args(input_file, output_dir, limit_pids), "--memory"@, "256m"@),
        has_option(engine_args(input_file, output_dir, limit_pids), "--memory-swap"@, "320m"@),
{
    let a = engine_args(input_file, output_dir, limit_pids);
    assert(a[11] == "--memory"@ && a[12] == "256m"@);
    assert(a[13] == "--memory-swap"@ && a[14] == "320m"@);
}

/// Every invocation hands the in-container wall-clock timeout to the
/// environment.
pub proof fn lemma_wall_clock_limit(input_file: Seq<char>, output_dir: Seq<char>, limit_pids: bool)
    ensures
        has_option(
            engine_args(input_file, output_dir, limit_pids),
            "--env"@,
            "PLAYGROUND_TIMEOUT=10"@,
        ),
{
    let a = engine_args(input_file, output_dir, limit_pids);
    assert(a[15] == "--env"@ && a[16] == "PLAYGROUND_TIMEOUT=10"@);
}

/// The process-count cap is passed to the engine exactly when the hardening is
/// enabled.
pub proof fn lemma_process_limit(input_file: Seq<char>, output_dir: Seq<char>, limit_pids: bool)
    ensures
        has_option(engine_args(input_file, output_dir, limit_pids), "--pids-limit"@, "512"@)
            == limit_pids,
{
    let a = engine_args(input_file, output_dir, limit_pids);
    if limit_pids {
        assert(a[19] == "--pids-limit"@ && a[20] == "512"@);
    } else {
        reveal_strlit("--pids-limit");
        reveal_strlit("docker");
        reveal_strlit("run");
        reveal_strlit("--rm");
        reveal_strlit("--volume");
        reveal_strlit(":");
        reveal_strlit("/playground/src/main.rs");
        reveal_strlit("/playground-result");
        reveal_strlit("--workdir");
        reveal_strlit("/playground");
        reveal_strlit("--net");
        reveal_strlit("none");
        reveal_strlit("--memory");
        reveal_strlit("256m");
        reveal_strlit("--memory-swap");
        reveal_strlit("320m");
        reveal_strlit("--env");
        reveal_strlit("PLAYGROUND_TIMEOUT=10");
        reveal_strlit("RUST_BACKTRACE=1");
        assert(mount(input_file, "/playground/src/main.rs"@).len() > 12);
        assert(mount(output_dir, result_mount()).len() > 12);
        assert forall|i: int| 0 <= i < a.len() implies a[i].len() != 12 by {}
    }
}

/// Each channel runs in an image of its own.
pub proof fn lemma_channel_images_distinct(c1: Channel, c2: Channel)
    ensures
        c1 != c2 ==> image_of(c1) != image_of(c2),
{
    reveal_strlit("rust-stable");
    reveal_strlit("rust-beta");
    reveal_strlit("rust-nightly");
    if c1 != c2 {
        assert(image_of(c1).len() != image_of(c2).len());
    }
}

/// Distinct compile targets ask for distinct emissions and leave distinct
/// artifact files.
pub proof fn lemma_targets_distinct(t1: CompileTarget, t2: CompileTarget)
    ensures
        t1 != t2 ==> emit_flag_of(t1) != emit_flag_of(t2) && artifact_name_of(t1)
            != artifact_name_of(t2),
{
    reveal_strlit("--emit=asm");
    reveal_strlit("--emit=llvm-ir");
    reveal_strlit("compilation.s");
    reveal_strlit("compilation.ll");
    if t1 != t2 {
        assert(emit_flag_of(t1).len() != emit_flag_of(t2).len());
        assert(artifact_name_of(t1).len() != artifact_name_of(t2).len());
    }
}

} // verus!
