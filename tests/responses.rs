use std::io::ErrorKind;

use playground_sandbox::{
    clippy_response, compile_response, execute_response, extract_artifact, format_response,
    vec_to_str, ArtifactRead, Error, ProcessOutput,
};

fn output(success: bool, stdout: &[u8], stderr: &[u8]) -> ProcessOutput {
    ProcessOutput { success, stdout: stdout.to_vec(), stderr: stderr.to_vec() }
}

fn io_failure() -> ArtifactRead {
    ArtifactRead::Failed(std::io::Error::new(ErrorKind::PermissionDenied, "denied"))
}

#[test]
fn vec_to_str_decodes_multibyte_text() {
    let s = vec_to_str(vec![0x68, 0xc3, 0xa9, 0x6c, 0x6c, 0x6f]).expect("valid text");
    assert_eq!(s, "héllo");
    assert_eq!(s.chars().count(), 5);
}

#[test]
fn vec_to_str_rejects_invalid_bytes() {
    assert!(matches!(vec_to_str(vec![0x61, 0xff]), Err(Error::OutputNotUtf8(_))));
    assert!(matches!(vec_to_str(vec![0xed, 0xa0, 0x80]), Err(Error::OutputNotUtf8(_))));
    assert!(matches!(vec_to_str(vec![0xc0, 0xaf]), Err(Error::OutputNotUtf8(_))));
}

#[test]
fn vec_to_str_empty() {
    assert_eq!(vec_to_str(Vec::new()).expect("empty is text"), "");
}

#[test]
fn extract_artifact_outcomes() {
    assert_eq!(
        extract_artifact(ArtifactRead::Found(b".text".to_vec())).expect("readable"),
        Some(".text".to_string())
    );
    assert_eq!(extract_artifact(ArtifactRead::NotFound).expect("absence is fine"), None);
    match extract_artifact(io_failure()) {
        Err(Error::UnableToReadOutput(e)) => assert_eq!(e.kind(), ErrorKind::PermissionDenied),
        other => panic!("unexpected {:?}", other),
    }
    assert!(matches!(
        extract_artifact(ArtifactRead::Found(vec![0xfe])),
        Err(Error::OutputNotUtf8(_))
    ));
}

#[test]
fn execute_response_carries_stdout_exactly() {
    let resp = execute_response(output(true, b"Hello, world!\n", b"   Compiling playground\n"))
        .expect("text streams");
    assert!(resp.success);
    assert_eq!(resp.stdout, "Hello, world!\n");
    assert_eq!(resp.stderr, "   Compiling playground\n");
}

#[test]
fn execute_response_failure_is_data_not_error() {
    let resp = execute_response(output(false, b"", b"Killed\n")).expect("text streams");
    assert!(!resp.success);
    assert!(resp.stderr.contains("Killed"));
}

#[test]
fn execute_response_rejects_invalid_stderr() {
    assert!(matches!(
        execute_response(output(true, b"ok", &[0xff, 0xfe])),
        Err(Error::OutputNotUtf8(_))
    ));
}

#[test]
fn compile_response_with_artifact() {
    let assembly = b"\t.text\n\t.file\t\"main\"\n\t.section\t.text.main\n";
    let resp = compile_response(output(true, b"", b"warning\n"), ArtifactRead::Found(assembly.to_vec()))
        .expect("artifact is text");
    assert!(resp.success);
    assert_eq!(resp.code.as_bytes(), &assembly[..]);
    assert_eq!(resp.stdout, "");
    assert_eq!(resp.stderr, "warning\n");
}

#[test]
fn compile_response_without_artifact_is_empty_code() {
    let resp = compile_response(output(false, b"", b"error[E0425]\n"), ArtifactRead::NotFound)
        .expect("absence is fine");
    assert!(!resp.success);
    assert_eq!(resp.code, "");
    assert_eq!(resp.stderr, "error[E0425]\n");
}

#[test]
fn compile_response_read_failure() {
    assert!(matches!(
        compile_response(output(true, b"", b""), io_failure()),
        Err(Error::UnableToReadOutput(_))
    ));
}

#[test]
fn compile_response_artifact_checked_before_streams() {
    assert!(matches!(
        compile_response(output(true, &[0xff], b""), io_failure()),
        Err(Error::UnableToReadOutput(_))
    ));
    assert!(matches!(
        compile_response(output(true, &[0xff], b""), ArtifactRead::NotFound),
        Err(Error::OutputNotUtf8(_))
    ));
}

#[test]
fn format_response_returns_rewritten_source() {
    let formatted = "fn foo() {\n    method_call();\n}\n";
    let resp = format_response(output(true, b"", b""), ArtifactRead::Found(formatted.as_bytes().to_vec()))
        .expect("file is there");
    assert!(resp.success);
    let lines: Vec<_> = resp.code.lines().collect();
    assert_eq!(lines, vec!["fn foo() {", "    method_call();", "}"]);
}

#[test]
fn format_response_missing_file() {
    assert!(matches!(
        format_response(output(true, b"", b""), ArtifactRead::NotFound),
        Err(Error::OutputMissing)
    ));
}

#[test]
fn format_response_invalid_file() {
    assert!(matches!(
        format_response(output(true, b"", b""), ArtifactRead::Found(vec![0x80])),
        Err(Error::OutputNotUtf8(_))
    ));
    assert!(matches!(
        format_response(output(true, b"", b""), io_failure()),
        Err(Error::UnableToReadOutput(_))
    ));
}

#[test]
fn clippy_response_carries_stderr() {
    let resp = clippy_response(output(false, b"", b"warning: #[warn(eq_op)] on by default\n"))
        .expect("text streams");
    assert!(!resp.success);
    assert!(resp.stderr.contains("warn(eq_op)"));
    assert_eq!(resp.stdout, "");
}

#[test]
fn clippy_response_rejects_invalid_stdout() {
    assert!(matches!(
        clippy_response(output(true, &[0xc3], b"")),
        Err(Error::OutputNotUtf8(_))
    ));
}
