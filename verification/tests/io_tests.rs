use wasm_python_sandbox_rs::io::{CapturedOutput, ProvidedInput, SandboxIo};

#[test]
fn test_captured_output() {
    let mut output = CapturedOutput::new();
    output.write_bytes(b"hello ");
    output.write_bytes(b"world");
    assert_eq!(output.to_string_lossy(), "hello world");
}

#[test]
fn test_provided_input() {
    let mut input = ProvidedInput::from_str("test input");
    let buf = input.read_bytes(4);
    assert_eq!(buf.len(), 4);
    assert_eq!(buf.as_slice(), b"test");
}

#[test]
fn test_sandbox_io() {
    let io = SandboxIo::new(Some("input data"));
    assert!(io.stdout_str().is_empty());
    assert!(io.stderr_str().is_empty());
}

#[test]
fn test_captured_output_bytes_and_clear() {
    let mut output = CapturedOutput::new();
    assert!(output.is_empty());
    output.write_bytes(b"abc");
    assert_eq!(output.len(), 3);
    assert_eq!(output.to_bytes(), vec![b'a', b'b', b'c']);
    output.clear();
    assert!(output.is_empty());
    assert_eq!(output.to_string_lossy(), "");
}

#[test]
fn test_provided_input_reads_to_end() {
    let mut input = ProvidedInput::from_str("abc");
    let first = input.read_bytes(2);
    assert_eq!(first.as_slice(), b"ab");
    let second = input.read_bytes(10);
    assert_eq!(second.as_slice(), b"c");
    let third = input.read_bytes(10);
    assert!(third.is_empty());
}
