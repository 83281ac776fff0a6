use wasm_python_sandbox_rs::error::parse_python_exception;
use wasm_python_sandbox_rs::error::SandboxError;
use wasm_python_sandbox_rs::error::looks_like_exception;

#[test]
fn test_parse_simple_exception() {
    let stderr = "ValueError: invalid literal for int() with base 10: 'abc'";
    let result = parse_python_exception(stderr);

    assert!(result.is_some());
    if let Some(SandboxError::PythonException {
        exception_type,
        message,
        traceback,
    }) = result
    {
        assert_eq!(exception_type, "ValueError");
        assert_eq!(message, "invalid literal for int() with base 10: 'abc'");
        assert!(traceback.is_none());
    } else {
        panic!("Expected PythonException");
    }
}

#[test]
fn test_parse_exception_with_traceback() {
    let stderr = "Traceback (most recent call last):\n  File \"<string>\", line 1, in <module>\nValueError: invalid value";

    let result = parse_python_exception(stderr);

    assert!(result.is_some());
    if let Some(SandboxError::PythonException {
        exception_type,
        message,
        traceback,
    }) = result
    {
        assert_eq!(exception_type, "ValueError");
        assert_eq!(message, "invalid value");
        assert!(traceback.is_some());
        assert!(traceback.unwrap().contains("Traceback"));
    } else {
        panic!("Expected PythonException");
    }
}

#[test]
fn test_parse_exception_no_message() {
    let stderr = "StopIteration";
    let result = parse_python_exception(stderr);

    assert!(result.is_some());
    if let Some(SandboxError::PythonException {
        exception_type,
        message,
        ..
    }) = result
    {
        assert_eq!(exception_type, "StopIteration");
        assert!(message.is_empty());
    } else {
        panic!("Expected PythonException");
    }
}

#[test]
fn test_parse_empty_stderr() {
    assert!(parse_python_exception("").is_none());
    assert!(parse_python_exception("   ").is_none());
}

#[test]
fn test_error_helpers() {
    let timeout = SandboxError::Timeout(5 * 1000);
    assert!(timeout.is_timeout());
    assert!(!timeout.is_memory_limit());
    assert!(!timeout.is_python_exception());

    let memory = SandboxError::MemoryLimitExceeded("test".to_string());
    assert!(!memory.is_timeout());
    assert!(memory.is_memory_limit());

    let python_exc = SandboxError::PythonException {
        exception_type: "ValueError".to_string(),
        message: "test".to_string(),
        traceback: None,
    };
    assert!(python_exc.is_python_exception());
}

#[test]
fn test_from_python_stderr() {
    let result = SandboxError::from_python_stderr("TypeError: unsupported operand");
    assert!(result.is_some());
    if let Some(SandboxError::PythonException {
        exception_type,
        message,
        traceback,
    }) = result
    {
        assert_eq!(exception_type, "TypeError");
        assert_eq!(message, "unsupported operand");
        assert!(traceback.is_none());
    } else {
        panic!("Expected PythonException");
    }
}

#[test]
fn test_out_of_fuel_helper() {
    let fuel = SandboxError::OutOfFuel { consumed: Some(42) };
    assert!(fuel.is_out_of_fuel());
    assert!(!fuel.is_timeout());
    let other = SandboxError::ExecutionFailed("boom".to_string());
    assert!(!other.is_out_of_fuel());
}

#[test]
fn test_looks_like_exception_suffixes() {
    assert!(looks_like_exception("ValueError: bad"));
    assert!(looks_like_exception("CustomException"));
    assert!(looks_like_exception("DeprecationWarning: old"));
    assert!(looks_like_exception("KeyboardInterrupt"));
    assert!(looks_like_exception("SystemExit: 3"));
    assert!(looks_like_exception("GeneratorExit"));
    // a later occurrence with an accepted boundary counts even when the
    // first occurrence lacks one
    assert!(looks_like_exception("ErrorxError: boom"));
    // lowercase first letter: no match
    assert!(!looks_like_exception("valueError: bad"));
    // name buried mid-word with no boundary after it: no match
    assert!(!looks_like_exception("ValueErrors everywhere... maybe"));
    // plain prose without the suffixes
    assert!(!looks_like_exception("Something went wrong"));
    assert!(!looks_like_exception(""));
}

#[test]
fn test_parse_last_exception_wins() {
    let stderr = "ValueError: first\nTypeError: second";
    let result = parse_python_exception(stderr);
    if let Some(SandboxError::PythonException {
        exception_type,
        message,
        traceback,
    }) = result
    {
        assert_eq!(exception_type, "TypeError");
        assert_eq!(message, "second");
        assert!(traceback.is_none());
    } else {
        panic!("Expected PythonException");
    }
}

#[test]
fn test_parse_indented_lines_are_not_candidates() {
    let stderr = " ValueError: indented\nnothing here";
    assert!(parse_python_exception(stderr).is_none());
}

#[test]
fn test_parse_traceback_range_is_inclusive() {
    let stderr = "noise\nTraceback (most recent call last):\n  File \"x\", line 1\nKeyError: 'k'\ntrailing";
    let result = parse_python_exception(stderr);
    if let Some(SandboxError::PythonException {
        exception_type,
        message,
        traceback,
    }) = result
    {
        assert_eq!(exception_type, "KeyError");
        assert_eq!(message, "'k'");
        assert_eq!(
            traceback.unwrap(),
            "Traceback (most recent call last):\n  File \"x\", line 1\nKeyError: 'k'"
        );
    } else {
        panic!("Expected PythonException");
    }
}

#[test]
fn test_parse_crlf_lines() {
    let stderr = "Traceback (most recent call last):\r\n  File \"x\", line 1\r\nValueError: v\r\n";
    let result = parse_python_exception(stderr);
    if let Some(SandboxError::PythonException {
        exception_type,
        message,
        traceback,
    }) = result
    {
        assert_eq!(exception_type, "ValueError");
        assert_eq!(message, "v");
        assert_eq!(
            traceback.unwrap(),
            "Traceback (most recent call last):\n  File \"x\", line 1\nValueError: v"
        );
    } else {
        panic!("Expected PythonException");
    }
}

#[test]
fn test_parse_trims_unicode_whitespace() {
    let stderr = "ValueError:\u{a0}padded value\u{a0}";
    let result = parse_python_exception(stderr);
    if let Some(SandboxError::PythonException {
        exception_type,
        message,
        traceback,
    }) = result
    {
        assert_eq!(exception_type, "ValueError");
        assert_eq!(message, "padded value");
        assert!(traceback.is_none());
    } else {
        panic!("Expected PythonException");
    }
}

#[test]
fn test_parse_marker_after_exception_gives_no_traceback() {
    let stderr = "ValueError: early\nmore text\nTraceback (most recent call last):";
    let result = parse_python_exception(stderr);
    if let Some(SandboxError::PythonException {
        exception_type,
        traceback,
        ..
    }) = result
    {
        assert_eq!(exception_type, "ValueError");
        assert!(traceback.is_none());
    } else {
        panic!("Expected PythonException");
    }
}
