use wasm_python_sandbox_rs::config::SandboxConfig;
use wasm_python_sandbox_rs::error::SandboxError;
use wasm_python_sandbox_rs::executor::{
    build_result, classify_instantiation_failure, classify_invocation_failure, fuel_consumed,
    panicked_error, prepare_invocation, ExecutionMetadata, FailureSignals, SandboxOptions,
};
use wasm_python_sandbox_rs::limits::SandboxLimiter;

fn no_signals() -> FailureSignals {
    FailureSignals {
        trap_interrupt: false,
        trap_out_of_fuel: false,
        exit_code: None,
        chain_messages: Vec::new(),
        message: "raw failure".to_string(),
    }
}

#[test]
fn test_metadata_empty() {
    let m = ExecutionMetadata::empty();
    assert_eq!(m.duration_ms, 0);
    assert_eq!(m.peak_memory, 0);
    assert!(m.fuel_consumed.is_none());
    assert!(!m.used_cached_module);
}

#[test]
fn test_sandbox_options() {
    let d = SandboxOptions::default();
    assert!(d.use_cache);
    assert!(d.cache.is_none());
    assert!(d.shared_engine.is_none());

    let n = SandboxOptions::no_cache();
    assert!(!n.use_cache);

    let toggled = SandboxOptions::default().use_cache(false);
    assert!(!toggled.use_cache);
}

#[test]
fn test_classify_memory_limit_takes_precedence() {
    let mut limiter = SandboxLimiter::new(1024 * 1024);
    assert!(!limiter.memory_growing(0, 2 * 1024 * 1024, None));
    assert!(limiter.memory_growing(0, 512, None));
    // even with an interrupt trap pending, the limiter's verdict wins
    let signals = FailureSignals { trap_interrupt: true, ..no_signals() };
    let r = classify_invocation_failure(&limiter, signals, 17, None, 0);
    match r {
        Err(SandboxError::MemoryLimitExceeded(m)) => {
            assert_eq!(
                m,
                "memory limit exceeded during execution (used 512 bytes, limit 1048576 bytes)"
            );
        }
        other => panic!("expected MemoryLimitExceeded, got {:?}", other),
    }
}

#[test]
fn test_classify_interrupt_trap_is_timeout() {
    let limiter = SandboxLimiter::new(1024);
    let signals = FailureSignals { trap_interrupt: true, ..no_signals() };
    let r = classify_invocation_failure(&limiter, signals, 123, None, 0);
    assert!(matches!(r, Err(SandboxError::Timeout(123))));
}

#[test]
fn test_classify_interrupt_text_fallback() {
    let limiter = SandboxLimiter::new(1024);
    // the fallback scans the lowercased cause texts
    let signals = FailureSignals {
        chain_messages: vec!["EPOCH deadline reached".to_string()],
        ..no_signals()
    };
    let r = classify_invocation_failure(&limiter, signals, 55, None, 0);
    assert!(matches!(r, Err(SandboxError::Timeout(55))));
}

#[test]
fn test_classify_out_of_fuel_with_consumed_count() {
    let limiter = SandboxLimiter::new(1024);
    let signals = FailureSignals { trap_out_of_fuel: true, ..no_signals() };
    let r = classify_invocation_failure(&limiter, signals, 5, Some(1000), 250);
    match r {
        Err(SandboxError::OutOfFuel { consumed }) => assert_eq!(consumed, Some(750)),
        other => panic!("expected OutOfFuel, got {:?}", other),
    }
}

#[test]
fn test_classify_fuel_text_fallback() {
    let limiter = SandboxLimiter::new(1024);
    let signals = FailureSignals {
        chain_messages: vec!["all FUEL consumed by WebAssembly".to_string()],
        ..no_signals()
    };
    let r = classify_invocation_failure(&limiter, signals, 5, Some(10), 10);
    match r {
        Err(SandboxError::OutOfFuel { consumed }) => assert_eq!(consumed, Some(0)),
        other => panic!("expected OutOfFuel, got {:?}", other),
    }
}

#[test]
fn test_classify_exit_code_is_not_an_error() {
    let limiter = SandboxLimiter::new(1024);
    let signals = FailureSignals { exit_code: Some(3), ..no_signals() };
    let r = classify_invocation_failure(&limiter, signals, 5, None, 0);
    assert_eq!(r.unwrap(), 3);
}

#[test]
fn test_classify_other_failure_is_execution_failed() {
    let limiter = SandboxLimiter::new(1024);
    let r = classify_invocation_failure(&limiter, no_signals(), 5, None, 0);
    match r {
        Err(SandboxError::ExecutionFailed(m)) => assert_eq!(m, "raw failure"),
        other => panic!("expected ExecutionFailed, got {:?}", other),
    }
}

#[test]
fn test_classify_instantiation_failure() {
    let mut limiter = SandboxLimiter::new(100);
    assert!(!limiter.memory_growing(0, 500, None));
    let e = classify_instantiation_failure(&limiter, "boom".to_string());
    match e {
        SandboxError::MemoryLimitExceeded(m) => {
            assert_eq!(
                m,
                "memory limit exceeded during instantiation (used 0 bytes, limit 100 bytes)"
            );
        }
        other => panic!("expected MemoryLimitExceeded, got {:?}", other),
    }

    let fine = SandboxLimiter::new(100);
    let e = classify_instantiation_failure(&fine, "boom".to_string());
    match e {
        SandboxError::ModuleLoad(m) => assert_eq!(m, "failed to instantiate: boom"),
        other => panic!("expected ModuleLoad, got {:?}", other),
    }
}

#[test]
fn test_fuel_consumed() {
    assert_eq!(fuel_consumed(Some(1000), 250), Some(750));
    assert_eq!(fuel_consumed(Some(10), 50), Some(0));
    assert_eq!(fuel_consumed(None, 0), None);
}

#[test]
fn test_panicked_error_message() {
    let e = panicked_error("it broke".to_string());
    match e {
        SandboxError::ExecutionFailed(m) => assert_eq!(m, "task panicked: it broke"),
        other => panic!("expected ExecutionFailed, got {:?}", other),
    }
}

#[test]
fn test_build_result_reports_limiter_peak() {
    let mut limiter = SandboxLimiter::new(1000);
    assert!(limiter.memory_growing(0, 800, None));
    assert!(limiter.memory_growing(800, 300, None));
    let r = build_result(
        "out".to_string(),
        "err".to_string(),
        0,
        42,
        &limiter,
        Some(500),
        100,
        true,
    );
    assert!(r.is_success());
    assert_eq!(r.stdout, "out");
    assert_eq!(r.stderr, "err");
    assert_eq!(r.metadata.duration_ms, 42);
    assert_eq!(r.metadata.peak_memory, 800);
    assert!(r.metadata.peak_memory <= limiter.max_memory());
    assert_eq!(r.metadata.fuel_consumed, Some(400));
    assert!(r.metadata.used_cached_module);
}

#[test]
fn test_prepare_invocation_composes_prelude() {
    let config = SandboxConfig::builder().prelude("def f(): pass").build();
    let inv = prepare_invocation(&config, "print(f())", None);
    assert_eq!(inv.argv.len(), 3);
    assert_eq!(inv.argv[0], "python");
    assert_eq!(inv.argv[1], "-c");
    assert_eq!(inv.argv[2], "def f(): pass\nprint(f())");
}

#[test]
fn test_prepare_invocation_stdin_precedence() {
    // config-level stdin wins over the call-level input
    let config = SandboxConfig::builder().stdin("from config").build();
    let inv = prepare_invocation(&config, "code", Some("from call"));
    assert_eq!(inv.stdin, Some("from config".to_string()));

    let config = SandboxConfig::builder().build();
    let inv = prepare_invocation(&config, "code", Some("from call"));
    assert_eq!(inv.stdin, Some("from call".to_string()));

    let inv = prepare_invocation(&config, "code", None);
    assert!(inv.stdin.is_none());
}

#[test]
fn test_prepare_invocation_carries_limits_and_env() {
    let config = SandboxConfig::builder()
        .max_memory(123)
        .max_fuel(77)
        .env("K", "V")
        .build();
    let inv = prepare_invocation(&config, "x", None);
    assert_eq!(inv.max_memory, 123);
    assert_eq!(inv.max_fuel, Some(77));
    assert_eq!(inv.env_vars, vec![("K".to_string(), "V".to_string())]);
    assert_eq!(inv.argv[2], "x");
}
