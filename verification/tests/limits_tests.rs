use wasm_python_sandbox_rs::limits::SandboxLimiter;

#[test]
fn test_limiter_allows_within_limit() {
    let mut limiter = SandboxLimiter::new(1024 * 1024); // 1MB

    let result = limiter.memory_growing(0, 512 * 1024, None);
    assert!(result);
    assert!(!limiter.limit_exceeded());
}

#[test]
fn test_limiter_denies_over_limit() {
    let mut limiter = SandboxLimiter::new(1024 * 1024); // 1MB

    let result = limiter.memory_growing(0, 2 * 1024 * 1024, None);
    assert!(!result);
    assert!(limiter.limit_exceeded());
}

#[test]
fn test_limiter_peak_never_exceeds_ceiling() {
    let mut limiter = SandboxLimiter::new(1000);
    assert!(limiter.memory_growing(0, 400, None));
    assert!(limiter.memory_growing(400, 900, None));
    // a denied request leaves the accounting untouched
    assert!(!limiter.memory_growing(900, 2000, None));
    assert!(limiter.limit_exceeded());
    assert_eq!(limiter.current_memory(), 900);
    assert_eq!(limiter.peak_memory(), 900);
    assert!(limiter.peak_memory() <= limiter.max_memory());
}

#[test]
fn test_limiter_exceeded_is_sticky() {
    let mut limiter = SandboxLimiter::new(1000);
    assert!(!limiter.memory_growing(0, 5000, None));
    assert!(limiter.limit_exceeded());
    // an in-bounds growth afterwards does not clear the flag
    assert!(limiter.memory_growing(0, 100, None));
    assert!(limiter.limit_exceeded());
    assert_eq!(limiter.current_memory(), 100);
}

#[test]
fn test_limiter_table_growth() {
    let mut limiter = SandboxLimiter::new(1000);
    assert!(limiter.table_growing(0, 10_000, None));
    assert!(!limiter.limit_exceeded());
    assert!(!limiter.table_growing(0, 10_001, None));
    assert!(limiter.limit_exceeded());
    // table growth never touches the memory accounting
    assert_eq!(limiter.current_memory(), 0);
    assert_eq!(limiter.peak_memory(), 0);
}
