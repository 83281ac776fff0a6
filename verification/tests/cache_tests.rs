use std::sync::Arc;

use wasm_python_sandbox_rs::cache::{ModuleCache, SharedEngine};
use wasm_python_sandbox_rs::error::SandboxError;

/// The smallest valid WebAssembly binary: magic number and version.
const EMPTY_MODULE: &[u8] = b"\x00asm\x01\x00\x00\x00";

#[test]
fn test_module_cache_new() {
    let cache = ModuleCache::new();
    assert!(cache.is_empty());
    assert_eq!(cache.len(), 0);
}

#[test]
fn test_shared_engine_creation() {
    let engine = SharedEngine::new().unwrap();
    // Engine should be usable - increment_epoch returns ()
    engine.engine().increment_epoch();
}

#[test]
fn test_shared_engine_with_fuel() {
    let engine = SharedEngine::with_fuel().unwrap();
    engine.engine().increment_epoch();
}

#[test]
fn test_shared_engine_clone() {
    let engine1 = SharedEngine::new().unwrap();
    let engine2 = engine1.clone();

    // Both should reference the same underlying engine
    assert!(Arc::ptr_eq(&engine1.arc(), &engine2.arc()));
}

#[test]
fn test_get_or_compile_returns_identical_artifact() {
    let engine = SharedEngine::new().unwrap();
    let cache = ModuleCache::new();

    let m1 = cache
        .get_or_compile(engine.engine(), "a/canonical/path.wasm", EMPTY_MODULE)
        .unwrap();
    let m2 = cache
        .get_or_compile(engine.engine(), "a/canonical/path.wasm", EMPTY_MODULE)
        .unwrap();
    assert!(Arc::ptr_eq(&m1, &m2));
    assert_eq!(cache.len(), 1);
    assert!(cache.contains("a/canonical/path.wasm"));
    assert!(!cache.contains("another/path.wasm"));
}

#[test]
fn test_get_or_compile_concurrent_calls_share_one_artifact() {
    let engine = SharedEngine::new().unwrap();
    let cache = Arc::new(ModuleCache::new());

    let runtime = tokio::runtime::Builder::new_multi_thread()
        .worker_threads(4)
        .build()
        .unwrap();
    let modules = runtime.block_on(async {
        let mut handles = Vec::new();
        for _ in 0..8 {
            let cache = Arc::clone(&cache);
            let engine = engine.clone();
            handles.push(tokio::task::spawn_blocking(move || {
                cache
                    .get_or_compile(engine.engine(), "shared/path.wasm", EMPTY_MODULE)
                    .unwrap()
            }));
        }
        let mut modules = Vec::new();
        for h in handles {
            modules.push(h.await.unwrap());
        }
        modules
    });

    assert_eq!(cache.len(), 1);
    for m in &modules {
        assert!(Arc::ptr_eq(&modules[0], m));
    }
}

#[test]
fn test_get_or_compile_rejects_malformed_artifact() {
    let engine = SharedEngine::new().unwrap();
    let cache = ModuleCache::new();
    let err = cache
        .get_or_compile(engine.engine(), "bad.wasm", b"not a wasm binary")
        .unwrap_err();
    assert!(matches!(err, SandboxError::ModuleLoad(_)));
    assert!(cache.is_empty());
}

#[test]
fn test_cache_remove_and_clear() {
    let engine = SharedEngine::new().unwrap();
    let cache = ModuleCache::new();
    cache
        .get_or_compile(engine.engine(), "one.wasm", EMPTY_MODULE)
        .unwrap();
    cache
        .get_or_compile(engine.engine(), "two.wasm", EMPTY_MODULE)
        .unwrap();
    assert_eq!(cache.len(), 2);

    assert!(cache.remove("one.wasm"));
    assert!(!cache.remove("one.wasm"));
    assert_eq!(cache.len(), 1);
    assert!(cache.contains("two.wasm"));

    cache.clear();
    assert!(cache.is_empty());
}

#[test]
fn test_engine_fuel_accounting_matches_construction() {
    // a store on a fuel-accounting engine accepts a fuel charge
    let fueled = SharedEngine::with_fuel().unwrap();
    let mut store = wasmtime::Store::new(fueled.engine(), ());
    assert!(store.set_fuel(100).is_ok());

    // the default engine has fuel accounting off, so the charge is refused
    let plain = SharedEngine::new().unwrap();
    let mut store = wasmtime::Store::new(plain.engine(), ());
    assert!(store.set_fuel(100).is_err());
}

#[test]
fn test_shared_engine_from_arc() {
    let engine1 = SharedEngine::new().unwrap();
    let arc = engine1.arc();
    let engine2 = SharedEngine::from_arc(Arc::clone(&arc));
    assert!(Arc::ptr_eq(&arc, &engine2.arc()));
}
