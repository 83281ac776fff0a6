use wasm_python_sandbox_rs::config::SandboxConfig;

#[test]
fn test_default_config() {
    let config = SandboxConfig::default();
    assert_eq!(config.timeout_ms, 30 * 1000);
    assert_eq!(config.max_memory, 64 * 1024 * 1024);
    assert!(config.stdin.is_none());
    assert!(config.env_vars.is_empty());
    assert!(config.prelude.is_none());
}

#[test]
fn test_builder() {
    let config = SandboxConfig::builder()
        .timeout(5 * 1000)
        .max_memory(32 * 1024 * 1024)
        .max_fuel(1_000_000)
        .build();

    assert_eq!(config.timeout_ms, 5 * 1000);
    assert_eq!(config.max_memory, 32 * 1024 * 1024);
    assert_eq!(config.max_fuel, Some(1_000_000));
}

#[test]
fn test_builder_stdin() {
    let config = SandboxConfig::builder().stdin("hello world").build();

    assert_eq!(config.stdin, Some("hello world".to_string()));
}

#[test]
fn test_builder_env_vars() {
    let config = SandboxConfig::builder()
        .env("KEY1", "value1")
        .env("KEY2", "value2")
        .build();

    assert_eq!(config.env_vars.len(), 2);
    assert_eq!(
        config.env_vars[0],
        ("KEY1".to_string(), "value1".to_string())
    );
    assert_eq!(
        config.env_vars[1],
        ("KEY2".to_string(), "value2".to_string())
    );
}

#[test]
fn test_builder_envs() {
    let vars = vec![
        ("A".to_string(), "1".to_string()),
        ("B".to_string(), "2".to_string()),
        ("C".to_string(), "3".to_string()),
    ];
    let config = SandboxConfig::builder().envs(vars).build();

    assert_eq!(config.env_vars.len(), 3);
}

#[test]
fn test_builder_prelude() {
    let config = SandboxConfig::builder()
        .prelude("def helper(): pass")
        .build();

    assert_eq!(config.prelude, Some("def helper(): pass".to_string()));
}

#[test]
fn test_builder_interpreter_path_and_tick() {
    let config = SandboxConfig::builder()
        .interpreter_path("custom/interpreter.wasm")
        .epoch_tick_interval(5)
        .build();
    assert_eq!(config.interpreter_path, "custom/interpreter.wasm".to_string());
    assert_eq!(config.epoch_tick_interval_ms, 5);
}

#[test]
fn test_default_interpreter_path_and_tick() {
    let config = SandboxConfig::default();
    assert_eq!(config.interpreter_path, "assets/rustpython.wasm".to_string());
    assert_eq!(config.epoch_tick_interval_ms, 10);
    assert!(config.max_fuel.is_none());
}
