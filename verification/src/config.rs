//! Sandbox configuration with an accumulating builder.
//!
//! A `SandboxConfig` is an immutable description of one logical sandbox.
//! Durations are carried in milliseconds.  Every field has a default; the
//! builder records only what the caller sets and `build` fills in the rest.

use vstd::prelude::*;

verus! {

/// Default wall-clock timeout in milliseconds (30 seconds).
pub const DEFAULT_TIMEOUT_MS: u64 = 30_000;

/// Default memory ceiling in bytes (64 MiB).
pub const DEFAULT_MAX_MEMORY: u64 = 67_108_864;

/// Default interrupt-tick interval in milliseconds.
pub const DEFAULT_EPOCH_TICK_INTERVAL_MS: u64 = 10;

/// Configuration for one sandbox.
#[derive(Debug, Clone)]
pub struct SandboxConfig {
    /// Maximum execution time before timeout, in milliseconds.
    pub timeout_ms: u64,
    /// Maximum memory in bytes.
    pub max_memory: u64,
    /// Maximum fuel (instruction count limit).
    pub max_fuel: Option<u64>,
    /// Path to the interpreter module artifact.
    pub interpreter_path: String,
    /// Interrupt-tick interval for cooperative timeout, in milliseconds.
    pub epoch_tick_interval_ms: u64,
    /// Stdin data to provide to the sandbox.
    pub stdin: Option<String>,
    /// Environment variables to set in the sandbox.
    pub env_vars: Vec<(String, String)>,
    /// Prelude source text to run before user code.
    pub prelude: Option<String>,
}

impl Default for SandboxConfig {
    /// The default configuration: 30 s timeout, 64 MiB memory, no fuel
    /// limit, the bundled interpreter path, 10 ms tick interval, and no
    /// stdin, environment or prelude.
    fn default() -> (r: Self)
        ensures
            r.timeout_ms == DEFAULT_TIMEOUT_MS,
            r.max_memory == DEFAULT_MAX_MEMORY,
            r.max_fuel is None,
            r.interpreter_path@ == "assets/rustpython.wasm"@,
            r.epoch_tick_interval_ms == DEFAULT_EPOCH_TICK_INTERVAL_MS,
            r.stdin is None,
            r.env_vars@ == Seq::<(String, String)>::empty(),
            r.prelude is None,
    {
        SandboxConfig {
            timeout_ms: DEFAULT_TIMEOUT_MS,
            max_memory: DEFAULT_MAX_MEMORY,
            max_fuel: None,
            interpreter_path: "assets/rustpython.wasm".to_owned(),
            epoch_tick_interval_ms: DEFAULT_EPOCH_TICK_INTERVAL_MS,
            stdin: None,
            env_vars: Vec::new(),
            prelude: None,
        }
    }
}

impl SandboxConfig {
    /// Create a new builder for `SandboxConfig`.
    pub fn builder() -> (r: SandboxConfigBuilder)
        ensures
            r.timeout_ms is None,
            r.max_memory is None,
            r.max_fuel is None,
            r.interpreter_path is None,
            r.epoch_tick_interval_ms is None,
            r.stdin is None,
            r.env_vars@ == Seq::<(String, String)>::empty(),
            r.prelude is None,
    {
        SandboxConfigBuilder {
            timeout_ms: None,
            max_memory: None,
            max_fuel: None,
            interpreter_path: None,
            epoch_tick_interval_ms: None,
            stdin: None,
            env_vars: Vec::new(),
            prelude: None,
        }
    }
}

/// Builder for creating `SandboxConfig` values.
#[derive(Debug, Clone)]
pub struct SandboxConfigBuilder {
    /// Chosen timeout in milliseconds, if any.
    pub timeout_ms: Option<u64>,
    /// Chosen memory ceiling in bytes, if any.
    pub max_memory: Option<u64>,
    /// Chosen fuel limit, if any.
    pub max_fuel: Option<u64>,
    /// Chosen interpreter path, if any.
    pub interpreter_path: Option<String>,
    /// Chosen tick interval in milliseconds, if any.
    pub epoch_tick_interval_ms: Option<u64>,
    /// Chosen stdin payload, if any.
    pub stdin: Option<String>,
    /// Accumulated environment variables.
    pub env_vars: Vec<(String, String)>,
    /// Chosen prelude source text, if any.
    pub prelude: Option<String>,
}

impl Default for SandboxConfigBuilder {
    /// A builder with nothing chosen yet.
    fn default() -> (r: Self)
        ensures
            r.timeout_ms is None,
            r.max_memory is None,
            r.max_fuel is None,
            r.interpreter_path is None,
            r.epoch_tick_interval_ms is None,
            r.stdin is None,
            r.env_vars@ == Seq::<(String, String)>::empty(),
            r.prelude is None,
    {
        SandboxConfig::builder()
    }
}

impl SandboxConfigBuilder {
    /// Set the maximum execution timeout, in milliseconds.
    pub fn timeout(self, timeout_ms: u64) -> (r: Self)
        ensures
            r == (SandboxConfigBuilder { timeout_ms: Some(timeout_ms), ..self }),
    {
        SandboxConfigBuilder { timeout_ms: Some(timeout_ms), ..self }
    }

    /// Set the maximum memory limit in bytes.
    pub fn max_memory(self, bytes: u64) -> (r: Self)
        ensures
            r == (SandboxConfigBuilder { max_memory: Some(bytes), ..self }),
    {
        SandboxConfigBuilder { max_memory: Some(bytes), ..self }
    }

    /// Set the maximum fuel (instruction count).
    ///
    /// When fuel is exhausted, execution stops with an error.  This provides
    /// deterministic limiting of computation.
    pub fn max_fuel(self, fuel: u64) -> (r: Self)
        ensures
            r == (SandboxConfigBuilder { max_fuel: Some(fuel), ..self }),
    {
        SandboxConfigBuilder { max_fuel: Some(fuel), ..self }
    }

    /// Set the path to the interpreter module artifact.
    pub fn interpreter_path(self, path: &str) -> (r: Self)
        ensures
            r.interpreter_path matches Some(p) && p@ == path@,
            r.timeout_ms == self.timeout_ms,
            r.max_memory == self.max_memory,
            r.max_fuel == self.max_fuel,
            r.epoch_tick_interval_ms == self.epoch_tick_interval_ms,
            r.stdin == self.stdin,
            r.env_vars == self.env_vars,
            r.prelude == self.prelude,
    {
        SandboxConfigBuilder { interpreter_path: Some(path.to_owned()), ..self }
    }

    /// Set the interrupt-tick interval for timeout checking, in
    /// milliseconds.
    ///
    /// Smaller intervals provide more responsive timeout detection but incur
    /// slightly more overhead.
    pub fn epoch_tick_interval(self, interval_ms: u64) -> (r: Self)
        ensures
            r == (SandboxConfigBuilder { epoch_tick_interval_ms: Some(interval_ms), ..self }),
    {
        SandboxConfigBuilder { epoch_tick_interval_ms: Some(interval_ms), ..self }
    }

    /// Set stdin data to provide to the guest code.
    pub fn stdin(self, data: &str) -> (r: Self)
        ensures
            r.stdin matches Some(d) && d@ == data@,
            r.timeout_ms == self.timeout_ms,
            r.max_memory == self.max_memory,
            r.max_fuel == self.max_fuel,
            r.interpreter_path == self.interpreter_path,
            r.epoch_tick_interval_ms == self.epoch_tick_interval_ms,
            r.env_vars == self.env_vars,
            r.prelude == self.prelude,
    {
        SandboxConfigBuilder { stdin: Some(data.to_owned()), ..self }
    }

    /// Add an environment variable to the sandbox.
    pub fn env(self, key: &str, value: &str) -> (r: Self)
        ensures
            r.env_vars@.len() == self.env_vars@.len() + 1,
            forall|i: int| 0 <= i < self.env_vars@.len() ==> r.env_vars@[i] == self.env_vars@[i],
            r.env_vars@.last().0@ == key@,
            r.env_vars@.last().1@ == value@,
            r.timeout_ms == self.timeout_ms,
            r.max_memory == self.max_memory,
            r.max_fuel == self.max_fuel,
            r.interpreter_path == self.interpreter_path,
            r.epoch_tick_interval_ms == self.epoch_tick_interval_ms,
            r.stdin == self.stdin,
            r.prelude == self.prelude,
    {
        let mut b = self;
        b.env_vars.push((key.to_owned(), value.to_owned()));
        b
    }

    /// Add multiple environment variables to the sandbox, in order.
    pub fn envs(self, vars: Vec<(String, String)>) -> (r: Self)
        ensures
            r.env_vars@ == self.env_vars@ + vars@,
            r.timeout_ms == self.timeout_ms,
            r.max_memory == self.max_memory,
            r.max_fuel == self.max_fuel,
            r.interpreter_path == self.interpreter_path,
            r.epoch_tick_interval_ms == self.epoch_tick_interval_ms,
            r.stdin == self.stdin,
            r.prelude == self.prelude,
    {
        let mut b = self;
        let mut vs = vars;
        let ghost all = vs@;
        let mut i: usize = 0;
        proof {
            assert(b.env_vars@ + all.take(0) =~= b.env_vars@);
        }
        while i < vs.len()
            invariant
                i <= vs@.len(),
                vs@ == all,
                b.env_vars@ == self.env_vars@ + all.take(i as int),
                b.timeout_ms == self.timeout_ms,
                b.max_memory == self.max_memory,
                b.max_fuel == self.max_fuel,
                b.interpreter_path == self.interpreter_path,
                b.epoch_tick_interval_ms == self.epoch_tick_interval_ms,
                b.stdin == self.stdin,
                b.prelude == self.prelude,
            decreases vs@.len() - i,
        {
            let k = vs[i].0.clone();
            let v = vs[i].1.clone();
            b.env_vars.push((k, v));
            i = i + 1;
            proof {
                assert(b.env_vars@ =~= self.env_vars@ + all.take(i as int));
            }
        }
        proof {
            assert(all.take(all.len() as int) =~= all);
        }
        b
    }

    /// Set a prelude script to run before user code.
    ///
    /// The prelude is executed in the same context as the user code, so its
    /// definitions are available to the user code.
    pub fn prelude(self, code: &str) -> (r: Self)
        ensures
            r.prelude matches Some(p) && p@ == code@,
            r.timeout_ms == self.timeout_ms,
            r.max_memory == self.max_memory,
            r.max_fuel == self.max_fuel,
            r.interpreter_path == self.interpreter_path,
            r.epoch_tick_interval_ms == self.epoch_tick_interval_ms,
            r.stdin == self.stdin,
            r.env_vars == self.env_vars,
    {
        SandboxConfigBuilder { prelude: Some(code.to_owned()), ..self }
    }

    /// Build the `SandboxConfig`, filling unset fields with their defaults.
    pub fn build(self) -> (r: SandboxConfig)
        ensures
            r.timeout_ms == (match self.timeout_ms {
                Some(t) => t,
                None => DEFAULT_TIMEOUT_MS,
            }),
            r.max_memory == (match self.max_memory {
                Some(m) => m,
                None => DEFAULT_MAX_MEMORY,
            }),
            r.max_fuel == self.max_fuel,
            (match self.interpreter_path {
                Some(p) => r.interpreter_path == p,
                None => r.interpreter_path@ == "assets/rustpython.wasm"@,
            }),
            r.epoch_tick_interval_ms == (match self.epoch_tick_interval_ms {
                Some(t) => t,
                None => DEFAULT_EPOCH_TICK_INTERVAL_MS,
            }),
            r.stdin == self.stdin,
            r.env_vars == self.env_vars,
            r.prelude == self.prelude,
    {
        SandboxConfig {
            timeout_ms: match self.timeout_ms {
                Some(t) => t,
                None => DEFAULT_TIMEOUT_MS,
            },
            max_memory: match self.max_memory {
                Some(m) => m,
                None => DEFAULT_MAX_MEMORY,
            },
            max_fuel: self.max_fuel,
            interpreter_path: match self.interpreter_path {
                Some(p) => p,
                None => "assets/rustpython.wasm".to_owned(),
            },
            epoch_tick_interval_ms: match self.epoch_tick_interval_ms {
                Some(t) => t,
                None => DEFAULT_EPOCH_TICK_INTERVAL_MS,
            },
            stdin: self.stdin,
            env_vars: self.env_vars,
            prelude: self.prelude,
        }
    }
}

} // verus!
