//! Execution orchestration: options, result assembly and failure
//! classification.
//!
//! One execution runs the compiled interpreter module against an isolated
//! context.  The library owns every decision along that path: composing the
//! guest invocation, choosing the stdin payload, resolving the engine, and —
//! the crux — classifying a failed invocation in a fixed precedence order:
//! the limiter's verdict first, then the interrupt trap, then fuel
//! exhaustion, then a clean-exit signal, and a catch-all last.  The host
//! drives the blocking call and the interrupt ticker and hands the observed
//! signals back as plain values.

use std::sync::Arc;
use vstd::prelude::*;
use vstd::string::StringExecFns;

use crate::cache::{ModuleCache, SharedEngine};
use crate::config::SandboxConfig;
use crate::error::SandboxError;
use crate::limits::SandboxLimiter;
use crate::text::{chars_of, find_first_match, lower_of, lowercase, spec_match_at, u64_to_dec};
use crate::wasm::{engine_config, engine_ref, new_engine, spec_engine_epoch, spec_engine_fuel};

verus! {

/// Metadata about an execution, including resource usage.
#[derive(Debug, Clone)]
pub struct ExecutionMetadata {
    /// Wall-clock duration of execution, in milliseconds.
    pub duration_ms: u64,
    /// Peak memory usage in bytes, as tracked by the limiter.
    pub peak_memory: u64,
    /// Fuel consumed during execution, if fuel limiting was enabled.
    pub fuel_consumed: Option<u64>,
    /// Whether this execution used a cached module.
    pub used_cached_module: bool,
}

impl ExecutionMetadata {
    /// Create empty metadata (used when execution fails early).
    pub fn empty() -> (r: Self)
        ensures
            r.duration_ms == 0,
            r.peak_memory == 0,
            r.fuel_consumed is None,
            !r.used_cached_module,
    {
        ExecutionMetadata {
            duration_ms: 0,
            peak_memory: 0,
            fuel_consumed: None,
            used_cached_module: false,
        }
    }
}

/// Result of one guest execution.
#[derive(Debug, Clone)]
pub struct ExecutionResult {
    /// Captured stdout output.
    pub stdout: String,
    /// Captured stderr output.
    pub stderr: String,
    /// Exit code (0 for success).
    pub exit_code: i32,
    /// Execution metadata including timing and resource usage.
    pub metadata: ExecutionMetadata,
}

impl ExecutionResult {
    /// Check if the execution was successful (exit code 0).
    pub fn is_success(&self) -> (r: bool)
        ensures
            r == (self.exit_code == 0),
    {
        self.exit_code == 0
    }
}

/// Options for creating a sandbox.
#[derive(Clone)]
pub struct SandboxOptions {
    /// Whether to use a module cache.
    pub use_cache: bool,
    /// A specific module cache to use (if not using a process-wide one).
    pub cache: Option<Arc<ModuleCache>>,
    /// A shared engine to use (if provided).
    pub shared_engine: Option<SharedEngine>,
}

impl Default for SandboxOptions {
    /// Caching on, no private cache, no shared engine.
    fn default() -> (r: Self)
        ensures
            r.use_cache,
            r.cache is None,
            r.shared_engine is None,
    {
        SandboxOptions { use_cache: true, cache: None, shared_engine: None }
    }
}

impl SandboxOptions {
    /// Create options with caching disabled.
    pub fn no_cache() -> (r: Self)
        ensures
            !r.use_cache,
            r.cache is None,
            r.shared_engine is None,
    {
        SandboxOptions { use_cache: false, cache: None, shared_engine: None }
    }

    /// Create options with a specific cache.
    pub fn with_cache(cache: Arc<ModuleCache>) -> (r: Self)
        ensures
            r.use_cache,
            r.cache == Some(cache),
            r.shared_engine is None,
    {
        SandboxOptions { use_cache: true, cache: Some(cache), shared_engine: None }
    }

    /// Create options with a shared engine.
    pub fn with_engine(engine: SharedEngine) -> (r: Self)
        ensures
            r.use_cache,
            r.cache is None,
            r.shared_engine == Some(engine),
    {
        SandboxOptions { use_cache: true, cache: None, shared_engine: Some(engine) }
    }

    /// Set whether to use caching.
    pub fn use_cache(self, use_cache: bool) -> (r: Self)
        ensures
            r.use_cache == use_cache,
            r.cache == self.cache,
            r.shared_engine == self.shared_engine,
    {
        SandboxOptions { use_cache, ..self }
    }

    /// Set a specific cache to use; this also turns caching on.
    pub fn cache(self, cache: Arc<ModuleCache>) -> (r: Self)
        ensures
            r.use_cache,
            r.cache == Some(cache),
            r.shared_engine == self.shared_engine,
    {
        SandboxOptions { use_cache: true, cache: Some(cache), ..self }
    }

    /// Set a shared engine to use.
    pub fn engine(self, engine: SharedEngine) -> (r: Self)
        ensures
            r.use_cache == self.use_cache,
            r.cache == self.cache,
            r.shared_engine == Some(engine),
    {
        SandboxOptions { shared_engine: Some(engine), ..self }
    }
}

/// A sandboxed execution environment: a configuration paired with the
/// resolved engine and compiled interpreter module.
pub struct PythonSandbox {
    /// The sandbox configuration.
    pub config: SandboxConfig,
    /// The execution engine.
    pub engine: Arc<wasmtime::Engine>,
    /// The compiled interpreter module.
    pub module: Arc<wasmtime::Module>,
    /// Whether the module came from a cache.
    pub module_was_cached: bool,
}

impl PythonSandbox {
    /// Assemble a sandbox from already-resolved parts.
    pub fn from_parts(
        config: SandboxConfig,
        engine: Arc<wasmtime::Engine>,
        module: Arc<wasmtime::Module>,
        module_was_cached: bool,
    ) -> (r: Self)
        ensures
            r.config == config,
            r.engine == engine,
            r.module == module,
            r.module_was_cached == module_was_cached,
    {
        PythonSandbox { config, engine, module, module_was_cached }
    }

    /// Resolve the engine for a sandbox: reuse the shared engine when the
    /// options carry one, otherwise build a fresh engine with epoch
    /// interruption on and fuel accounting exactly when the configuration
    /// sets a fuel limit.
    pub fn resolve_engine(config: &SandboxConfig, options: &SandboxOptions) -> (r: Result<
        Arc<wasmtime::Engine>,
        SandboxError,
    >)
        ensures
            (match options.shared_engine {
                Some(se) => r == Ok::<_, SandboxError>(se.engine),
                None => {
                    &&& (r matches Ok(e) ==> spec_engine_epoch(*e) && spec_engine_fuel(*e) == (
                    config.max_fuel is Some))
                    &&& (r matches Err(e) ==> e matches SandboxError::RuntimeInit(_))
                },
            }),
    {
        match &options.shared_engine {
            Some(se) => Ok(se.arc()),
            None => {
                let cfg = engine_config(config.max_fuel.is_some());
                match new_engine(&cfg) {
                    Ok(e) => Ok(Arc::new(e)),
                    Err(msg) => Err(SandboxError::RuntimeInit(msg)),
                }
            },
        }
    }

    /// Get the engine used by this sandbox.
    pub fn engine(&self) -> &wasmtime::Engine {
        engine_ref(&self.engine)
    }

    /// Check if this sandbox is using a cached module.
    pub fn is_using_cached_module(&self) -> (r: bool)
        ensures
            r == self.module_was_cached,
    {
        self.module_was_cached
    }

    /// The deadline elapsed before the blocking execution finished: the
    /// execution is abandoned and the configured duration reported.
    pub fn timeout_error(&self) -> (r: SandboxError)
        ensures
            r == SandboxError::Timeout(self.config.timeout_ms),
    {
        SandboxError::Timeout(self.config.timeout_ms)
    }
}

/// A panic inside the blocking execution task is caught at the join point
/// and reported, never propagated as an unhandled fault.
pub fn panicked_error(message: String) -> (r: SandboxError)
    ensures
        r matches SandboxError::ExecutionFailed(m) && m@ == "task panicked: "@ + message@,
{
    let mut m: String = "task panicked: ".to_owned();
    m.append(message.as_str());
    SandboxError::ExecutionFailed(m)
}

/// One prepared guest invocation: everything the isolated context is built
/// from, as plain values.
pub struct Invocation {
    /// The guest argument vector.
    pub argv: Vec<String>,
    /// Environment variables exposed to the guest.
    pub env_vars: Vec<(String, String)>,
    /// The stdin payload, if any.
    pub stdin: Option<String>,
    /// The memory ceiling for the resource limiter.
    pub max_memory: u64,
    /// The instruction budget to charge, if any.
    pub max_fuel: Option<u64>,
}

/// The text handed to the interpreter: the optional prelude, a line feed,
/// then the user code.
pub open spec fn spec_composed_code(prelude: Option<String>, code: Seq<char>) -> Seq<char> {
    match prelude {
        Some(p) => p@ + seq!['\n'] + code,
        None => code,
    }
}

/// Prepare one guest invocation from the configuration, the user code and
/// an optional call-level stdin payload.
///
/// The code is delivered as if the interpreter were launched as
/// `python -c <code>`; the prelude, if any, is prepended with a line feed.
/// A config-level stdin payload takes precedence over the call-level one.
pub fn prepare_invocation(config: &SandboxConfig, code: &str, input: Option<&str>) -> (r:
    Invocation)
    ensures
        r.argv@.len() == 3,
        r.argv@[0]@ == "python"@,
        r.argv@[1]@ == "-c"@,
        r.argv@[2]@ == spec_composed_code(config.prelude, code@),
        r.env_vars@ == config.env_vars@,
        (match (config.stdin, input) {
            (Some(s), _) => r.stdin matches Some(x) && x@ == s@,
            (None, Some(i)) => r.stdin matches Some(x) && x@ == i@,
            (None, None) => r.stdin is None,
        }),
        r.max_memory == config.max_memory,
        r.max_fuel == config.max_fuel,
{
    let full_code: String = match &config.prelude {
        Some(p) => {
            let mut s = p.clone();
            s.append("\n");
            s.append(code);
            proof {
                reveal_strlit("\n");
                assert("\n"@ =~= seq!['\n']);
            }
            s
        },
        None => code.to_owned(),
    };
    let mut argv: Vec<String> = Vec::new();
    argv.push("python".to_owned());
    argv.push("-c".to_owned());
    argv.push(full_code);
    let stdin: Option<String> = match &config.stdin {
        Some(s) => Some(s.clone()),
        None => match input {
            Some(i) => Some(i.to_owned()),
            None => None,
        },
    };
    let mut env_vars: Vec<(String, String)> = Vec::new();
    let n = config.env_vars.len();
    let mut i: usize = 0;
    while i < n
        invariant
            i <= n,
            n == config.env_vars@.len(),
            env_vars@ == config.env_vars@.take(i as int),
        decreases n - i,
    {
        let k = config.env_vars[i].0.clone();
        let v = config.env_vars[i].1.clone();
        env_vars.push((k, v));
        i = i + 1;
        proof {
            assert(env_vars@ =~= config.env_vars@.take(i as int));
        }
    }
    proof {
        assert(config.env_vars@.take(n as int) =~= config.env_vars@);
    }
    Invocation { argv, env_vars, stdin, max_memory: config.max_memory, max_fuel: config.max_fuel }
}

/// The observable signals of a failed entry-point invocation, extracted
/// from the runtime error and its chain of causes.
pub struct FailureSignals {
    /// Some cause is the interrupt trap.
    pub trap_interrupt: bool,
    /// Some cause is the fuel-exhaustion trap.
    pub trap_out_of_fuel: bool,
    /// A clean-exit signal carrying this code.
    pub exit_code: Option<i32>,
    /// The rendered text of each cause in the chain, outermost first.
    pub chain_messages: Vec<String>,
    /// The rendered text of the failure itself.
    pub message: String,
}

/// `pat` occurs somewhere in `s`.
pub open spec fn spec_contains_sub(s: Seq<char>, pat: Seq<char>) -> bool {
    exists|i: int| spec_match_at(s, pat, i)
}

/// The lowercased text mentions an epoch interrupt.
pub open spec fn spec_mentions_interrupt(m: Seq<char>) -> bool {
    spec_contains_sub(lower_of(m), "epoch"@) || spec_contains_sub(lower_of(m), "interrupt"@)
}

/// The lowercased text mentions fuel.
pub open spec fn spec_mentions_fuel(m: Seq<char>) -> bool {
    spec_contains_sub(lower_of(m), "fuel"@)
}

/// The failure is an interrupt: by trap kind, or by the textual fallback
/// over the cause chain.
pub open spec fn spec_is_interrupt(s: FailureSignals) -> bool {
    s.trap_interrupt || exists|i: int|
        0 <= i < s.chain_messages@.len() && spec_mentions_interrupt(#[trigger] s.chain_messages@[i]@)
}

/// The failure is fuel exhaustion: by trap kind, or by the textual
/// fallback over the cause chain.
pub open spec fn spec_is_out_of_fuel(s: FailureSignals) -> bool {
    s.trap_out_of_fuel || exists|i: int|
        0 <= i < s.chain_messages@.len() && spec_mentions_fuel(#[trigger] s.chain_messages@[i]@)
}

/// Check whether the lowercase rendering of `m` contains `pat`.
fn contains_lower(m: &str, pat: &Vec<char>) -> (r: bool)
    requires
        pat@.len() > 0,
    ensures
        r == spec_contains_sub(lower_of(m@), pat@),
{
    let low = lowercase(m);
    let lc = chars_of(low.as_str());
    let n = lc.len();
    let found = find_first_match(&lc, 0, n, pat);
    proof {
        assert(lc@.subrange(0, n as int) =~= lower_of(m@));
    }
    match found {
        Some(_) => true,
        None => false,
    }
}

/// Check whether the signals indicate an interrupt.
fn signals_interrupt(s: &FailureSignals) -> (r: bool)
    ensures
        r == spec_is_interrupt(*s),
{
    if s.trap_interrupt {
        return true;
    }
    let pat_epoch = chars_of("epoch");
    let pat_interrupt = chars_of("interrupt");
    proof {
        reveal_strlit("epoch");
        reveal_strlit("interrupt");
    }
    let n = s.chain_messages.len();
    let mut i: usize = 0;
    while i < n
        invariant
            i <= n,
            n == s.chain_messages@.len(),
            pat_epoch@ == "epoch"@,
            pat_interrupt@ == "interrupt"@,
            pat_epoch@.len() > 0,
            pat_interrupt@.len() > 0,
            forall|j: int|
                0 <= j < i ==> !spec_mentions_interrupt(#[trigger] s.chain_messages@[j]@),
        decreases n - i,
    {
        let m = s.chain_messages[i].as_str();
        if contains_lower(m, &pat_epoch) {
            return true;
        }
        if contains_lower(m, &pat_interrupt) {
            return true;
        }
        i = i + 1;
    }
    false
}

/// Check whether the signals indicate fuel exhaustion.
fn signals_out_of_fuel(s: &FailureSignals) -> (r: bool)
    ensures
        r == spec_is_out_of_fuel(*s),
{
    if s.trap_out_of_fuel {
        return true;
    }
    let pat_fuel = chars_of("fuel");
    proof {
        reveal_strlit("fuel");
    }
    let n = s.chain_messages.len();
    let mut i: usize = 0;
    while i < n
        invariant
            i <= n,
            n == s.chain_messages@.len(),
            pat_fuel@ == "fuel"@,
            pat_fuel@.len() > 0,
            forall|j: int| 0 <= j < i ==> !spec_mentions_fuel(#[trigger] s.chain_messages@[j]@),
        decreases n - i,
    {
        let m = s.chain_messages[i].as_str();
        if contains_lower(m, &pat_fuel) {
            return true;
        }
        i = i + 1;
    }
    false
}

/// Fuel charged minus fuel left, saturating at zero; absent without a
/// budget.
pub open spec fn spec_fuel_consumed(initial: Option<u64>, remaining: u64) -> Option<u64> {
    match initial {
        Some(f) => Some((if f >= remaining {
            (f - remaining) as u64
        } else {
            0u64
        })),
        None => None,
    }
}

/// Compute the consumed fuel from the charged budget and what is left.
pub fn fuel_consumed(initial: Option<u64>, remaining: u64) -> (r: Option<u64>)
    ensures
        r == spec_fuel_consumed(initial, remaining),
{
    match initial {
        Some(f) => Some(
            if f >= remaining {
                f - remaining
            } else {
                0
            },
        ),
        None => None,
    }
}

/// The memory-limit message: the phase, the bytes in use, and the ceiling.
pub open spec fn spec_mem_message(during_instantiation: bool, current: u64, limit: u64) -> Seq<
    char,
> {
    (if during_instantiation {
        "memory limit exceeded during instantiation (used "@
    } else {
        "memory limit exceeded during execution (used "@
    }) + crate::text::spec_u64_dec(current as int) + " bytes, limit "@
        + crate::text::spec_u64_dec(limit as int) + " bytes)"@
}

/// Render the memory-limit message.
fn mem_message(during_instantiation: bool, current: u64, limit: u64) -> (r: String)
    ensures
        r@ == spec_mem_message(during_instantiation, current, limit),
{
    let mut m: String = if during_instantiation {
        "memory limit exceeded during instantiation (used ".to_owned()
    } else {
        "memory limit exceeded during execution (used ".to_owned()
    };
    let cur = u64_to_dec(current);
    m.append(cur.as_str());
    m.append(" bytes, limit ");
    let lim = u64_to_dec(limit);
    m.append(lim.as_str());
    m.append(" bytes)");
    m
}

/// Classify a failed module instantiation.
///
/// Instantiation itself can allocate linear memory, so a failure while the
/// limiter is marked exceeded is a memory-limit error; anything else is a
/// module-load error carrying the rendered cause.
pub fn classify_instantiation_failure(limiter: &SandboxLimiter, message: String) -> (r:
    SandboxError)
    ensures
        limiter.limit_exceeded ==> (r matches SandboxError::MemoryLimitExceeded(m) && m@
            == spec_mem_message(true, limiter.current_memory, limiter.max_memory)),
        !limiter.limit_exceeded ==> (r matches SandboxError::ModuleLoad(m) && m@
            == "failed to instantiate: "@ + message@),
        r matches SandboxError::MemoryLimitExceeded(_) <==> limiter.limit_exceeded,
{
    if limiter.limit_exceeded() {
        SandboxError::MemoryLimitExceeded(
            mem_message(true, limiter.current_memory(), limiter.max_memory()),
        )
    } else {
        let mut m: String = "failed to instantiate: ".to_owned();
        m.append(message.as_str());
        SandboxError::ModuleLoad(m)
    }
}

/// Classify a failed entry-point invocation, in fixed precedence order:
/// the limiter's verdict first, then the interrupt trap (with its textual
/// fallback), then fuel exhaustion, then a recognized clean-exit signal,
/// and a catch-all failure last.
pub fn classify_invocation_failure(
    limiter: &SandboxLimiter,
    signals: FailureSignals,
    elapsed_ms: u64,
    initial_fuel: Option<u64>,
    fuel_remaining: u64,
) -> (r: Result<i32, SandboxError>)
    ensures
        limiter.limit_exceeded ==> (r matches Err(e) && (e matches
            SandboxError::MemoryLimitExceeded(m) && m@ == spec_mem_message(
            false,
            limiter.current_memory,
            limiter.max_memory,
        ))),
        !limiter.limit_exceeded && spec_is_interrupt(signals) ==> r == Err::<i32, _>(
            SandboxError::Timeout(elapsed_ms),
        ),
        !limiter.limit_exceeded && !spec_is_interrupt(signals) && spec_is_out_of_fuel(signals)
            ==> r == Err::<i32, _>(
            SandboxError::OutOfFuel { consumed: spec_fuel_consumed(initial_fuel, fuel_remaining) },
        ),
        !limiter.limit_exceeded && !spec_is_interrupt(signals) && !spec_is_out_of_fuel(signals)
            ==> (match signals.exit_code {
            Some(code) => r == Ok::<i32, SandboxError>(code),
            None => r == Err::<i32, _>(SandboxError::ExecutionFailed(signals.message)),
        }),
        (r matches Err(e) && e matches SandboxError::MemoryLimitExceeded(_)) <==> limiter.limit_exceeded,
{
    if limiter.limit_exceeded() {
        return Err(
            SandboxError::MemoryLimitExceeded(
                mem_message(false, limiter.current_memory(), limiter.max_memory()),
            ),
        );
    }
    if signals_interrupt(&signals) {
        return Err(SandboxError::Timeout(elapsed_ms));
    }
    if signals_out_of_fuel(&signals) {
        return Err(SandboxError::OutOfFuel { consumed: fuel_consumed(initial_fuel, fuel_remaining) });
    }
    match signals.exit_code {
        Some(code) => Ok(code),
        None => Err(SandboxError::ExecutionFailed(signals.message)),
    }
}

/// Assemble the result of an execution that ran to an exit code.
pub fn build_result(
    stdout: String,
    stderr: String,
    exit_code: i32,
    duration_ms: u64,
    limiter: &SandboxLimiter,
    initial_fuel: Option<u64>,
    fuel_remaining: u64,
    used_cached_module: bool,
) -> (r: ExecutionResult)
    ensures
        r.stdout == stdout,
        r.stderr == stderr,
        r.exit_code == exit_code,
        r.metadata.duration_ms == duration_ms,
        r.metadata.peak_memory == limiter.peak_memory,
        r.metadata.fuel_consumed == spec_fuel_consumed(initial_fuel, fuel_remaining),
        r.metadata.used_cached_module == used_cached_module,
{
    ExecutionResult {
        stdout,
        stderr,
        exit_code,
        metadata: ExecutionMetadata {
            duration_ms,
            peak_memory: limiter.peak_memory(),
            fuel_consumed: fuel_consumed(initial_fuel, fuel_remaining),
            used_cached_module,
        },
    }
}

/// Law: whenever an execution result is assembled from a well-formed
/// limiter, the reported peak memory does not exceed the configured memory
/// ceiling.
pub proof fn law_result_peak_within_ceiling(limiter: SandboxLimiter, r: ExecutionResult)
    requires
        limiter.wf(),
        r.metadata.peak_memory == limiter.peak_memory,
    ensures
        r.metadata.peak_memory <= limiter.max_memory,
{
}

} // verus!
