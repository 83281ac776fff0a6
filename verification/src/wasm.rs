//! Trusted boundary to the WebAssembly runtime.
//!
//! The execution engine, its configuration and compiled modules are opaque
//! values of the `wasmtime` crate.  The library carries them through its
//! logic but never looks inside them; the few calls it makes are declared
//! here with the contracts the runtime's documentation supports.  Two
//! configuration settings and the success of compilation are given names, so
//! that callers can state which engine they built and when a module is owed.

use vstd::prelude::*;

verus! {

#[verifier::external_type_specification]
#[verifier::external_body]
pub struct ExConfig(wasmtime::Config);

#[verifier::external_type_specification]
#[verifier::external_body]
pub struct ExEngine(wasmtime::Engine);

#[verifier::external_type_specification]
#[verifier::external_body]
pub struct ExModule(wasmtime::Module);

/// Whether epoch-based interruption is switched on in the configuration,
/// as written by `wasmtime::Config::epoch_interruption`.
pub uninterp spec fn spec_epoch_enabled(config: wasmtime::Config) -> bool;

/// Whether fuel accounting is switched on in the configuration, as written
/// by `wasmtime::Config::consume_fuel`.
pub uninterp spec fn spec_fuel_enabled(config: wasmtime::Config) -> bool;

/// Whether the engine was built with epoch-based interruption on;
/// `wasmtime::Engine::new` fixes it from the configuration.
pub uninterp spec fn spec_engine_epoch(engine: wasmtime::Engine) -> bool;

/// Whether the engine was built with fuel accounting on;
/// `wasmtime::Engine::new` fixes it from the configuration.
pub uninterp spec fn spec_engine_fuel(engine: wasmtime::Engine) -> bool;

/// Whether `wasmtime::Module::new` accepts this binary on this engine; the
/// outcome depends on the engine's configuration and the bytes alone.
pub uninterp spec fn spec_compiles(engine: wasmtime::Engine, bytes: Seq<u8>) -> bool;

/// Relies on `wasmtime::Config::new`: a default engine configuration.
#[verifier::external_body]
fn new_config() -> wasmtime::Config {
    wasmtime::Config::new()
}

/// Relies on `wasmtime::Config::epoch_interruption`: switches epoch-based
/// interruption on or off in the configuration, leaving fuel accounting as
/// it was.
#[verifier::external_body]
fn config_epoch_interruption(config: &mut wasmtime::Config, enable: bool)
    ensures
        spec_epoch_enabled(*final(config)) == enable,
        spec_fuel_enabled(*final(config)) == spec_fuel_enabled(*old(config)),
{
    config.epoch_interruption(enable);
}

/// Relies on `wasmtime::Config::consume_fuel`: switches fuel accounting on
/// or off in the configuration, leaving epoch interruption as it was.
#[verifier::external_body]
fn config_consume_fuel(config: &mut wasmtime::Config, enable: bool)
    ensures
        spec_fuel_enabled(*final(config)) == enable,
        spec_epoch_enabled(*final(config)) == spec_epoch_enabled(*old(config)),
{
    config.consume_fuel(enable);
}

/// An engine configuration with epoch interruption always enabled and fuel
/// accounting as requested.
pub fn engine_config(consume_fuel: bool) -> (r: wasmtime::Config)
    ensures
        spec_epoch_enabled(r),
        spec_fuel_enabled(r) == consume_fuel,
{
    let mut config = new_config();
    config_epoch_interruption(&mut config, true);
    config_consume_fuel(&mut config, consume_fuel);
    config
}

/// Relies on `wasmtime::Engine::new`: builds an engine that captures the
/// configuration's interruption and fuel settings; on failure the error is
/// carried as its rendered text.
#[verifier::external_body]
pub fn new_engine(config: &wasmtime::Config) -> (r: Result<wasmtime::Engine, String>)
    ensures
        r matches Ok(e) ==> spec_engine_epoch(e) == spec_epoch_enabled(*config)
            && spec_engine_fuel(e) == spec_fuel_enabled(*config),
{
    wasmtime::Engine::new(config).map_err(|e| format!("{}", e))
}

/// Relies on `wasmtime::Module::new`: compiles a binary artifact into a
/// module for the given engine; whether it succeeds depends on the engine's
/// configuration and the bytes alone, and a malformed artifact fails with
/// the rendered error text.
#[verifier::external_body]
pub fn compile_module(engine: &wasmtime::Engine, bytes: &[u8]) -> (r: Result<
    wasmtime::Module,
    String,
>)
    ensures
        r is Ok <==> spec_compiles(*engine, bytes@),
{
    wasmtime::Module::new(engine, bytes).map_err(|e| format!("{}", e))
}

/// Relies on `std::sync::Arc::clone`: the clone refers to the same engine.
#[verifier::external_body]
pub fn arc_engine_clone(engine: &std::sync::Arc<wasmtime::Engine>) -> (r: std::sync::Arc<
    wasmtime::Engine,
>)
    ensures
        r == *engine,
{
    std::sync::Arc::clone(engine)
}

/// Relies on `std::sync::Arc::clone`: the clone refers to the same module.
#[verifier::external_body]
pub fn arc_module_clone(module: &std::sync::Arc<wasmtime::Module>) -> (r: std::sync::Arc<
    wasmtime::Module,
>)
    ensures
        r == *module,
{
    std::sync::Arc::clone(module)
}

/// Relies on `std::sync::Arc::as_ref`: borrows the engine behind the
/// shared pointer.
#[verifier::external_body]
pub fn engine_ref(engine: &std::sync::Arc<wasmtime::Engine>) -> (r: &wasmtime::Engine)
    ensures
        *r == **engine,
{
    engine.as_ref()
}

} // verus!
