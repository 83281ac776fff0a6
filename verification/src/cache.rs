//! Compiled-module caching and engine sharing.
//!
//! A `ModuleCache` maps a canonical interpreter path to a shared,
//! reference-counted compiled module, so many sandboxes can reuse one
//! expensive compilation.  Compilation happens outside any lock; insertion
//! re-checks under the write lock, so a race produces at most one winning
//! artifact and losers reuse the winner.  A `SharedEngine` is the matching
//! shareable execution context, configured once.

use std::sync::Arc;
use vstd::prelude::*;
use vstd::rwlock::{RwLock, RwLockPredicate};

use crate::error::SandboxError;
use crate::text::str_eq;
use crate::wasm::{
    arc_engine_clone, arc_module_clone, compile_module, engine_config, engine_ref, new_engine,
    spec_compiles, spec_engine_epoch, spec_engine_fuel,
};

verus! {

/// One cache entry: a canonical path and the module compiled from it.
pub struct CacheEntry {
    /// The canonical filesystem identity of the artifact.
    pub path: String,
    /// The compiled module.
    pub module: Arc<wasmtime::Module>,
}

/// The cache contents: at most one entry per canonical path.
pub struct CacheState {
    /// The entries, in insertion order.
    pub entries: Vec<CacheEntry>,
}

impl CacheState {
    /// Paths are pairwise distinct.
    pub open spec fn wf(&self) -> bool {
        forall|i: int, j: int|
            0 <= i < j < self.entries@.len() ==> self.entries@[i].path@ != self.entries@[j].path@
    }

    /// Some entry is cached under `path`.
    pub open spec fn spec_contains(&self, path: Seq<char>) -> bool {
        exists|i: int| 0 <= i < self.entries@.len() && self.entries@[i].path@ == path
    }

    /// The module cached under `path`.
    pub open spec fn spec_get(&self, path: Seq<char>) -> Arc<wasmtime::Module> {
        let i = choose|i: int| 0 <= i < self.entries@.len() && self.entries@[i].path@ == path;
        self.entries@[i].module
    }

    /// An empty cache state.
    pub fn new() -> (r: Self)
        ensures
            r.wf(),
            r.entries@.len() == 0,
    {
        CacheState { entries: Vec::new() }
    }

    /// Find the module cached under `path`.
    pub fn find(&self, path: &str) -> (r: Option<Arc<wasmtime::Module>>)
        requires
            self.wf(),
        ensures
            match r {
                Some(m) => self.spec_contains(path@) && m == self.spec_get(path@),
                None => !self.spec_contains(path@),
            },
    {
        let n = self.entries.len();
        let mut i: usize = 0;
        while i < n
            invariant
                self.wf(),
                n == self.entries@.len(),
                i <= n,
                forall|j: int| 0 <= j < i ==> self.entries@[j].path@ != path@,
            decreases n - i,
        {
            if str_eq(self.entries[i].path.as_str(), path) {
                let m = arc_module_clone(&self.entries[i].module);
                proof {
                    assert(self.spec_contains(path@));
                    let w = choose|w: int|
                        0 <= w < self.entries@.len() && self.entries@[w].path@ == path@;
                    if w != i {
                        assert(self.entries@[w].path@ != self.entries@[i as int].path@);
                    }
                }
                return Some(m);
            }
            i = i + 1;
        }
        None
    }

    /// The step relation of [`CacheState::insert_or_get`]: from state `s`,
    /// requesting `path` with a freshly compiled `module` yields state `s2`
    /// and module `r`.
    pub open spec fn spec_insert_or_get(
        s: CacheState,
        path: Seq<char>,
        module: Arc<wasmtime::Module>,
        s2: CacheState,
        r: Arc<wasmtime::Module>,
    ) -> bool {
        &&& s2.wf()
        &&& s2.spec_contains(path)
        &&& r == s2.spec_get(path)
        &&& if s.spec_contains(path) {
            s2 == s && r == s.spec_get(path)
        } else {
            r == module
        }
    }

    /// Keep at most one artifact per path: if `path` is already cached,
    /// return the existing module and discard `module`; otherwise insert
    /// `module` and return it.
    pub fn insert_or_get(&mut self, path: &str, module: Arc<wasmtime::Module>) -> (r: Arc<
        wasmtime::Module,
    >)
        requires
            old(self).wf(),
        ensures
            CacheState::spec_insert_or_get(*old(self), path@, module, *final(self), r),
            final(self).entries@.len() <= old(self).entries@.len() + 1,
            forall|k: Seq<char>|
                #[trigger] old(self).spec_contains(k) ==> final(self).spec_contains(k)
                    && final(self).spec_get(k) == old(self).spec_get(k),
    {
        match self.find(path) {
            Some(existing) => {
                existing
            },
            None => {
                let ghost before = self.entries@;
                let r = arc_module_clone(&module);
                self.entries.push(CacheEntry { path: path.to_owned(), module });
                proof {
                    let n = before.len() as int;
                    assert(self.entries@[n].path@ == path@);
                    assert(self.spec_contains(path@));
                    assert forall|i: int, j: int|
                        0 <= i < j < self.entries@.len() implies self.entries@[i].path@
                        != self.entries@[j].path@ by {
                        if j < n {
                            assert(before[i].path@ != before[j].path@);
                        } else {
                            assert(self.entries@[i] == before[i]);
                            assert(!old(self).spec_contains(path@));
                        }
                    }
                    let w = choose|w: int|
                        0 <= w < self.entries@.len() && self.entries@[w].path@ == path@;
                    if w != n {
                        assert(self.entries@[w] == before[w]);
                        assert(old(self).spec_contains(path@));
                    }
                    assert(self.spec_get(path@) == module);
                    assert forall|k: Seq<char>|
                        #[trigger] old(self).spec_contains(k) implies self.spec_contains(k)
                        && self.spec_get(k) == old(self).spec_get(k) by {
                        let u = choose|u: int| 0 <= u < before.len() && before[u].path@ == k;
                        assert(self.entries@[u] == before[u]);
                        assert(self.spec_contains(k));
                        let v = choose|v: int|
                            0 <= v < self.entries@.len() && self.entries@[v].path@ == k;
                        if v != u {
                            if v < n {
                                assert(before[v].path@ == k);
                            } else {
                                assert(!old(self).spec_contains(path@));
                            }
                        }
                        let v2 = choose|v2: int| 0 <= v2 < before.len() && before[v2].path@ == k;
                        if v2 != u {
                            assert(before[v2].path@ != before[u].path@ || v2 == u);
                        }
                    }
                }
                r
            },
        }
    }

    /// Remove the entry cached under `path`, reporting whether one existed.
    pub fn remove_entry(&mut self, path: &str) -> (r: bool)
        requires
            old(self).wf(),
        ensures
            final(self).wf(),
            r == old(self).spec_contains(path@),
            !final(self).spec_contains(path@),
            forall|k: Seq<char>|
                k != path@ ==> (#[trigger] final(self).spec_contains(k)
                    == old(self).spec_contains(k) && (old(self).spec_contains(k)
                    ==> final(self).spec_get(k) == old(self).spec_get(k))),
    {
        let n = self.entries.len();
        let mut i: usize = 0;
        while i < n
            invariant
                self == old(self),
                old(self).wf(),
                n == self.entries@.len(),
                i <= n,
                forall|j: int| 0 <= j < i ==> self.entries@[j].path@ != path@,
            decreases n - i,
        {
            if str_eq(self.entries[i].path.as_str(), path) {
                let ghost before = self.entries@;
                self.entries.remove(i);
                proof {
                    let removed = before.remove(i as int);
                    assert(self.entries@ =~= removed);
                    assert forall|a: int, b: int|
                        0 <= a < b < self.entries@.len() implies self.entries@[a].path@
                        != self.entries@[b].path@ by {
                        let a0 = if a < i { a } else { a + 1 };
                        let b0 = if b < i { b } else { b + 1 };
                        assert(self.entries@[a] == before[a0]);
                        assert(self.entries@[b] == before[b0]);
                    }
                    assert forall|w: int|
                        0 <= w < self.entries@.len() implies self.entries@[w].path@ != path@ by {
                        let w0 = if w < i { w } else { w + 1 };
                        assert(self.entries@[w] == before[w0]);
                        if w0 != i {
                            assert(before[w0].path@ != before[i as int].path@ || w0 == i);
                        }
                    }
                    assert(old(self).spec_contains(path@));
                    assert forall|k: Seq<char>|
                        k != path@ implies (#[trigger] self.spec_contains(k)
                        == old(self).spec_contains(k) && (old(self).spec_contains(k)
                        ==> self.spec_get(k) == old(self).spec_get(k))) by {
                        if old(self).spec_contains(k) {
                            let u = choose|u: int| 0 <= u < before.len() && before[u].path@ == k;
                            let u2 = if u < i { u } else { u - 1 };
                            assert(u != i);
                            assert(self.entries@[u2] == before[u]);
                            assert(self.spec_contains(k));
                            let v = choose|v: int|
                                0 <= v < self.entries@.len() && self.entries@[v].path@ == k;
                            let v0 = if v < i { v } else { v + 1 };
                            assert(self.entries@[v] == before[v0]);
                            if v0 != u {
                                assert(before[v0].path@ != before[u].path@ || v0 == u);
                            }
                            let w = choose|w: int| 0 <= w < before.len() && before[w].path@ == k;
                            if w != u {
                                assert(before[w].path@ != before[u].path@ || w == u);
                            }
                        } else {
                            if self.spec_contains(k) {
                                let v = choose|v: int|
                                    0 <= v < self.entries@.len() && self.entries@[v].path@ == k;
                                let v0 = if v < i { v } else { v + 1 };
                                assert(self.entries@[v] == before[v0]);
                                assert(old(self).spec_contains(k));
                            }
                        }
                    }
                }
                return true;
            }
            i = i + 1;
        }
        proof {
            if old(self).spec_contains(path@) {
                let u = choose|u: int|
                    0 <= u < self.entries@.len() && self.entries@[u].path@ == path@;
            }
        }
        false
    }
}

/// Law: once an artifact is cached under a path, every later request for
/// that path returns the identical artifact, whatever freshly compiled
/// module the requester brought along, and the cache does not change.
pub proof fn law_cache_returns_identical_artifact(
    s0: CacheState,
    s1: CacheState,
    s2: CacheState,
    path: Seq<char>,
    fresh1: Arc<wasmtime::Module>,
    fresh2: Arc<wasmtime::Module>,
    m1: Arc<wasmtime::Module>,
    m2: Arc<wasmtime::Module>,
)
    requires
        CacheState::spec_insert_or_get(s0, path, fresh1, s1, m1),
        CacheState::spec_insert_or_get(s1, path, fresh2, s2, m2),
    ensures
        m2 == m1,
        s2 == s1,
{
}

/// The lock invariant of a module cache: its state is well-formed.
pub struct CacheInv {}

impl RwLockPredicate<CacheState> for CacheInv {
    open spec fn inv(self, v: CacheState) -> bool {
        v.wf()
    }
}

/// A thread-safe cache of compiled modules, keyed by canonical path.
///
/// The cache stores compiled modules keyed by the canonical filesystem
/// identity of their artifact, allowing multiple sandbox instances to share
/// one compiled module and avoid redundant compilation.
pub struct ModuleCache {
    /// The cached modules, behind a reader-writer lock.
    inner: RwLock<CacheState, CacheInv>,
}

impl ModuleCache {
    /// Create a new empty module cache.
    pub fn new() -> ModuleCache {
        ModuleCache { inner: RwLock::new(CacheState::new(), Ghost(CacheInv {  })) }
    }

    /// Look up the module cached under a canonical path.
    pub fn lookup(&self, path: &str) -> Option<Arc<wasmtime::Module>> {
        let handle = self.inner.acquire_read();
        let r = handle.borrow().find(path);
        handle.release_read();
        r
    }

    /// Get a cached module or compile `bytes` if not present.
    ///
    /// `path` is the canonical filesystem identity of the artifact and
    /// `bytes` its raw contents.  On a cache hit the bytes are not touched.
    /// On a miss the module is compiled outside any lock; before inserting,
    /// the cache is re-checked under the write lock, and if a concurrent
    /// caller inserted the same path first, the redundant compile is
    /// discarded and the existing entry returned.
    pub fn get_or_compile(&self, engine: &wasmtime::Engine, path: &str, bytes: &[u8]) -> (r:
        Result<Arc<wasmtime::Module>, SandboxError>)
        ensures
            spec_compiles(*engine, bytes@) ==> r is Ok,
            r matches Err(e) ==> e matches SandboxError::ModuleLoad(_),
    {
        // fast path: read lock only
        let handle = self.inner.acquire_read();
        let found = handle.borrow().find(path);
        handle.release_read();
        if let Some(m) = found {
            return Ok(m);
        }
        // compile outside any lock, so concurrent misses compile in parallel
        let module = match compile_module(engine, bytes) {
            Ok(m) => Arc::new(m),
            Err(msg) => {
                return Err(SandboxError::ModuleLoad(msg));
            },
        };
        // double-check under the write lock: a concurrent winner is reused
        let (mut state, write_handle) = self.inner.acquire_write();
        let r = state.insert_or_get(path, module);
        write_handle.release_write(state);
        Ok(r)
    }

    /// Check if a module is cached under a canonical path.
    pub fn contains(&self, path: &str) -> bool {
        let handle = self.inner.acquire_read();
        let r = handle.borrow().find(path);
        handle.release_read();
        match r {
            Some(_) => true,
            None => false,
        }
    }

    /// Remove the module cached under a canonical path.
    ///
    /// Returns `true` if a module was present and removed.
    pub fn remove(&self, path: &str) -> bool {
        let (mut state, write_handle) = self.inner.acquire_write();
        let r = state.remove_entry(path);
        write_handle.release_write(state);
        r
    }

    /// Clear all cached modules.
    pub fn clear(&self) {
        let (mut state, write_handle) = self.inner.acquire_write();
        state = CacheState::new();
        write_handle.release_write(state);
    }

    /// Get the number of cached modules.
    pub fn len(&self) -> usize {
        let handle = self.inner.acquire_read();
        let n = handle.borrow().entries.len();
        handle.release_read();
        n
    }

    /// Check if the cache is empty.
    pub fn is_empty(&self) -> bool {
        self.len() == 0
    }
}

/// A shared execution engine that can be reused across sandbox instances.
///
/// The engine is configured once, with epoch interruption always enabled and
/// fuel accounting only if requested, and then shared by reference count.
#[derive(Clone)]
pub struct SharedEngine {
    /// The shared engine.
    pub engine: Arc<wasmtime::Engine>,
}

impl SharedEngine {
    /// Create a new shared engine with the default configuration: epoch
    /// interruption on, fuel accounting off.
    pub fn new() -> (r: Result<SharedEngine, SandboxError>)
        ensures
            r matches Ok(se) ==> spec_engine_epoch(*se.engine) && !spec_engine_fuel(*se.engine),
            r matches Err(e) ==> e matches SandboxError::RuntimeInit(_),
    {
        let config = engine_config(false);
        match new_engine(&config) {
            Ok(e) => Ok(SharedEngine { engine: Arc::new(e) }),
            Err(msg) => Err(SandboxError::RuntimeInit(msg)),
        }
    }

    /// Create a new shared engine with fuel consumption enabled alongside
    /// epoch interruption.
    pub fn with_fuel() -> (r: Result<SharedEngine, SandboxError>)
        ensures
            r matches Ok(se) ==> spec_engine_epoch(*se.engine) && spec_engine_fuel(*se.engine),
            r matches Err(e) ==> e matches SandboxError::RuntimeInit(_),
    {
        let config = engine_config(true);
        match new_engine(&config) {
            Ok(e) => Ok(SharedEngine { engine: Arc::new(e) }),
            Err(msg) => Err(SandboxError::RuntimeInit(msg)),
        }
    }

    /// Create a new shared engine from an existing engine configuration;
    /// the engine captures the configuration's interruption and fuel
    /// settings.
    pub fn from_config(config: &wasmtime::Config) -> (r: Result<SharedEngine, SandboxError>)
        ensures
            r matches Ok(se) ==> spec_engine_epoch(*se.engine) == crate::wasm::spec_epoch_enabled(
                *config,
            ) && spec_engine_fuel(*se.engine) == crate::wasm::spec_fuel_enabled(*config),
            r matches Err(e) ==> e matches SandboxError::RuntimeInit(_),
    {
        match new_engine(config) {
            Ok(e) => Ok(SharedEngine { engine: Arc::new(e) }),
            Err(msg) => Err(SandboxError::RuntimeInit(msg)),
        }
    }

    /// Create a shared engine wrapper from an existing shared pointer.
    pub fn from_arc(engine: Arc<wasmtime::Engine>) -> (r: SharedEngine)
        ensures
            r.engine == engine,
    {
        SharedEngine { engine }
    }

    /// Get a reference to the underlying engine.
    pub fn engine(&self) -> &wasmtime::Engine {
        engine_ref(&self.engine)
    }

    /// Get a new shared pointer to the engine.
    pub fn arc(&self) -> (r: Arc<wasmtime::Engine>)
        ensures
            r == self.engine,
    {
        arc_engine_clone(&self.engine)
    }
}

} // verus!
