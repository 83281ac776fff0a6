//! Resource accounting for one sandboxed execution.
//!
//! A `SandboxLimiter` is consulted before every linear-memory or table growth
//! inside the isolated runtime.  It is the single enforcement point for the
//! configured memory ceiling: growth beyond the ceiling is denied and the
//! `limit_exceeded` flag is set, never to clear again within the execution.

use vstd::prelude::*;

verus! {

/// Default ceiling on table elements; a generous backstop, not a tuning knob.
pub const DEFAULT_MAX_TABLE_ELEMENTS: u64 = 10_000;

/// Per-execution mutable state tracking memory and table growth against
/// fixed ceilings.
pub struct SandboxLimiter {
    /// Maximum memory in bytes.
    pub max_memory: u64,
    /// Current memory allocation in bytes.
    pub current_memory: u64,
    /// Peak memory allocation in bytes (highest ever observed).
    pub peak_memory: u64,
    /// Maximum table elements.
    pub max_table_elements: u64,
    /// Whether some growth request went over a ceiling.
    pub limit_exceeded: bool,
}

impl SandboxLimiter {
    /// Observed usage never exceeds the configured memory ceiling.
    pub open spec fn wf(&self) -> bool {
        &&& self.current_memory <= self.peak_memory
        &&& self.peak_memory <= self.max_memory
    }

    /// Create a limiter for a fresh execution with the given memory ceiling.
    pub fn new(max_memory: u64) -> (r: Self)
        ensures
            r.wf(),
            r.max_memory == max_memory,
            r.current_memory == 0,
            r.peak_memory == 0,
            r.max_table_elements == DEFAULT_MAX_TABLE_ELEMENTS,
            !r.limit_exceeded,
    {
        SandboxLimiter {
            max_memory,
            current_memory: 0,
            peak_memory: 0,
            max_table_elements: DEFAULT_MAX_TABLE_ELEMENTS,
            limit_exceeded: false,
        }
    }

    /// Check if any limit has been exceeded.
    pub fn limit_exceeded(&self) -> (r: bool)
        ensures
            r == self.limit_exceeded,
    {
        self.limit_exceeded
    }

    /// Get the current memory usage in bytes.
    pub fn current_memory(&self) -> (r: u64)
        ensures
            r == self.current_memory,
    {
        self.current_memory
    }

    /// Get the peak memory usage in bytes (highest ever observed).
    pub fn peak_memory(&self) -> (r: u64)
        ensures
            r == self.peak_memory,
    {
        self.peak_memory
    }

    /// Get the configured maximum memory in bytes.
    pub fn max_memory(&self) -> (r: u64)
        ensures
            r == self.max_memory,
    {
        self.max_memory
    }

    /// Decide a request to grow linear memory to `desired` bytes.
    ///
    /// Growth within the ceiling is recorded as the current allocation and
    /// raises the peak; growth beyond it is denied and marks the limiter
    /// exceeded, leaving the recorded usage untouched.
    pub fn memory_growing(
        &mut self,
        _current: usize,
        desired: usize,
        _maximum: Option<usize>,
    ) -> (allowed: bool)
        ensures
            allowed == (desired as u64 <= old(self).max_memory),
            final(self).max_memory == old(self).max_memory,
            final(self).max_table_elements == old(self).max_table_elements,
            allowed ==> {
                &&& final(self).current_memory == desired as u64
                &&& final(self).peak_memory == (if desired as u64 > old(self).peak_memory {
                    desired as u64
                } else {
                    old(self).peak_memory
                })
                &&& final(self).limit_exceeded == old(self).limit_exceeded
            },
            !allowed ==> {
                &&& final(self).current_memory == old(self).current_memory
                &&& final(self).peak_memory == old(self).peak_memory
                &&& final(self).limit_exceeded
            },
            old(self).limit_exceeded ==> final(self).limit_exceeded,
            old(self).wf() ==> final(self).wf(),
    {
        let desired_bytes = desired as u64;

        if desired_bytes > self.max_memory {
            self.limit_exceeded = true;
            return false;
        }

        self.current_memory = desired_bytes;
        if desired_bytes > self.peak_memory {
            self.peak_memory = desired_bytes;
        }
        true
    }

    /// Decide a request to grow a table to `desired` elements.
    ///
    /// Growth beyond the table ceiling is denied and marks the limiter
    /// exceeded; memory accounting is unaffected either way.
    pub fn table_growing(
        &mut self,
        _current: usize,
        desired: usize,
        _maximum: Option<usize>,
    ) -> (allowed: bool)
        ensures
            allowed == (desired as u64 <= old(self).max_table_elements),
            final(self).max_memory == old(self).max_memory,
            final(self).max_table_elements == old(self).max_table_elements,
            final(self).current_memory == old(self).current_memory,
            final(self).peak_memory == old(self).peak_memory,
            allowed ==> final(self).limit_exceeded == old(self).limit_exceeded,
            !allowed ==> final(self).limit_exceeded,
            old(self).limit_exceeded ==> final(self).limit_exceeded,
            old(self).wf() ==> final(self).wf(),
    {
        if desired as u64 > self.max_table_elements {
            self.limit_exceeded = true;
            return false;
        }
        true
    }
}

/// Law: whatever growth requests were decided, the peak memory a well-formed
/// limiter reports never exceeds its configured ceiling.
pub proof fn law_peak_within_ceiling(l: SandboxLimiter)
    requires
        l.wf(),
    ensures
        l.peak_memory <= l.max_memory,
        l.current_memory <= l.max_memory,
{
}

} // verus!
