//! A sandboxed interpreter-execution library.
//!
//! Untrusted source code runs inside an isolated WebAssembly runtime, with
//! hard bounds on wall-clock time, memory growth and (optionally) instruction
//! count.  The library owns the resource accounting, the compiled-module
//! cache, the configuration surface, the composition of each guest
//! invocation and the classification of failures into a typed error
//! taxonomy; the host I/O and async plumbing live outside it.
//!
//! A guest-reported failure (nonzero exit code, exception text on stderr) is
//! data, not an error: it surfaces as a successful orchestration result, and
//! callers opt into reclassification by handing the captured stderr to
//! [`error::parse_python_exception`].

pub mod cache;
pub mod config;
pub mod error;
pub mod executor;
pub mod io;
pub mod limits;
pub mod prelude;
pub mod text;
pub mod wasm;

pub use cache::{ModuleCache, SharedEngine};
pub use config::{SandboxConfig, SandboxConfigBuilder};
pub use error::{parse_python_exception, SandboxError};
pub use executor::{ExecutionMetadata, ExecutionResult, PythonSandbox, SandboxOptions};
pub use io::{CapturedOutput, ProvidedInput, SandboxIo};
pub use limits::SandboxLimiter;
