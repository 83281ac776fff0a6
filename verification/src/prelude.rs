//! Prelude module for convenient imports.

pub use crate::cache::{ModuleCache, SharedEngine};
pub use crate::config::{SandboxConfig, SandboxConfigBuilder};
pub use crate::error::{parse_python_exception, SandboxError};
pub use crate::executor::{ExecutionMetadata, ExecutionResult, PythonSandbox, SandboxOptions};
