//! Request dispatch and safety layer for running short, untrusted code
//! snippets in isolated sandboxes.
//!
//! The library types the requests (`channel`, `options`, `request`), keeps a
//! bounded cache of earlier results (`cache`, over `lru` and `model`), and
//! takes the decisions around each sandboxed run (`dispatch`) and around
//! highlighting compiler output (`highlight`). It starts no process itself:
//! its caller runs the sandbox and the highlighter and hands back what came
//! of them.

pub mod cache;
pub mod channel;
pub mod dispatch;
pub mod error;
pub mod highlight;
pub mod lru;
pub mod model;
pub mod options;
pub mod request;
pub mod text;

pub use cache::{ExecutionCache, DEFAULT_CAPACITY};
pub use channel::ReleaseChannel;
pub use dispatch::{begin, finish, RunOutcome, SandboxInvocation, Step, TIMEOUT_SECONDS};
pub use error::StringError;
pub use options::{AsmFlavor, CompileOutput, OptLevel};
pub use request::{ExecutionRequest, ExecutionResult, ExitStatus};
