//! The core of a bridge to a command-line agent: it finds out whether
//! the agent's tool is installed and logged in, and forwards prompts to
//! it.
//!
//! The library decides and the caller acts. It holds no process, pipe or
//! clock: the caller starts the tool, reads what it prints and reports
//! what happened; the library says which run to make, what to do next
//! while a run lasts, and what its end means.
//!
//! - [`tool`]: the tool's executable and its name.
//! - [`invocation`]: one run of a command, from request to outcome.
//! - [`status`]: the probe for installation and login.
//! - [`prompt`]: the request that carries a prompt, and the reply.
//! - [`text`]: trimming and searching text.

pub mod invocation;
pub mod prompt;
pub mod status;
pub mod text;
pub mod tool;
