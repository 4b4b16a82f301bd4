//! A logging facade over `tracing` with a write-once initialization guard.
//!
//! The crate decides what is logged and whether the logging backend is still
//! to be installed. Filtering, formatting and output are the backend's.
//!
//! - [`level`]: the severity levels and the mapping from level names;
//! - [`config`]: the configuration the backend is installed with;
//! - [`guard`]: the guard that is set by the one installation;
//! - [`backend`]: the calls into `tracing`, `tracing-subscriber` and `atty`;
//! - [`init`]: installing the backend once per guard;
//! - [`emit`]: the records of the native surface;
//! - [`foreign`]: the surface for callers that pass raw text handles;
//! - [`binding`]: the surface for a binding to a dynamic language.

pub mod backend;
pub mod binding;
pub mod config;
pub mod emit;
pub mod foreign;
pub mod guard;
pub mod init;
pub mod level;

pub use backend::InstallOutcome;
pub use binding::init;
pub use config::{BackendConfig, FormatPolicy};
pub use emit::{debug, error, info, trace, warn, LogMessage};
pub use foreign::{
    c_text, woolog_debug, woolog_error, woolog_info, woolog_init, woolog_trace, woolog_warn,
    ForeignTextHandle,
};
pub use guard::InitGuard;
pub use init::{conclude, init_logger, InitError};
pub use level::{level_from_name, level_or_default, SeverityLevel};
