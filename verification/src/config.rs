//! The configuration that is handed to the logging backend.

use crate::level::SeverityLevel;
use vstd::prelude::*;

verus! {

/// How the backend decorates the records it writes. Every record also carries
/// a timestamp, which the backend adds by default.
#[derive(Clone, Copy, Debug, PartialEq, Eq, Structural)]
pub struct FormatPolicy {
    /// Colour the output with ANSI escape sequences.
    pub ansi: bool,
    /// Show the level of each record.
    pub level: bool,
    /// Show the target of each record.
    pub target: bool,
    /// Show the name of the emitting thread.
    pub thread_names: bool,
    /// Show the source file of each record.
    pub file: bool,
    /// Show the source line of each record.
    pub line_number: bool,
}

/// What the backend is installed with: the threshold that seeds its filter,
/// and the decoration of its output.
#[derive(Clone, Copy, Debug, PartialEq, Eq, Structural)]
pub struct BackendConfig {
    /// The least severe level that is still written, unless `RUST_LOG`
    /// overrides the filter.
    pub threshold: SeverityLevel,
    pub format: FormatPolicy,
}

/// The decoration this crate asks for: level, target, file and line are
/// shown, thread names are not, and colour is used exactly when standard
/// output is an interactive terminal.
pub open spec fn format_policy_for(stdout_is_terminal: bool) -> FormatPolicy {
    FormatPolicy {
        ansi: stdout_is_terminal,
        level: true,
        target: true,
        thread_names: false,
        file: true,
        line_number: true,
    }
}

/// The configuration for a threshold: the threshold itself and the
/// decoration of `format_policy_for`.
pub open spec fn config_for(threshold: SeverityLevel, stdout_is_terminal: bool) -> BackendConfig {
    BackendConfig { threshold, format: format_policy_for(stdout_is_terminal) }
}

impl FormatPolicy {
    /// The decoration this crate asks for, given whether standard output is
    /// an interactive terminal.
    pub fn new(stdout_is_terminal: bool) -> (policy: FormatPolicy)
        ensures
            policy == format_policy_for(stdout_is_terminal),
    {
        FormatPolicy {
            ansi: stdout_is_terminal,
            level: true,
            target: true,
            thread_names: false,
            file: true,
            line_number: true,
        }
    }
}

impl BackendConfig {
    /// The configuration that seeds the filter with `threshold`.
    pub fn new(threshold: SeverityLevel, stdout_is_terminal: bool) -> (config: BackendConfig)
        ensures
            config == config_for(threshold, stdout_is_terminal),
    {
        BackendConfig { threshold, format: FormatPolicy::new(stdout_is_terminal) }
    }

    /// Whether a record of `level` is at or above the threshold.
    pub open spec fn admits_spec(self, level: SeverityLevel) -> bool {
        self.threshold.rank_spec() <= level.rank_spec()
    }

    /// Whether a record of `level` is at or above the threshold, and so is
    /// written by a backend whose filter `RUST_LOG` does not override.
    pub fn admits(&self, level: SeverityLevel) -> (yes: bool)
        ensures
            yes == self.admits_spec(level),
    {
        self.threshold.rank() <= level.rank()
    }
}

} // verus!
