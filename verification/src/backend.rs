//! The calls into the logging backend: `tracing`, `tracing-subscriber` and
//! `atty`. What they answer depends on the state of the process, so nothing
//! is promised of their results.

use crate::config::{BackendConfig, FormatPolicy};
use crate::level::SeverityLevel;
use tracing::level_filters::LevelFilter;
use tracing::subscriber::SetGlobalDefaultError;
use tracing_subscriber::layer::SubscriberExt;
use tracing_subscriber::{EnvFilter, Registry};
use vstd::prelude::*;

verus! {

/// `LevelFilter` of `tracing`: a threshold in the backend's own terms. The
/// library only carries it from one call to the next.
#[verifier::external_type_specification]
#[verifier::external_body]
pub struct ExLevelFilter(LevelFilter);

/// `SetGlobalDefaultError` of `tracing`: the error of an installation that
/// was refused. It carries no data.
#[verifier::external_type_specification]
#[verifier::external_body]
pub struct ExSetGlobalDefaultError(SetGlobalDefaultError);

/// What the backend answered to a request to install it.
#[derive(Clone, Copy, Debug, PartialEq, Eq, Structural)]
pub enum InstallOutcome {
    /// The configuration is now the process-wide backend.
    Installed,
    /// The process already has a backend, which stays in place.
    Refused,
}

/// `atty::is` on `Stream::Stdout`: whether standard output is an interactive
/// terminal. The answer is the operating system's.
#[verifier::external_body]
fn stdout_is_terminal() -> (yes: bool) {
    atty::is(atty::Stream::Stdout)
}

/// The `LevelFilter` constant of `tracing` that bears the name of the level,
/// and so lets through the records at or above it.
#[verifier::external_body]
fn level_filter(level: SeverityLevel) -> (filter: LevelFilter) {
    match level {
        SeverityLevel::Trace => LevelFilter::TRACE,
        SeverityLevel::Debug => LevelFilter::DEBUG,
        SeverityLevel::Info => LevelFilter::INFO,
        SeverityLevel::Warn => LevelFilter::WARN,
        SeverityLevel::Error => LevelFilter::ERROR,
    }
}

/// `tracing::subscriber::set_global_default`, on a registry with two layers:
/// an `EnvFilter` that takes its directives from `RUST_LOG` and falls back on
/// `threshold` where the variable is empty, and a formatting layer with the
/// switches of `format`. The call fails when the process already has a
/// global subscriber, whoever set it.
#[verifier::external_body]
fn install_subscriber(
    threshold: LevelFilter,
    format: &FormatPolicy,
) -> (answer: Result<(), SetGlobalDefaultError>) {
    let format_layer = tracing_subscriber::fmt::layer()
        .with_ansi(format.ansi)
        .with_level(format.level)
        .with_target(format.target)
        .with_thread_names(format.thread_names)
        .with_file(format.file)
        .with_line_number(format.line_number);
    let filter_layer =
        EnvFilter::builder().with_default_directive(threshold.into()).from_env_lossy();
    let subscriber = Registry::default().with(filter_layer).with(format_layer);
    tracing::subscriber::set_global_default(subscriber)
}

/// Asks the operating system whether standard output is an interactive
/// terminal, and builds the configuration for `threshold` from the answer.
pub(crate) fn detect_config(threshold: SeverityLevel) -> (config: BackendConfig)
    ensures
        config == crate::config::config_for(threshold, config.format.ansi),
{
    BackendConfig::new(threshold, stdout_is_terminal())
}

/// What an answer of the backend means: it installed the configuration
/// exactly when the answer is `Ok`, and refused otherwise.
fn outcome_of(answer: Result<(), SetGlobalDefaultError>) -> (outcome: InstallOutcome)
    ensures
        outcome == (if answer is Ok {
            InstallOutcome::Installed
        } else {
            InstallOutcome::Refused
        }),
{
    match answer {
        Ok(()) => InstallOutcome::Installed,
        Err(_) => InstallOutcome::Refused,
    }
}

/// Asks the backend to install `config` as the process-wide backend, and
/// reports its answer. Whether the backend installs or refuses depends on
/// what the process has installed before, so either outcome may come back.
pub(crate) fn request_installation(config: &BackendConfig) -> (outcome: InstallOutcome) {
    outcome_of(install_subscriber(level_filter(config.threshold), &config.format))
}

} // verus!
