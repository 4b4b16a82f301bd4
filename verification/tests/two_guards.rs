use tracing::level_filters::LevelFilter;
use tracing_subscriber::EnvFilter;
use woolog::{init_logger, InitError, InitGuard, SeverityLevel};

#[test]
fn a_second_guard_finds_the_backend_taken() {
    // The filter that the backend builds from a default of TRACE and the
    // `RUST_LOG` of this process.
    let expected =
        EnvFilter::builder().with_default_directive(LevelFilter::TRACE.into()).from_env_lossy();

    let mut first = InitGuard::new();
    let mut second = InitGuard::new();
    assert_eq!(init_logger(&mut first, SeverityLevel::Trace), Ok(()));
    assert_eq!(Some(LevelFilter::current()), expected.max_level_hint());

    assert_eq!(init_logger(&mut second, SeverityLevel::Error), Err(InitError::BackendConflict));
    assert!(first.is_set());
    assert!(!second.is_set());

    assert_eq!(init_logger(&mut first, SeverityLevel::Info), Ok(()));
    assert_eq!(first.installed().map(|c| c.threshold), Some(SeverityLevel::Trace));
}
