use tracing::level_filters::LevelFilter;
use tracing_subscriber::EnvFilter;
use woolog::{woolog_init, ForeignTextHandle, InitGuard, SeverityLevel};

#[test]
fn a_level_handle_names_the_threshold() {
    let expected =
        EnvFilter::builder().with_default_directive(LevelFilter::WARN.into()).from_env_lossy();

    let mut guard = InitGuard::new();
    assert!(woolog_init(&mut guard, ForeignTextHandle::Bytes(b"WARN\0")));
    assert_eq!(guard.installed().map(|c| c.threshold), Some(SeverityLevel::Warn));
    assert_eq!(Some(LevelFilter::current()), expected.max_level_hint());
}
