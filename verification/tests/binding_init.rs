use tracing::level_filters::LevelFilter;
use tracing_subscriber::EnvFilter;
use woolog::{init, InitGuard, SeverityLevel};

#[test]
fn the_binding_installs_the_named_level() {
    let expected =
        EnvFilter::builder().with_default_directive(LevelFilter::DEBUG.into()).from_env_lossy();

    let mut guard = InitGuard::new();
    assert!(init(&mut guard, Some("Debug")));
    assert_eq!(guard.installed().map(|c| c.threshold), Some(SeverityLevel::Debug));
    assert_eq!(Some(LevelFilter::current()), expected.max_level_hint());

    assert!(init(&mut guard, None));
    assert!(init(&mut guard, Some("error")));
    assert_eq!(guard.installed().map(|c| c.threshold), Some(SeverityLevel::Debug));
}
