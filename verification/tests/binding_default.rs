use woolog::{init, InitGuard, SeverityLevel};

#[test]
fn the_binding_defaults_to_info() {
    let mut guard = InitGuard::new();
    assert!(init(&mut guard, None));
    assert_eq!(guard.installed().map(|c| c.threshold), Some(SeverityLevel::Info));
}
