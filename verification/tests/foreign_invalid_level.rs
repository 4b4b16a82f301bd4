use woolog::{woolog_init, ForeignTextHandle, InitGuard, SeverityLevel};

#[test]
fn a_level_handle_without_valid_text_installs_info() {
    let mut guard = InitGuard::new();
    assert!(woolog_init(&mut guard, ForeignTextHandle::Bytes(b"\xffdebug\0")));
    assert_eq!(guard.installed().map(|c| c.threshold), Some(SeverityLevel::Info));
}
