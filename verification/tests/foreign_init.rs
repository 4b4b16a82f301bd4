use woolog::{woolog_info, woolog_init, ForeignTextHandle, InitGuard, LogMessage, SeverityLevel};

#[test]
fn a_null_level_installs_info() {
    let mut guard = InitGuard::new();
    assert!(woolog_init(&mut guard, ForeignTextHandle::Null));
    assert_eq!(guard.installed().map(|c| c.threshold), Some(SeverityLevel::Info));
    assert!(tracing::dispatcher::has_been_set());

    let record = woolog_info(ForeignTextHandle::Bytes(b"hello\0"));
    assert_eq!(record, Some(LogMessage { level: SeverityLevel::Info, text: "hello" }));
    assert!(guard.installed().unwrap().admits(record.unwrap().level));

    // Any further call reports success and keeps the threshold.
    assert!(woolog_init(&mut guard, ForeignTextHandle::Bytes(b"trace\0")));
    assert_eq!(guard.installed().map(|c| c.threshold), Some(SeverityLevel::Info));
}
