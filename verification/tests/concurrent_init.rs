use std::sync::Mutex;
use woolog::{init_logger, InitGuard, SeverityLevel};

#[test]
fn many_first_calls_install_once_and_all_succeed() {
    let levels = [
        SeverityLevel::Warn,
        SeverityLevel::Trace,
        SeverityLevel::Debug,
        SeverityLevel::Info,
        SeverityLevel::Error,
        SeverityLevel::Trace,
        SeverityLevel::Debug,
        SeverityLevel::Info,
        SeverityLevel::Warn,
        SeverityLevel::Error,
    ];
    // Callers share the guard behind a lock, and each takes its turn.
    let guard = Mutex::new(InitGuard::new());
    let mut succeeded = 0;
    let mut installations = 0;
    for level in levels {
        let mut guard = guard.lock().unwrap();
        let was_set = guard.is_set();
        if init_logger(&mut guard, level).is_ok() {
            succeeded += 1;
        }
        if !was_set && guard.is_set() {
            installations += 1;
        }
    }
    assert_eq!(succeeded, 10);
    assert_eq!(installations, 1);
    let guard = guard.lock().unwrap();
    assert_eq!(guard.installed().map(|c| c.threshold), Some(SeverityLevel::Warn));
    assert!(tracing::dispatcher::has_been_set());
}
