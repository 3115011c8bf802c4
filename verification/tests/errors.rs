use spawn_wait::Error;
use std::io;

#[test]
fn spawn_failure_keeps_its_cause() {
    let e = Error::UnableToSpawnProcess(io::Error::new(io::ErrorKind::NotFound, "no such file"));
    assert!(e.is_spawn_failure());
    let inner = e.into_io_error();
    assert_eq!(inner.kind(), io::ErrorKind::NotFound);
    assert_eq!(inner.to_string(), "no such file");
}

#[test]
fn wait_failure_keeps_its_cause() {
    let e = Error::WaitFailed(io::Error::from_raw_os_error(10));
    assert!(!e.is_spawn_failure());
    assert_eq!(e.into_io_error().raw_os_error(), Some(10));
}

#[test]
fn errors_can_be_debug_printed() {
    let e = Error::WaitFailed(io::Error::new(io::ErrorKind::Other, "gone"));
    assert!(format!("{:?}", e).starts_with("WaitFailed"));
}
