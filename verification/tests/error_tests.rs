use capsa::config::GuestOs;
use capsa::error::Error;

#[test]
fn error_display_no_backend() {
    let err = Error::NoBackendAvailable;
    assert_eq!(err.to_string(), "no suitable hypervisor backend available");
}

#[test]
fn error_display_backend_unavailable() {
    let err = Error::BackendUnavailable {
        name: "kvm".to_string(),
        reason: "not available".to_string(),
    };
    assert_eq!(err.to_string(), "backend 'kvm' is not available: not available");
}

#[test]
fn error_display_unsupported_feature() {
    let err = Error::UnsupportedFeature("virtio-gpu".to_string());
    assert_eq!(err.to_string(), "feature not supported: virtio-gpu");
}

#[test]
fn error_display_invalid_config() {
    let err = Error::InvalidConfig("invalid CPU count".to_string());
    assert_eq!(err.to_string(), "invalid configuration: invalid CPU count");
}

#[test]
fn error_display_unsupported_guest_os() {
    let err = Error::UnsupportedGuestOs(GuestOs::Linux);
    assert_eq!(err.to_string(), "guest OS not supported by backend: Linux");
}

#[test]
fn error_display_pattern_not_found() {
    let err = Error::PatternNotFound {
        pattern: "login:".to_string(),
    };
    assert_eq!(err.to_string(), "pattern not found in console output: login:");
}

#[test]
fn error_from_io_error() {
    let io_err = std::io::Error::new(std::io::ErrorKind::NotFound, "file not found");
    let err: Error = io_err.into();
    assert!(matches!(err, Error::Io(_)));
    assert!(err.to_string().contains("file not found"));
}

#[test]
fn error_display_remaining_variants() {
    assert_eq!(Error::MissingConfig("kernel".to_string()).to_string(), "missing required configuration: kernel");
    assert_eq!(Error::StartFailed("boom".to_string()).to_string(), "VM failed to start: boom");
    assert_eq!(Error::NotRunning.to_string(), "VM is not running");
    assert_eq!(Error::AlreadyRunning.to_string(), "VM is already running");
    assert_eq!(Error::ConsoleNotEnabled.to_string(), "console not enabled for this VM");
    assert_eq!(Error::Timeout("boot".to_string()).to_string(), "operation timed out: boot");
    assert_eq!(Error::Agent("lost".to_string()).to_string(), "agent error: lost");
    assert_eq!(Error::PoolEmpty.to_string(), "no VMs available in pool");
    assert_eq!(Error::PoolShutdown.to_string(), "pool is shutting down");
    assert_eq!(Error::Hypervisor("kvm".to_string()).to_string(), "hypervisor error: kvm");
}

#[test]
fn io_error_message_starts_with_prefix() {
    let err: Error = std::io::Error::new(std::io::ErrorKind::Other, "disk gone").into();
    assert_eq!(err.to_string(), "IO error: disk gone");
}
