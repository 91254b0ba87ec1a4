use system_repair_toolkit::errors::RepairError;

#[test]
fn test_hardware_not_found_error() {
    let err = RepairError::HardwareNotFound("Test Device".to_string());
    assert_eq!(err.to_string(), "Hardware not detected: Test Device");
}

#[test]
fn test_permission_denied_error() {
    let err = RepairError::PermissionDenied;
    assert!(err.to_string().contains("Administrator"));
}

#[test]
fn test_timeout_error() {
    let err = RepairError::Timeout(30);
    assert!(err.to_string().contains("30 seconds"));
}

#[test]
fn test_error_is_send_sync() {
    fn assert_send_sync<T: Send + Sync>() {}
    assert_send_sync::<RepairError>();
}

#[test]
fn every_error_message() {
    assert_eq!(
        RepairError::CommandFailed("x".to_string()).to_string(),
        "Command execution failed: x"
    );
    assert_eq!(
        RepairError::PermissionDenied.to_string(),
        "Insufficient permissions - run as Administrator on Windows or with sudo on Unix"
    );
    assert_eq!(
        RepairError::Timeout(0).to_string(),
        "Operation timeout - exceeded 0 seconds"
    );
    assert_eq!(
        RepairError::Timeout(u64::MAX).to_string(),
        "Operation timeout - exceeded 18446744073709551615 seconds"
    );
    assert_eq!(
        RepairError::ServiceUnavailable("bt".to_string()).to_string(),
        "Service not available: bt"
    );
    assert_eq!(
        RepairError::ConfigurationError("bad".to_string()).to_string(),
        "Configuration error: bad"
    );
    assert_eq!(RepairError::Io("eof".to_string()).to_string(), "I/O error: eof");
    assert_eq!(
        RepairError::Join("panicked".to_string()).to_string(),
        "Task join error: panicked"
    );
}
