use libobs_wrapper::bootstrap::version::should_update;
use libobs_wrapper::enums::ObsResetVideoStatus;
use libobs_wrapper::utils::error::ObsError;

#[test]
fn invalid_version_message() {
    let e = should_update("1.x").unwrap_err();
    assert_eq!(e.message(), "Invalid version string: 1.x");
}

#[test]
fn error_messages() {
    assert_eq!(ObsError::OutputNotFound.message(), "Output not found");
    assert_eq!(
        ObsError::ResetVideoFailure(ObsResetVideoStatus::NotSupported).message(),
        "Unable to reset video: NotSupported"
    );
    assert_eq!(
        ObsError::OutputStopFailure(Some("Output is not active.".to_string())).message(),
        "Output failed to stop: Output is not active."
    );
    assert_eq!(ObsError::OutputStartFailure(None).message(), "Output failed to start: unknown error");
    assert_eq!(ObsError::LockError("poisoned".to_string()).message(), "Failed to acquire lock: poisoned");
    assert_eq!(ObsError::ThreadFailure.message(), "OBS is already running on another thread");
}
