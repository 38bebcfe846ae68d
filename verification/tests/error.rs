use service_supervisor::error::{StartError, StopError};
use service_supervisor::launch::LaunchKind;

#[test]
fn start_error_messages() {
    assert_eq!(
        StartError::PortUnavailable("Too many open files".to_string()).message(),
        "Failed to acquire a free port: Too many open files"
    );
    assert_eq!(StartError::ResolutionFailure.message(), "No launch target found");
    assert_eq!(
        StartError::SpawnFailure {
            kind: LaunchKind::Sidecar,
            reason: "No such file or directory (os error 2)".to_string(),
        }
        .message(),
        "Failed to spawn sidecar: No such file or directory (os error 2)"
    );
    assert_eq!(
        StartError::SpawnFailure { kind: LaunchKind::Script, reason: "denied".to_string() }
            .message(),
        "Failed to spawn Python process: denied"
    );
    assert_eq!(
        StartError::ReadinessTimeout { url: "http://127.0.0.1:7860".to_string() }.message(),
        "Server failed to start or is not responding at http://127.0.0.1:7860"
    );
}

#[test]
fn stop_error_messages() {
    assert_eq!(StopError::NotFound.message(), "No server process found");
    assert_eq!(
        StopError::KillFailed("Permission denied".to_string()).message(),
        "Failed to kill process: Permission denied"
    );
    assert_eq!(StopError::KillFailed(String::new()).message(), "Failed to kill process: ");
}

#[test]
fn start_errors_can_be_copied() {
    let e = StartError::SpawnFailure { kind: LaunchKind::Script, reason: "x".to_string() };
    assert_eq!(e.clone().message(), e.message());
    let e = StartError::ReadinessTimeout { url: "u".to_string() };
    assert_eq!(e.clone().message(), e.message());
    assert_eq!(StartError::ResolutionFailure.clone().message(), "No launch target found");
    let e = StartError::PortUnavailable("p".to_string());
    assert_eq!(e.clone().message(), e.message());
}
