use backend_supervisor::ports::{pid_of_listening_line, pid_of_lsof_line};
use backend_supervisor::status::{BackendStatus, HealthCheckError};

#[test]
fn netstat_line_with_listener_yields_its_pid() {
    let line = "  TCP    0.0.0.0:8082           0.0.0.0:0              LISTENING       4312";
    assert_eq!(pid_of_listening_line(line, 8082), Some(4312));
}

#[test]
fn netstat_line_for_another_port_is_passed_over() {
    let line = "  TCP    0.0.0.0:8081           0.0.0.0:0              LISTENING       4312";
    assert_eq!(pid_of_listening_line(line, 8082), None);
}

#[test]
fn netstat_line_not_listening_is_passed_over() {
    let line = "  TCP    127.0.0.1:8082         127.0.0.1:50000        ESTABLISHED     4312";
    assert_eq!(pid_of_listening_line(line, 8082), None);
}

#[test]
fn netstat_line_without_numeric_tail_is_passed_over() {
    let line = "  TCP    0.0.0.0:8082           0.0.0.0:0              LISTENING       n/a";
    assert_eq!(pid_of_listening_line(line, 8082), None);
}

#[test]
fn netstat_line_with_trailing_spaces_still_yields_the_pid() {
    let line = "  TCP    [::]:8082  [::]:0  LISTENING  998  ";
    assert_eq!(pid_of_listening_line(line, 8082), Some(998));
}

#[test]
fn lsof_lines_are_trimmed_and_parsed() {
    assert_eq!(pid_of_lsof_line("  1234 \r"), Some(1234));
    assert_eq!(pid_of_lsof_line("1234"), Some(1234));
    assert_eq!(pid_of_lsof_line(""), None);
    assert_eq!(pid_of_lsof_line("   "), None);
    assert_eq!(pid_of_lsof_line("12a4"), None);
    assert_eq!(pid_of_lsof_line("4294967295"), Some(4294967295));
    assert_eq!(pid_of_lsof_line("4294967296"), None);
}

#[test]
fn statuses_have_their_reported_names() {
    assert_eq!(BackendStatus::Starting.status_name(), "starting");
    assert_eq!(BackendStatus::Healthy.status_name(), "healthy");
    assert_eq!(
        BackendStatus::Unhealthy("no route".to_string()).status_name(),
        "unhealthy: no route"
    );
    assert_eq!(BackendStatus::ProcessDead.status_name(), "process_dead");
    assert_eq!(BackendStatus::DatabaseDown.status_name(), "database_down");
    assert_eq!(BackendStatus::RestartRequired.status_name(), "restart_required");
    assert_eq!(BackendStatus::ConnectionTimeout.status_name(), "connection_timeout");
    assert_eq!(BackendStatus::PortConflict.status_name(), "port_conflict");
    assert_eq!(BackendStatus::JavaNotFound.status_name(), "java_not_found");
    assert_eq!(BackendStatus::JarNotFound.status_name(), "jar_not_found");
}

#[test]
fn probe_failures_render_one_line_each() {
    assert_eq!(
        HealthCheckError::NetworkError("refused".to_string()).describe(),
        "network error: refused"
    );
    assert_eq!(HealthCheckError::TimeoutError.describe(), "timeout");
    assert_eq!(
        HealthCheckError::InvalidResponse("status 500".to_string()).describe(),
        "invalid response: status 500"
    );
    assert_eq!(HealthCheckError::ProcessNotRunning.describe(), "process not running");
    assert_eq!(
        HealthCheckError::DatabaseConnectionFailed("locked".to_string()).describe(),
        "database connection failed: locked"
    );
    assert_eq!(HealthCheckError::UnknownError("odd".to_string()).describe(), "unknown error: odd");
}
