use backend_supervisor::console::hide_console_window;
use backend_supervisor::info::{
    build_backend_info, build_detailed_status, ApplicationInfo, SystemInfo,
};
use backend_supervisor::status::{
    status_for_error, BackendStatus, DatabaseStatus, HealthCheckError, HealthResponse,
};
use backend_supervisor::supervisor::ProcessHandle;
use backend_supervisor::update::{PlatformInfo, Platforms, UpdateEvent, UpdateManifest};

fn handle() -> ProcessHandle {
    ProcessHandle::new(555, 100)
}

fn probe_ok() -> HealthResponse {
    HealthResponse {
        status: "UP".to_string(),
        database: DatabaseStatus {
            connected: true,
            url: "jdbc:h2:file:./data/db".to_string(),
            error: None,
        },
        timestamp: "t".to_string(),
        uptime: 3,
    }
}

#[test]
fn detailed_status_reports_the_running_child_and_its_database() {
    let r = build_detailed_status(
        BackendStatus::Healthy,
        &Some(handle()),
        Ok(probe_ok()),
        160,
        "now".to_string(),
    );
    assert!(matches!(r.backend_status, BackendStatus::Healthy));
    assert_eq!(r.last_check, "now");
    assert_eq!(r.process_id, Some(555));
    assert_eq!(r.uptime_seconds, Some(60));
    assert_eq!(r.consecutive_failures, 0);
    let db = r.database_status.expect("database sub-status of the probe");
    assert!(db.connected);
    assert!(r.error_details.is_none());
}

#[test]
fn detailed_status_without_child_or_probe_reports_the_failure() {
    let r = build_detailed_status(
        BackendStatus::ProcessDead,
        &None,
        Err(HealthCheckError::ProcessNotRunning),
        7,
        "now".to_string(),
    );
    assert!(r.process_id.is_none());
    assert!(r.uptime_seconds.is_none());
    assert_eq!(r.consecutive_failures, 0);
    assert!(r.database_status.is_none());
    assert_eq!(r.error_details.as_deref(), Some("process not running"));
}

#[test]
fn uptime_never_underflows() {
    let r = build_detailed_status(
        BackendStatus::Healthy,
        &Some(handle()),
        Err(HealthCheckError::TimeoutError),
        40,
        "now".to_string(),
    );
    assert_eq!(r.uptime_seconds, Some(0));
}

#[test]
fn backend_info_names_the_status() {
    let r = build_backend_info(&BackendStatus::RestartRequired, 8082, &Some(handle()), 130, "t".to_string());
    assert_eq!(r.status, "restart_required");
    assert_eq!(r.port, 8082);
    assert_eq!(r.process_id, Some(555));
    assert_eq!(r.uptime_seconds, Some(30));
    assert_eq!(r.restart_count, 0);
    assert!(r.database_status.is_none());
}

#[test]
fn probe_failures_map_to_statuses() {
    assert!(matches!(
        status_for_error(&HealthCheckError::TimeoutError),
        BackendStatus::ConnectionTimeout
    ));
    assert!(matches!(
        status_for_error(&HealthCheckError::ProcessNotRunning),
        BackendStatus::ProcessDead
    ));
    assert!(matches!(
        status_for_error(&HealthCheckError::DatabaseConnectionFailed("x".to_string())),
        BackendStatus::DatabaseDown
    ));
    match status_for_error(&HealthCheckError::InvalidResponse("html".to_string())) {
        BackendStatus::Unhealthy(m) => assert_eq!(m, "invalid response: html"),
        _ => panic!("other failures map to the generic unhealthy status"),
    }
}

#[test]
fn update_manifest_carries_platform_entries() {
    let manifest = UpdateManifest {
        version: "1.2.3".to_string(),
        notes: "fixes".to_string(),
        pub_date: "2024-01-01".to_string(),
        platforms: Platforms {
            windows_x86_64: Some(PlatformInfo {
                url: "https://example.com/app.exe".to_string(),
                sha256: Some("abc123".to_string()),
            }),
        },
    };
    let entry = manifest.platforms.windows_x86_64.expect("entry present");
    assert_eq!(entry.url, "https://example.com/app.exe");
    assert_eq!(entry.sha256.as_deref(), Some("abc123"));

    let event = UpdateEvent::Progress { chunk_length: 10, downloaded: 50, total: 100, percent: 50 };
    assert!(matches!(event, UpdateEvent::Progress { percent: 50, .. }));
}

#[test]
fn console_hiding_is_harmless_without_a_console() {
    hide_console_window();
}

#[test]
fn diagnostics_entries_carry_their_fields() {
    let sys = SystemInfo {
        os: "linux".to_string(),
        arch: "x86_64".to_string(),
        java_version: Some("openjdk 17".to_string()),
        available_memory: 8 * 1024 * 1024 * 1024,
        disk_space: 1024 * 1024 * 1024,
        network_connectivity: true,
    };
    assert_eq!(sys.java_version.as_deref(), Some("openjdk 17"));
    let app = ApplicationInfo {
        version: "0.1.0".to_string(),
        build_date: "2024-01-01".to_string(),
        data_directory: "/var/lib/app".to_string(),
        log_directory: "/var/log/app".to_string(),
        uptime_seconds: 0,
        session_id: "session".to_string(),
    };
    assert_eq!(app.version, "0.1.0");
}
