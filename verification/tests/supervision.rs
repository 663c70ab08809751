use backend_supervisor::recovery::{
    first_free_port, is_automatic, next_automatic_action, repair_database_plan, RecoveryAction,
    RepairPlan,
};
use backend_supervisor::supervisor::{
    create_backend_config, java_version_acceptable, normalize_jar_path, prepare_launch,
    resolve_artifact, set_port, stderr_line_elevated, LaunchError, ProcessSupervisor,
};

fn sample_config() -> backend_supervisor::supervisor::BackendConfig {
    create_backend_config(
        "/usr/bin/java".to_string(),
        "/opt/app/backend.jar".to_string(),
        "/var/lib/app".to_string(),
    )
}

#[test]
fn config_defaults_are_preserved() {
    let config = sample_config();
    assert_eq!(config.port, 8082);
    assert_eq!(config.startup_timeout, 60);
    assert_eq!(config.health_check_interval, 10);
    assert_eq!(config.max_restart_attempts, 3);
    assert_eq!(config.java_path, "/usr/bin/java");
    assert_eq!(config.jar_path, "/opt/app/backend.jar");
    assert_eq!(config.data_dir, "/var/lib/app");
}

#[test]
fn launch_succeeds_on_free_port_and_registers_the_spawned_child() {
    let config = sample_config();
    let command = prepare_launch(&config, true, false).expect("free port must launch");
    assert_eq!(command.java_path, "/usr/bin/java");
    assert_eq!(command.jar_path, "/opt/app/backend.jar");
    assert_eq!(command.working_dir, "/var/lib/app");
    assert_eq!(command.port, 8082);

    // The caller spawns the command and registers the child it observed.
    let mut supervisor = ProcessSupervisor::new();
    supervisor.register(4242, 1000);
    let handle = supervisor.process.expect("handle registered");
    assert_eq!(handle.pid, 4242);
    assert_eq!(handle.started_at, 1000);
    assert_eq!(handle.consecutive_failures, 0);
}

#[test]
fn launch_on_bound_port_fails_with_port_conflict_and_spawns_nothing() {
    let config = sample_config();
    let refused = prepare_launch(&config, true, true);
    match refused {
        Err(LaunchError::PortInUse(port)) => {
            assert_eq!(port, 8082);
        }
        _ => panic!("a bound port must refuse the launch"),
    }
    let message = LaunchError::PortInUse(8082).message();
    assert_eq!(
        message,
        "Port 8082 is already in use. Please close any other applications using this port."
    );
}

#[test]
fn launch_without_artifact_fails_with_jar_not_found() {
    let config = sample_config();
    match prepare_launch(&config, false, false) {
        Err(LaunchError::JarNotFound(path)) => {
            assert_eq!(path, "/opt/app/backend.jar");
            assert_eq!(
                LaunchError::JarNotFound(path).message(),
                "Backend JAR file not found: /opt/app/backend.jar"
            );
        }
        _ => panic!("a missing artifact must refuse the launch"),
    }
}

#[test]
fn restart_holds_at_most_one_handle_throughout() {
    let mut supervisor = ProcessSupervisor::new();
    supervisor.register(100, 0);
    assert!(supervisor.process.is_some());

    // A restart stops first; between stop and the new registration no
    // handle is held.
    let old = supervisor.stop();
    assert_eq!(old.map(|h| h.pid), Some(100));
    assert!(supervisor.process.is_none());

    supervisor.register(101, 50);
    let handle = supervisor.process.expect("new handle");
    assert_eq!(handle.pid, 101);
}

#[test]
fn stop_twice_succeeds_both_times() {
    let mut supervisor = ProcessSupervisor::new();
    supervisor.register(7, 0);
    let first = supervisor.stop();
    assert_eq!(first.map(|h| h.pid), Some(7));
    let second = supervisor.stop();
    assert!(second.is_none());
    assert!(supervisor.process.is_none());
}

#[test]
fn alternate_port_scan_takes_first_free_port_and_restarts_on_it() {
    let ports: Vec<u16> = vec![8083, 8084];
    let in_use = vec![true, false];
    let chosen = first_free_port(&ports, &in_use, 0).expect("one port is free");
    assert_eq!(chosen, 1);
    assert_eq!(ports[chosen], 8084);

    let mut config = sample_config();
    set_port(&mut config, ports[chosen]);
    assert_eq!(config.port, 8084);
    assert_eq!(config.data_dir, "/var/lib/app");

    let mut supervisor = ProcessSupervisor::new();
    supervisor.register(300, 0);
    let _old = supervisor.stop();
    let command = prepare_launch(&config, true, false).expect("launch on the fallback port");
    assert_eq!(command.port, 8084);
    supervisor.register(301, 10);
    assert_eq!(supervisor.process.map(|h| h.pid), Some(301));
}

#[test]
fn no_free_port_means_no_selection() {
    let ports: Vec<u16> = vec![8083, 8084, 8085];
    let in_use = vec![true, true, true];
    assert!(first_free_port(&ports, &in_use, 0).is_none());
}

#[test]
fn repair_plan_quarantines_before_deleting_and_never_repairs_in_place() {
    assert_eq!(repair_database_plan(true), RepairPlan::QuarantineThenDelete);
    assert_eq!(repair_database_plan(false), RepairPlan::NothingToRepair);
}

#[test]
fn automatic_actions_are_exactly_the_unattended_kinds() {
    assert!(is_automatic(&RecoveryAction::ExtractFromResources));
    assert!(is_automatic(&RecoveryAction::TryAlternatePorts(vec![])));
    assert!(is_automatic(&RecoveryAction::RestartWithDelay(1)));
    assert!(is_automatic(&RecoveryAction::RepairDatabase));
    assert!(is_automatic(&RecoveryAction::ClearCache));
    assert!(!is_automatic(&RecoveryAction::ShowInstallDialog("x".to_string())));
    assert!(!is_automatic(&RecoveryAction::ShowTroubleshootingGuide("x".to_string())));
    assert!(!is_automatic(&RecoveryAction::ContactSupport("x".to_string())));
    assert!(!is_automatic(&RecoveryAction::ResetConfiguration));
    assert!(!is_automatic(&RecoveryAction::NoAction));
}

#[test]
fn driver_skips_manual_actions() {
    let actions = vec![
        RecoveryAction::ShowInstallDialog("url".to_string()),
        RecoveryAction::ShowTroubleshootingGuide("url".to_string()),
        RecoveryAction::RepairDatabase,
        RecoveryAction::ClearCache,
    ];
    assert_eq!(next_automatic_action(&actions, 0), Some(2));
    assert_eq!(next_automatic_action(&actions, 3), Some(3));
    let manual_only = vec![RecoveryAction::NoAction, RecoveryAction::ResetConfiguration];
    assert_eq!(next_automatic_action(&manual_only, 0), None);
}

#[test]
fn artifact_search_takes_first_existing_location() {
    let candidates = vec![
        "frontend/src-tauri/backend/app.jar".to_string(),
        "src-tauri/backend/app.jar".to_string(),
        "resources/backend/app.jar".to_string(),
        "target/debug/backend/app.jar".to_string(),
    ];
    let exists = vec![false, true, true, false];
    assert_eq!(resolve_artifact(&candidates, &exists), Some(1));
    let none = vec![false, false, false, false];
    assert_eq!(resolve_artifact(&candidates, &none), None);
}

#[test]
fn old_runtime_reports_are_refused() {
    assert!(java_version_acceptable("openjdk version \"17.0.2\" 2022-01-18"));
    assert!(!java_version_acceptable("java version \"1.8.0_321\""));
    assert!(!java_version_acceptable("java version \"1.7.0\""));
}

#[test]
fn failure_markers_elevate_child_error_lines() {
    assert!(stderr_line_elevated("2024-01-01 ERROR something broke"));
    assert!(stderr_line_elevated("java.lang.NullPointerException at ..."));
    assert!(stderr_line_elevated("Failed to bind port"));
    assert!(!stderr_line_elevated("INFO started in 3.2s"));
    assert!(!stderr_line_elevated(""));
}

#[test]
fn extended_length_prefix_is_stripped() {
    assert_eq!(normalize_jar_path("\\\\?\\C:\\apps\\backend.jar"), "C:\\apps\\backend.jar");
    assert_eq!(normalize_jar_path("C:\\apps\\backend.jar"), "C:\\apps\\backend.jar");
    assert_eq!(normalize_jar_path("/opt/app.jar"), "/opt/app.jar");
    assert_eq!(normalize_jar_path("ab"), "ab");
}
