use backend_supervisor::recovery::{
    classify_category, ErrorCategory, ErrorRecoverySystem, RecoveryAction,
};
use backend_supervisor::status::ErrorSeverity;

#[test]
fn missing_runtime_is_critical_with_install_dialog_first() {
    let system = ErrorRecoverySystem::new();
    let info = system.analyze_error("Java Runtime Environment not found");
    assert_eq!(info.error_type, "java_not_found");
    assert!(matches!(info.severity, ErrorSeverity::Critical));
    assert!(matches!(
        &info.recovery_actions[0],
        RecoveryAction::ShowInstallDialog(url) if url == "https://adoptium.net/temurin/releases/"
    ));
    assert_eq!(info.error_message, "Java Runtime Environment not found");
    assert_eq!(info.technical_details.as_deref(), Some("Java Runtime Environment not found"));
    assert!(!info.timestamp.is_empty());
}

#[test]
fn port_conflict_is_medium_with_alternate_ports() {
    let system = ErrorRecoverySystem::new();
    let info = system.analyze_error("Port 8082 already in use");
    assert_eq!(info.error_type, "port_conflict");
    assert!(matches!(info.severity, ErrorSeverity::Medium));
    let has_alternates = info.recovery_actions.iter().any(|a| {
        matches!(a, RecoveryAction::TryAlternatePorts(ports) if ports == &vec![8083, 8084, 8085, 8086])
    });
    assert!(has_alternates);
}

#[test]
fn categories_follow_rule_order() {
    assert_eq!(classify_category("no java here"), ErrorCategory::JavaNotFound);
    assert_eq!(classify_category("JAR file not found anywhere"), ErrorCategory::JarNotFound);
    assert_eq!(
        classify_category("Port 9000 is already in use by another app"),
        ErrorCategory::PortConflict
    );
    assert_eq!(classify_category("Permission denied: /opt"), ErrorCategory::PermissionDenied);
    assert_eq!(classify_category("the database is corrupt"), ErrorCategory::DatabaseError);
    assert_eq!(classify_category("Database gone"), ErrorCategory::DatabaseError);
    assert_eq!(classify_category("connect timeout"), ErrorCategory::ConnectionTimeout);
    assert_eq!(classify_category("Timeout while waiting"), ErrorCategory::ConnectionTimeout);
    assert_eq!(classify_category("something odd happened"), ErrorCategory::UnknownError);
}

#[test]
fn co_occurring_keywords_resolve_by_table_order() {
    // Both "timeout" and "database" occur; the database rule stands earlier
    // in the table and wins.
    assert_eq!(
        classify_category("timeout while talking to the database"),
        ErrorCategory::DatabaseError
    );
    // "jar" occurs, but the runtime rule is checked first.
    assert_eq!(classify_category("java cannot open jar"), ErrorCategory::JavaNotFound);
}

#[test]
fn jar_category_actions_and_severity() {
    let system = ErrorRecoverySystem::new();
    let info = system.analyze_error("Backend JAR file not found: /tmp/app.jar");
    assert_eq!(info.error_type, "jar_not_found");
    assert!(matches!(info.severity, ErrorSeverity::Critical));
    assert_eq!(info.recovery_actions.len(), 3);
    assert!(matches!(info.recovery_actions[0], RecoveryAction::ExtractFromResources));
    assert!(matches!(
        &info.recovery_actions[2],
        RecoveryAction::ContactSupport(addr) if addr == "support@example.com"
    ));
}

#[test]
fn timeout_category_restarts_after_three_seconds() {
    let system = ErrorRecoverySystem::new();
    let info = system.analyze_error("Timeout");
    assert_eq!(info.error_type, "connection_timeout");
    assert!(matches!(info.severity, ErrorSeverity::Low));
    assert!(matches!(info.recovery_actions[0], RecoveryAction::RestartWithDelay(3)));
}

#[test]
fn unknown_category_restarts_after_five_seconds() {
    let system = ErrorRecoverySystem::new();
    let info = system.analyze_error("weird");
    assert_eq!(info.error_type, "unknown_error");
    assert!(matches!(info.severity, ErrorSeverity::High));
    assert_eq!(info.recovery_actions.len(), 3);
    assert!(matches!(info.recovery_actions[0], RecoveryAction::RestartWithDelay(5)));
    assert_eq!(
        info.user_message,
        "An unexpected error occurred. Please try restarting the application."
    );
}

#[test]
fn permission_category_is_manual_only() {
    let system = ErrorRecoverySystem::new();
    let info = system.analyze_error("Permission denied");
    assert_eq!(info.error_type, "permission_denied");
    assert!(matches!(info.severity, ErrorSeverity::High));
    for action in &info.recovery_actions {
        assert!(!backend_supervisor::recovery::is_automatic(action));
    }
}

#[test]
fn empty_message_is_unknown() {
    assert_eq!(classify_category(""), ErrorCategory::UnknownError);
}

#[test]
fn default_engine_tables() {
    let system = ErrorRecoverySystem::new();
    assert_eq!(system.max_retry_attempts, 3);
    assert_eq!(system.retry_delays, vec![1, 3, 5, 10]);
    assert_eq!(system.fallback_ports, vec![8083, 8084, 8085, 8086, 8087]);
    assert_eq!(system.recovery_strategies.len(), 6);
    assert_eq!(system.recovery_strategies[0].0, "java_not_found");
    assert_eq!(system.recovery_strategies[3].0, "process_crash");
    assert!(matches!(system.recovery_strategies[3].1, RecoveryAction::RestartWithDelay(5)));
}
