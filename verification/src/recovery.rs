//! Error classification and recovery policy: a free-text error is matched
//! against an ordered keyword table and mapped to a category, a severity and
//! an ordered list of candidate recovery actions. Rule order is the tie-break
//! when several keywords co-occur.

use vstd::prelude::*;
use crate::clock::current_timestamp;
use crate::status::ErrorSeverity;
use crate::text::{chars_of, contains_chars, contains_seq};

verus! {

/// A remedial action. Some actions run unattended (automatic), the rest must
/// be surfaced to a human; that split is fixed per kind, see
/// [`spec_is_automatic`].
#[derive(Debug)]
pub enum RecoveryAction {
    ShowInstallDialog(String),
    ExtractFromResources,
    TryAlternatePorts(Vec<u16>),
    RestartWithDelay(u64),
    RepairDatabase,
    ClearCache,
    ResetConfiguration,
    ShowTroubleshootingGuide(String),
    ContactSupport(String),
    NoAction,
}

/// The classification result for one error message.
#[derive(Debug)]
pub struct ErrorRecoveryInfo {
    pub error_type: String,
    pub error_message: String,
    pub user_message: String,
    pub recovery_actions: Vec<RecoveryAction>,
    pub technical_details: Option<String>,
    pub timestamp: String,
    pub severity: ErrorSeverity,
}

/// The categories the keyword table can yield, in rule order.
#[derive(Clone, Copy, PartialEq, Eq, Structural, Debug)]
pub enum ErrorCategory {
    JavaNotFound,
    JarNotFound,
    PortConflict,
    PermissionDenied,
    DatabaseError,
    ConnectionTimeout,
    UnknownError,
}

/// The ordered keyword rules: the first rule whose keywords occur in the
/// message decides the category.
pub open spec fn spec_category(msg: Seq<char>) -> ErrorCategory {
    if contains_seq(msg, "Java Runtime Environment"@) || contains_seq(msg, "java"@) {
        ErrorCategory::JavaNotFound
    } else if contains_seq(msg, "JAR file not found"@) || contains_seq(msg, "jar"@) {
        ErrorCategory::JarNotFound
    } else if contains_seq(msg, "Port"@) && contains_seq(msg, "already in use"@) {
        ErrorCategory::PortConflict
    } else if contains_seq(msg, "Permission denied"@) {
        ErrorCategory::PermissionDenied
    } else if contains_seq(msg, "database"@) || contains_seq(msg, "Database"@) {
        ErrorCategory::DatabaseError
    } else if contains_seq(msg, "timeout"@) || contains_seq(msg, "Timeout"@) {
        ErrorCategory::ConnectionTimeout
    } else {
        ErrorCategory::UnknownError
    }
}

/// Each category's fixed severity: a missing runtime or artifact is
/// critical, permission trouble and an unknown-but-unrecoverable error are
/// high, port and database trouble are medium, and timeouts are transient
/// and low.
pub open spec fn severity_of(cat: ErrorCategory) -> ErrorSeverity {
    match cat {
        ErrorCategory::JavaNotFound => ErrorSeverity::Critical,
        ErrorCategory::JarNotFound => ErrorSeverity::Critical,
        ErrorCategory::PortConflict => ErrorSeverity::Medium,
        ErrorCategory::PermissionDenied => ErrorSeverity::High,
        ErrorCategory::DatabaseError => ErrorSeverity::Medium,
        ErrorCategory::ConnectionTimeout => ErrorSeverity::Low,
        ErrorCategory::UnknownError => ErrorSeverity::High,
    }
}

/// Each category's machine-readable name.
pub open spec fn error_type_of(cat: ErrorCategory) -> Seq<char> {
    match cat {
        ErrorCategory::JavaNotFound => "java_not_found"@,
        ErrorCategory::JarNotFound => "jar_not_found"@,
        ErrorCategory::PortConflict => "port_conflict"@,
        ErrorCategory::PermissionDenied => "permission_denied"@,
        ErrorCategory::DatabaseError => "database_error"@,
        ErrorCategory::ConnectionTimeout => "connection_timeout"@,
        ErrorCategory::UnknownError => "unknown_error"@,
    }
}

/// Each category's human-readable summary.
pub open spec fn user_message_of(cat: ErrorCategory) -> Seq<char> {
    match cat {
        ErrorCategory::JavaNotFound => "Java is required to run this application. Please install Java 17 or higher."@,
        ErrorCategory::JarNotFound => "Application files are missing or corrupted. The application will attempt to repair itself."@,
        ErrorCategory::PortConflict => "Another application is using the required network port. The application will try alternative ports."@,
        ErrorCategory::PermissionDenied => "The application doesn't have the necessary permissions. Please run as administrator or check file permissions."@,
        ErrorCategory::DatabaseError => "Database connection failed. The application will attempt to repair the database."@,
        ErrorCategory::ConnectionTimeout => "Connection timeout occurred. The application will retry automatically."@,
        ErrorCategory::UnknownError => "An unexpected error occurred. Please try restarting the application."@,
    }
}

/// Each category's fixed, ordered action list.
pub open spec fn actions_for(cat: ErrorCategory, a: Seq<RecoveryAction>) -> bool {
    match cat {
        ErrorCategory::JavaNotFound => {
            &&& a.len() == 2
            &&& a[0] matches RecoveryAction::ShowInstallDialog(u)
                && u@ == "https://adoptium.net/temurin/releases/"@
            &&& a[1] matches RecoveryAction::ShowTroubleshootingGuide(u)
                && u@ == "https://docs.example.com/java-install"@
        },
        ErrorCategory::JarNotFound => {
            &&& a.len() == 3
            &&& a[0] is ExtractFromResources
            &&& a[1] matches RecoveryAction::ShowTroubleshootingGuide(u)
                && u@ == "https://docs.example.com/reinstall"@
            &&& a[2] matches RecoveryAction::ContactSupport(u) && u@ == "support@example.com"@
        },
        ErrorCategory::PortConflict => {
            &&& a.len() == 2
            &&& a[0] matches RecoveryAction::TryAlternatePorts(ps)
                && ps@ =~= seq![8083u16, 8084u16, 8085u16, 8086u16]
            &&& a[1] matches RecoveryAction::ShowTroubleshootingGuide(u)
                && u@ == "https://docs.example.com/port-conflicts"@
        },
        ErrorCategory::PermissionDenied => {
            &&& a.len() == 2
            &&& a[0] matches RecoveryAction::ShowTroubleshootingGuide(u)
                && u@ == "https://docs.example.com/permissions"@
            &&& a[1] matches RecoveryAction::ContactSupport(u) && u@ == "support@example.com"@
        },
        ErrorCategory::DatabaseError => {
            &&& a.len() == 3
            &&& a[0] is RepairDatabase
            &&& a[1] is ClearCache
            &&& a[2] matches RecoveryAction::ShowTroubleshootingGuide(u)
                && u@ == "https://docs.example.com/database-issues"@
        },
        ErrorCategory::ConnectionTimeout => {
            &&& a.len() == 2
            &&& a[0] matches RecoveryAction::RestartWithDelay(d) && d == 3
            &&& a[1] matches RecoveryAction::ShowTroubleshootingGuide(u)
                && u@ == "https://docs.example.com/connection-issues"@
        },
        ErrorCategory::UnknownError => {
            &&& a.len() == 3
            &&& a[0] matches RecoveryAction::RestartWithDelay(d) && d == 5
            &&& a[1] matches RecoveryAction::ShowTroubleshootingGuide(u)
                && u@ == "https://docs.example.com/general-troubleshooting"@
            &&& a[2] matches RecoveryAction::ContactSupport(u) && u@ == "support@example.com"@
        },
    }
}

/// The category of one error message, by the ordered keyword rules.
pub fn classify_category(error: &str) -> (c: ErrorCategory)
    ensures
        c == spec_category(error@),
{
    let t = chars_of(error);
    if contains_chars(&t, &chars_of("Java Runtime Environment")) || contains_chars(
        &t,
        &chars_of("java"),
    ) {
        ErrorCategory::JavaNotFound
    } else if contains_chars(&t, &chars_of("JAR file not found")) || contains_chars(
        &t,
        &chars_of("jar"),
    ) {
        ErrorCategory::JarNotFound
    } else if contains_chars(&t, &chars_of("Port")) && contains_chars(
        &t,
        &chars_of("already in use"),
    ) {
        ErrorCategory::PortConflict
    } else if contains_chars(&t, &chars_of("Permission denied")) {
        ErrorCategory::PermissionDenied
    } else if contains_chars(&t, &chars_of("database")) || contains_chars(
        &t,
        &chars_of("Database"),
    ) {
        ErrorCategory::DatabaseError
    } else if contains_chars(&t, &chars_of("timeout")) || contains_chars(
        &t,
        &chars_of("Timeout"),
    ) {
        ErrorCategory::ConnectionTimeout
    } else {
        ErrorCategory::UnknownError
    }
}

/// Builds the fixed action list of one category.
fn actions_of(cat: ErrorCategory) -> (a: Vec<RecoveryAction>)
    ensures
        actions_for(cat, a@),
{
    let mut a: Vec<RecoveryAction> = Vec::new();
    match cat {
        ErrorCategory::JavaNotFound => {
            a.push(
                RecoveryAction::ShowInstallDialog(
                    String::from_str("https://adoptium.net/temurin/releases/"),
                ),
            );
            a.push(
                RecoveryAction::ShowTroubleshootingGuide(
                    String::from_str("https://docs.example.com/java-install"),
                ),
            );
        },
        ErrorCategory::JarNotFound => {
            a.push(RecoveryAction::ExtractFromResources);
            a.push(
                RecoveryAction::ShowTroubleshootingGuide(
                    String::from_str("https://docs.example.com/reinstall"),
                ),
            );
            a.push(RecoveryAction::ContactSupport(String::from_str("support@example.com")));
        },
        ErrorCategory::PortConflict => {
            let mut ports: Vec<u16> = Vec::new();
            ports.push(8083);
            ports.push(8084);
            ports.push(8085);
            ports.push(8086);
            assert(ports@ =~= seq![8083u16, 8084u16, 8085u16, 8086u16]);
            a.push(RecoveryAction::TryAlternatePorts(ports));
            a.push(
                RecoveryAction::ShowTroubleshootingGuide(
                    String::from_str("https://docs.example.com/port-conflicts"),
                ),
            );
        },
        ErrorCategory::PermissionDenied => {
            a.push(
                RecoveryAction::ShowTroubleshootingGuide(
                    String::from_str("https://docs.example.com/permissions"),
                ),
            );
            a.push(RecoveryAction::ContactSupport(String::from_str("support@example.com")));
        },
        ErrorCategory::DatabaseError => {
            a.push(RecoveryAction::RepairDatabase);
            a.push(RecoveryAction::ClearCache);
            a.push(
                RecoveryAction::ShowTroubleshootingGuide(
                    String::from_str("https://docs.example.com/database-issues"),
                ),
            );
        },
        ErrorCategory::ConnectionTimeout => {
            a.push(RecoveryAction::RestartWithDelay(3));
            a.push(
                RecoveryAction::ShowTroubleshootingGuide(
                    String::from_str("https://docs.example.com/connection-issues"),
                ),
            );
        },
        ErrorCategory::UnknownError => {
            a.push(RecoveryAction::RestartWithDelay(5));
            a.push(
                RecoveryAction::ShowTroubleshootingGuide(
                    String::from_str("https://docs.example.com/general-troubleshooting"),
                ),
            );
            a.push(RecoveryAction::ContactSupport(String::from_str("support@example.com")));
        },
    }
    a
}

/// Builds the fixed name of one category.
fn error_type_name(cat: ErrorCategory) -> (r: String)
    ensures
        r@ == error_type_of(cat),
{
    match cat {
        ErrorCategory::JavaNotFound => String::from_str("java_not_found"),
        ErrorCategory::JarNotFound => String::from_str("jar_not_found"),
        ErrorCategory::PortConflict => String::from_str("port_conflict"),
        ErrorCategory::PermissionDenied => String::from_str("permission_denied"),
        ErrorCategory::DatabaseError => String::from_str("database_error"),
        ErrorCategory::ConnectionTimeout => String::from_str("connection_timeout"),
        ErrorCategory::UnknownError => String::from_str("unknown_error"),
    }
}

/// Builds the fixed summary of one category.
fn user_message(cat: ErrorCategory) -> (r: String)
    ensures
        r@ == user_message_of(cat),
{
    match cat {
        ErrorCategory::JavaNotFound => String::from_str(
            "Java is required to run this application. Please install Java 17 or higher.",
        ),
        ErrorCategory::JarNotFound => String::from_str(
            "Application files are missing or corrupted. The application will attempt to repair itself.",
        ),
        ErrorCategory::PortConflict => String::from_str(
            "Another application is using the required network port. The application will try alternative ports.",
        ),
        ErrorCategory::PermissionDenied => String::from_str(
            "The application doesn't have the necessary permissions. Please run as administrator or check file permissions.",
        ),
        ErrorCategory::DatabaseError => String::from_str(
            "Database connection failed. The application will attempt to repair the database.",
        ),
        ErrorCategory::ConnectionTimeout => String::from_str(
            "Connection timeout occurred. The application will retry automatically.",
        ),
        ErrorCategory::UnknownError => String::from_str(
            "An unexpected error occurred. Please try restarting the application.",
        ),
    }
}

/// Builds the fixed severity of one category.
fn severity(cat: ErrorCategory) -> (r: ErrorSeverity)
    ensures
        r == severity_of(cat),
{
    match cat {
        ErrorCategory::JavaNotFound => ErrorSeverity::Critical,
        ErrorCategory::JarNotFound => ErrorSeverity::Critical,
        ErrorCategory::PortConflict => ErrorSeverity::Medium,
        ErrorCategory::PermissionDenied => ErrorSeverity::High,
        ErrorCategory::DatabaseError => ErrorSeverity::Medium,
        ErrorCategory::ConnectionTimeout => ErrorSeverity::Low,
        ErrorCategory::UnknownError => ErrorSeverity::High,
    }
}

/// The recovery engine: retry policy, fallback ports, and the default action
/// per category name.
#[derive(Debug)]
pub struct ErrorRecoverySystem {
    pub max_retry_attempts: u32,
    pub retry_delays: Vec<u64>,
    pub fallback_ports: Vec<u16>,
    pub recovery_strategies: Vec<(String, RecoveryAction)>,
}

impl ErrorRecoverySystem {
    /// The default engine: up to 3 retries with delays of 1, 3, 5 and 10
    /// seconds, fallback ports 8083 through 8087, and one default action per
    /// category name.
    pub fn new() -> (r: ErrorRecoverySystem)
        ensures
            r.max_retry_attempts == 3,
            r.retry_delays@ =~= seq![1u64, 3u64, 5u64, 10u64],
            r.fallback_ports@ =~= seq![8083u16, 8084u16, 8085u16, 8086u16, 8087u16],
            r.recovery_strategies@.len() == 6,
            r.recovery_strategies@[0].0@ == "java_not_found"@,
            r.recovery_strategies@[0].1 matches RecoveryAction::ShowInstallDialog(u)
                && u@ == "https://adoptium.net/temurin/releases/"@,
            r.recovery_strategies@[1].0@ == "jar_not_found"@,
            r.recovery_strategies@[1].1 is ExtractFromResources,
            r.recovery_strategies@[2].0@ == "port_conflict"@,
            r.recovery_strategies@[2].1 matches RecoveryAction::TryAlternatePorts(ps)
                && ps@ =~= seq![8083u16, 8084u16, 8085u16, 8086u16],
            r.recovery_strategies@[3].0@ == "process_crash"@,
            r.recovery_strategies@[3].1 matches RecoveryAction::RestartWithDelay(d) && d == 5,
            r.recovery_strategies@[4].0@ == "database_error"@,
            r.recovery_strategies@[4].1 is RepairDatabase,
            r.recovery_strategies@[5].0@ == "permission_denied"@,
            r.recovery_strategies@[5].1 matches RecoveryAction::ShowTroubleshootingGuide(u)
                && u@ == "https://docs.example.com/troubleshooting/permissions"@,
    {
        let mut retry_delays: Vec<u64> = Vec::new();
        retry_delays.push(1);
        retry_delays.push(3);
        retry_delays.push(5);
        retry_delays.push(10);
        let mut fallback_ports: Vec<u16> = Vec::new();
        fallback_ports.push(8083);
        fallback_ports.push(8084);
        fallback_ports.push(8085);
        fallback_ports.push(8086);
        fallback_ports.push(8087);
        let mut strategies: Vec<(String, RecoveryAction)> = Vec::new();
        strategies.push(
            (
                String::from_str("java_not_found"),
                RecoveryAction::ShowInstallDialog(
                    String::from_str("https://adoptium.net/temurin/releases/"),
                ),
            ),
        );
        strategies.push(
            (String::from_str("jar_not_found"), RecoveryAction::ExtractFromResources),
        );
        let mut alternate_ports: Vec<u16> = Vec::new();
        alternate_ports.push(8083);
        alternate_ports.push(8084);
        alternate_ports.push(8085);
        alternate_ports.push(8086);
        assert(alternate_ports@ =~= seq![8083u16, 8084u16, 8085u16, 8086u16]);
        strategies.push(
            (String::from_str("port_conflict"), RecoveryAction::TryAlternatePorts(alternate_ports)),
        );
        strategies.push(
            (String::from_str("process_crash"), RecoveryAction::RestartWithDelay(5)),
        );
        strategies.push(
            (String::from_str("database_error"), RecoveryAction::RepairDatabase),
        );
        strategies.push(
            (
                String::from_str("permission_denied"),
                RecoveryAction::ShowTroubleshootingGuide(
                    String::from_str("https://docs.example.com/troubleshooting/permissions"),
                ),
            ),
        );
        assert(retry_delays@ =~= seq![1u64, 3u64, 5u64, 10u64]);
        assert(fallback_ports@ =~= seq![8083u16, 8084u16, 8085u16, 8086u16, 8087u16]);
        ErrorRecoverySystem {
            max_retry_attempts: 3,
            retry_delays,
            fallback_ports,
            recovery_strategies: strategies,
        }
    }

    /// Classifies one free-text error: the first keyword rule that matches
    /// decides the category, and with it the severity, the summary and the
    /// ordered action list. The original message is kept both verbatim and as
    /// the technical detail.
    pub fn analyze_error(&self, error: &str) -> (r: ErrorRecoveryInfo)
        ensures
            r.error_type@ == error_type_of(spec_category(error@)),
            r.error_message@ == error@,
            r.user_message@ == user_message_of(spec_category(error@)),
            actions_for(spec_category(error@), r.recovery_actions@),
            r.technical_details matches Some(t) && t@ == error@,
            r.timestamp@.len() > 0,
            r.severity == severity_of(spec_category(error@)),
    {
        let cat = classify_category(error);
        ErrorRecoveryInfo {
            error_type: error_type_name(cat),
            error_message: String::from_str(error),
            user_message: user_message(cat),
            recovery_actions: actions_of(cat),
            technical_details: Some(String::from_str(error)),
            timestamp: current_timestamp(),
            severity: severity(cat),
        }
    }
}

/// Whether the engine may run an action unattended. The split is fixed per
/// action kind: restarts, port fallback, database repair, cache clearing and
/// artifact re-resolution are automatic; everything else must be surfaced to
/// a human.
pub open spec fn spec_is_automatic(a: RecoveryAction) -> bool {
    ||| a is ExtractFromResources
    ||| a is TryAlternatePorts
    ||| a is RestartWithDelay
    ||| a is RepairDatabase
    ||| a is ClearCache
}

/// Whether the engine may run `a` unattended.
pub fn is_automatic(a: &RecoveryAction) -> (r: bool)
    ensures
        r == spec_is_automatic(*a),
{
    match a {
        RecoveryAction::ExtractFromResources => true,
        RecoveryAction::TryAlternatePorts(_) => true,
        RecoveryAction::RestartWithDelay(_) => true,
        RecoveryAction::RepairDatabase => true,
        RecoveryAction::ClearCache => true,
        _ => false,
    }
}

/// The next action the unattended driver may run: the first automatic action
/// at or after `start`, manual actions skipped.
pub fn next_automatic_action(actions: &Vec<RecoveryAction>, start: usize) -> (r: Option<usize>)
    ensures
        match r {
            Some(i) => {
                &&& start <= i < actions@.len()
                &&& spec_is_automatic(actions@[i as int])
                &&& forall|k: int| start <= k < i ==> !spec_is_automatic(actions@[k])
            },
            None => forall|k: int|
                start <= k < actions@.len() ==> !spec_is_automatic(actions@[k]),
        },
{
    let n = actions.len();
    let mut i: usize = start;
    while i < n
        invariant
            start <= i,
            n == actions@.len(),
            forall|k: int| start <= k < i ==> !spec_is_automatic(actions@[k]),
        decreases n - i,
    {
        if is_automatic(&actions[i]) {
            return Some(i);
        }
        i = i + 1;
    }
    None
}

/// What repairing the database amounts to: the suspect file is copied to a
/// quarantine location and then removed, so that a fresh one is created on
/// the next start. There is no in-place repair.
#[derive(Clone, Copy, PartialEq, Eq, Structural, Debug)]
pub enum RepairPlan {
    QuarantineThenDelete,
    NothingToRepair,
}

/// The repair plan for a database file that does or does not exist.
pub fn repair_database_plan(db_exists: bool) -> (r: RepairPlan)
    ensures
        r == (if db_exists {
            RepairPlan::QuarantineThenDelete
        } else {
            RepairPlan::NothingToRepair
        }),
{
    if db_exists {
        RepairPlan::QuarantineThenDelete
    } else {
        RepairPlan::NothingToRepair
    }
}

/// The first free port at or after `start` in the fallback list, given one
/// probe result per candidate: ports are scanned in order and occupied ones
/// are passed over.
pub fn first_free_port(ports: &Vec<u16>, in_use: &Vec<bool>, start: usize) -> (r: Option<usize>)
    requires
        in_use@.len() == ports@.len(),
    ensures
        match r {
            Some(i) => {
                &&& start <= i < ports@.len()
                &&& !in_use@[i as int]
                &&& forall|k: int| start <= k < i ==> in_use@[k]
            },
            None => forall|k: int| start <= k < ports@.len() ==> in_use@[k],
        },
{
    let n = ports.len();
    let mut i: usize = start;
    while i < n
        invariant
            start <= i,
            n == ports@.len(),
            in_use@.len() == ports@.len(),
            forall|k: int| start <= k < i ==> in_use@[k],
        decreases n - i,
    {
        if !in_use[i] {
            return Some(i);
        }
        i = i + 1;
    }
    None
}

} // verus!
