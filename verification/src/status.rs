//! The monitor's state machine value, the result of one probe, and the
//! health payloads that probes report.

use vstd::prelude::*;

verus! {

/// The database sub-status that a detailed health payload carries.
#[derive(Debug)]
pub struct DatabaseStatus {
    pub connected: bool,
    pub url: String,
    pub error: Option<String>,
}

/// One successful probe's payload.
#[derive(Debug)]
pub struct HealthResponse {
    pub status: String,
    pub database: DatabaseStatus,
    pub timestamp: String,
    pub uptime: u64,
}

/// The supervised process's observed state. Exactly one value holds at any
/// instant; the monitor and explicit commands are the only mutators.
#[derive(Debug)]
pub enum BackendStatus {
    Starting,
    Healthy,
    Unhealthy(String),
    ProcessDead,
    DatabaseDown,
    RestartRequired,
    ConnectionTimeout,
    PortConflict,
    JavaNotFound,
    JarNotFound,
}

/// The result of one failed probe attempt.
#[derive(Debug)]
pub enum HealthCheckError {
    NetworkError(String),
    TimeoutError,
    InvalidResponse(String),
    ProcessNotRunning,
    DatabaseConnectionFailed(String),
    UnknownError(String),
}

/// How grave a classified error is.
#[derive(Debug)]
pub enum ErrorSeverity {
    Low,
    Medium,
    High,
    Critical,
}

/// A snapshot of the supervised process's health: status, process identity
/// and uptime, database sub-status, and the detail of the last failure.
#[derive(Debug)]
pub struct DetailedHealthStatus {
    pub backend_status: BackendStatus,
    pub last_check: String,
    pub consecutive_failures: u32,
    pub uptime_seconds: Option<u64>,
    pub process_id: Option<u32>,
    pub database_status: Option<DatabaseStatus>,
    pub error_details: Option<String>,
}

impl Clone for DatabaseStatus {
    fn clone(&self) -> (r: Self)
        ensures
            r == *self,
    {
        DatabaseStatus {
            connected: self.connected,
            url: self.url.clone(),
            error: match &self.error {
                Some(e) => Some(e.clone()),
                None => None,
            },
        }
    }
}

impl Clone for HealthResponse {
    fn clone(&self) -> (r: Self)
        ensures
            r == *self,
    {
        HealthResponse {
            status: self.status.clone(),
            database: self.database.clone(),
            timestamp: self.timestamp.clone(),
            uptime: self.uptime,
        }
    }
}

impl Clone for BackendStatus {
    fn clone(&self) -> (r: Self)
        ensures
            r == *self,
    {
        match self {
            BackendStatus::Starting => BackendStatus::Starting,
            BackendStatus::Healthy => BackendStatus::Healthy,
            BackendStatus::Unhealthy(m) => BackendStatus::Unhealthy(m.clone()),
            BackendStatus::ProcessDead => BackendStatus::ProcessDead,
            BackendStatus::DatabaseDown => BackendStatus::DatabaseDown,
            BackendStatus::RestartRequired => BackendStatus::RestartRequired,
            BackendStatus::ConnectionTimeout => BackendStatus::ConnectionTimeout,
            BackendStatus::PortConflict => BackendStatus::PortConflict,
            BackendStatus::JavaNotFound => BackendStatus::JavaNotFound,
            BackendStatus::JarNotFound => BackendStatus::JarNotFound,
        }
    }
}

impl Clone for HealthCheckError {
    fn clone(&self) -> (r: Self)
        ensures
            r == *self,
    {
        match self {
            HealthCheckError::NetworkError(m) => HealthCheckError::NetworkError(m.clone()),
            HealthCheckError::TimeoutError => HealthCheckError::TimeoutError,
            HealthCheckError::InvalidResponse(m) => HealthCheckError::InvalidResponse(m.clone()),
            HealthCheckError::ProcessNotRunning => HealthCheckError::ProcessNotRunning,
            HealthCheckError::DatabaseConnectionFailed(m) => HealthCheckError::DatabaseConnectionFailed(
                m.clone(),
            ),
            HealthCheckError::UnknownError(m) => HealthCheckError::UnknownError(m.clone()),
        }
    }
}

impl Clone for ErrorSeverity {
    fn clone(&self) -> (r: Self)
        ensures
            r == *self,
    {
        match self {
            ErrorSeverity::Low => ErrorSeverity::Low,
            ErrorSeverity::Medium => ErrorSeverity::Medium,
            ErrorSeverity::High => ErrorSeverity::High,
            ErrorSeverity::Critical => ErrorSeverity::Critical,
        }
    }
}

/// The one-line rendering of a probe failure.
pub open spec fn spec_describe_error(e: HealthCheckError) -> Seq<char> {
    match e {
        HealthCheckError::NetworkError(m) => "network error: "@ + m@,
        HealthCheckError::TimeoutError => "timeout"@,
        HealthCheckError::InvalidResponse(m) => "invalid response: "@ + m@,
        HealthCheckError::ProcessNotRunning => "process not running"@,
        HealthCheckError::DatabaseConnectionFailed(m) => "database connection failed: "@ + m@,
        HealthCheckError::UnknownError(m) => "unknown error: "@ + m@,
    }
}

/// The status that one probe failure drives the monitor to: a timeout maps to
/// `ConnectionTimeout`, a missing process to `ProcessDead`, a database failure
/// to `DatabaseDown`, and every other failure to a generic `Unhealthy` that
/// carries the failure's rendering.
pub open spec fn status_matches_error(e: HealthCheckError, s: BackendStatus) -> bool {
    match e {
        HealthCheckError::TimeoutError => s == BackendStatus::ConnectionTimeout,
        HealthCheckError::ProcessNotRunning => s == BackendStatus::ProcessDead,
        HealthCheckError::DatabaseConnectionFailed(_) => s == BackendStatus::DatabaseDown,
        _ => s matches BackendStatus::Unhealthy(m) && m@ == spec_describe_error(e),
    }
}

impl HealthCheckError {
    /// One line that says what went wrong, for status values and diagnostics.
    pub fn describe(&self) -> (r: String)
        ensures
            r@ == spec_describe_error(*self),
    {
        match self {
            HealthCheckError::NetworkError(m) => String::from_str("network error: ").concat(
                m.as_str(),
            ),
            HealthCheckError::TimeoutError => String::from_str("timeout"),
            HealthCheckError::InvalidResponse(m) => String::from_str("invalid response: ").concat(
                m.as_str(),
            ),
            HealthCheckError::ProcessNotRunning => String::from_str("process not running"),
            HealthCheckError::DatabaseConnectionFailed(m) => String::from_str(
                "database connection failed: ",
            ).concat(m.as_str()),
            HealthCheckError::UnknownError(m) => String::from_str("unknown error: ").concat(
                m.as_str(),
            ),
        }
    }
}

/// Maps one probe failure to the status it drives the monitor to.
pub fn status_for_error(e: &HealthCheckError) -> (r: BackendStatus)
    ensures
        status_matches_error(*e, r),
{
    match e {
        HealthCheckError::TimeoutError => BackendStatus::ConnectionTimeout,
        HealthCheckError::ProcessNotRunning => BackendStatus::ProcessDead,
        HealthCheckError::DatabaseConnectionFailed(_) => BackendStatus::DatabaseDown,
        _ => BackendStatus::Unhealthy(e.describe()),
    }
}

/// The short name of each status, as the command surface reports it.
pub open spec fn spec_status_name(s: BackendStatus) -> Seq<char> {
    match s {
        BackendStatus::Starting => "starting"@,
        BackendStatus::Healthy => "healthy"@,
        BackendStatus::Unhealthy(m) => "unhealthy: "@ + m@,
        BackendStatus::ProcessDead => "process_dead"@,
        BackendStatus::DatabaseDown => "database_down"@,
        BackendStatus::RestartRequired => "restart_required"@,
        BackendStatus::ConnectionTimeout => "connection_timeout"@,
        BackendStatus::PortConflict => "port_conflict"@,
        BackendStatus::JavaNotFound => "java_not_found"@,
        BackendStatus::JarNotFound => "jar_not_found"@,
    }
}

impl BackendStatus {
    /// The short name of this status, as the command surface reports it.
    pub fn status_name(&self) -> (r: String)
        ensures
            r@ == spec_status_name(*self),
    {
        match self {
            BackendStatus::Starting => String::from_str("starting"),
            BackendStatus::Healthy => String::from_str("healthy"),
            BackendStatus::Unhealthy(m) => String::from_str("unhealthy: ").concat(m.as_str()),
            BackendStatus::ProcessDead => String::from_str("process_dead"),
            BackendStatus::DatabaseDown => String::from_str("database_down"),
            BackendStatus::RestartRequired => String::from_str("restart_required"),
            BackendStatus::ConnectionTimeout => String::from_str("connection_timeout"),
            BackendStatus::PortConflict => String::from_str("port_conflict"),
            BackendStatus::JavaNotFound => String::from_str("java_not_found"),
            BackendStatus::JarNotFound => String::from_str("jar_not_found"),
        }
    }
}

} // verus!
