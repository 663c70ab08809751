//! Snapshots for the command surface and the diagnostics collector: what
//! the supervisor knows, assembled from the shared state and the last probe.

use vstd::prelude::*;
use crate::status::{
    spec_describe_error,
    spec_status_name,
    BackendStatus,
    DatabaseStatus,
    DetailedHealthStatus,
    HealthCheckError,
    HealthResponse,
};
use crate::supervisor::ProcessHandle;

verus! {

/// The host, as the diagnostics collector reports it.
#[derive(Debug)]
pub struct SystemInfo {
    pub os: String,
    pub arch: String,
    pub java_version: Option<String>,
    pub available_memory: u64,
    pub disk_space: u64,
    pub network_connectivity: bool,
}

/// The application itself, as the diagnostics collector reports it.
#[derive(Debug)]
pub struct ApplicationInfo {
    pub version: String,
    pub build_date: String,
    pub data_directory: String,
    pub log_directory: String,
    pub uptime_seconds: u64,
    pub session_id: String,
}

/// The supervised child, as the diagnostics collector reports it.
#[derive(Debug)]
pub struct BackendInfo {
    pub status: String,
    pub port: u16,
    pub process_id: Option<u32>,
    pub uptime_seconds: Option<u64>,
    pub restart_count: u32,
    pub last_health_check: String,
    pub database_status: Option<DatabaseStatus>,
}

/// How long a child started at `started_at` has been up at `now`, zero if
/// the clock reads earlier than the start.
pub open spec fn spec_uptime(started_at: u64, now: u64) -> u64 {
    if now >= started_at {
        (now - started_at) as u64
    } else {
        0u64
    }
}

/// Assembles the detailed health snapshot: the current status, the child's
/// identity and uptime if one is registered, and either the database
/// sub-status of a successful probe or the rendering of a failed one.
pub fn build_detailed_status(
    status: BackendStatus,
    handle: &Option<ProcessHandle>,
    probe: Result<HealthResponse, HealthCheckError>,
    now: u64,
    last_check: String,
) -> (r: DetailedHealthStatus)
    ensures
        r.backend_status == status,
        r.last_check == last_check,
        (match handle {
            Some(h) => {
                &&& r.process_id == Some(h.pid)
                &&& r.uptime_seconds == Some(spec_uptime(h.started_at, now))
                &&& r.consecutive_failures == h.consecutive_failures
            },
            None => r.process_id is None && r.uptime_seconds is None && r.consecutive_failures
                == 0,
        }),
        (match probe {
            Ok(h) => r.database_status == Some(h.database) && r.error_details is None,
            Err(e) => r.database_status is None && (r.error_details matches Some(d) && d@
                == spec_describe_error(e)),
        }),
{
    let (process_id, uptime_seconds, consecutive_failures): (Option<u32>, Option<u64>, u32) =
        match handle {
        Some(h) => {
            let up = if now >= h.started_at {
                now - h.started_at
            } else {
                0
            };
            (Some(h.pid), Some(up), h.consecutive_failures)
        },
        None => (None, None, 0),
    };
    let (database_status, error_details): (Option<DatabaseStatus>, Option<String>) = match probe {
        Ok(h) => (Some(h.database), None),
        Err(e) => (None, Some(e.describe())),
    };
    DetailedHealthStatus {
        backend_status: status,
        last_check,
        consecutive_failures,
        uptime_seconds,
        process_id,
        database_status,
        error_details,
    }
}

/// Assembles the child's diagnostics entry: named status, port, identity
/// and uptime of the registered child if any.
pub fn build_backend_info(
    status: &BackendStatus,
    port: u16,
    handle: &Option<ProcessHandle>,
    now: u64,
    last_health_check: String,
) -> (r: BackendInfo)
    ensures
        r.status@ == spec_status_name(*status),
        r.port == port,
        (match handle {
            Some(h) => r.process_id == Some(h.pid) && r.uptime_seconds == Some(
                spec_uptime(h.started_at, now),
            ),
            None => r.process_id is None && r.uptime_seconds is None,
        }),
        r.restart_count == 0,
        r.last_health_check == last_health_check,
        r.database_status is None,
{
    let (process_id, uptime_seconds): (Option<u32>, Option<u64>) = match handle {
        Some(h) => {
            let up = if now >= h.started_at {
                now - h.started_at
            } else {
                0
            };
            (Some(h.pid), Some(up))
        },
        None => (None, None),
    };
    BackendInfo {
        status: status.status_name(),
        port,
        process_id,
        uptime_seconds,
        restart_count: 0,
        last_health_check,
        database_status: None,
    }
}

} // verus!
