//! The process supervisor: launch prerequisites, the single child handle,
//! and the stop and restart discipline. The supervisor owns at most one
//! handle at a time; a restart always stops the old child before a new one
//! is registered.
//!
//! Spawning, killing and port probing are operating-system work done by the
//! caller; the caller feeds their outcomes in as plain values and registers
//! the child it spawned.

use vstd::prelude::*;
use crate::text::{chars_of, contains_chars, contains_seq, spec_digits, u32_to_string};

verus! {

/// The immutable configuration of one launch.
#[derive(Debug)]
pub struct BackendConfig {
    pub jar_path: String,
    pub java_path: String,
    pub data_dir: String,
    pub port: u16,
    /// Seconds the startup phase may take before it is given up.
    pub startup_timeout: u64,
    /// Seconds between two steady-state probes.
    pub health_check_interval: u64,
    pub max_restart_attempts: u32,
}

impl Clone for BackendConfig {
    fn clone(&self) -> (r: Self)
        ensures
            r == *self,
    {
        BackendConfig {
            jar_path: self.jar_path.clone(),
            java_path: self.java_path.clone(),
            data_dir: self.data_dir.clone(),
            port: self.port,
            startup_timeout: self.startup_timeout,
            health_check_interval: self.health_check_interval,
            max_restart_attempts: self.max_restart_attempts,
        }
    }
}

/// The default configuration around resolved runtime, artifact and data
/// locations: port 8082, a 60 second startup deadline, a 10 second probe
/// interval, and at most 3 restart attempts.
pub fn create_backend_config(java_path: String, jar_path: String, data_dir: String) -> (c:
    BackendConfig)
    ensures
        c == (BackendConfig {
            jar_path,
            java_path,
            data_dir,
            port: 8082u16,
            startup_timeout: 60u64,
            health_check_interval: 10u64,
            max_restart_attempts: 3u32,
        }),
{
    BackendConfig {
        jar_path,
        java_path,
        data_dir,
        port: 8082,
        startup_timeout: 60,
        health_check_interval: 10,
        max_restart_attempts: 3,
    }
}

/// Replaces the target port, leaving every other setting as it was; the
/// port-fallback recovery rewrites the configuration through this.
pub fn set_port(config: &mut BackendConfig, port: u16)
    ensures
        final(config).port == port,
        final(config).jar_path == old(config).jar_path,
        final(config).java_path == old(config).java_path,
        final(config).data_dir == old(config).data_dir,
        final(config).startup_timeout == old(config).startup_timeout,
        final(config).health_check_interval == old(config).health_check_interval,
        final(config).max_restart_attempts == old(config).max_restart_attempts,
{
    config.port = port;
}

/// One live child: its process id, when it started, and its counters.
#[derive(Clone, Copy, PartialEq, Eq, Structural, Debug)]
pub struct ProcessHandle {
    pub pid: u32,
    pub started_at: u64,
    pub last_health_check: u64,
    pub consecutive_failures: u32,
    pub restart_attempts: u32,
}

impl ProcessHandle {
    /// A fresh handle for a child spawned now.
    pub fn new(pid: u32, now: u64) -> (h: ProcessHandle)
        ensures
            h == (ProcessHandle {
                pid,
                started_at: now,
                last_health_check: now,
                consecutive_failures: 0u32,
                restart_attempts: 0u32,
            }),
    {
        ProcessHandle { pid, started_at: now, last_health_check: now, consecutive_failures: 0, restart_attempts: 0 }
    }
}

/// Why a launch was refused.
#[derive(Debug)]
pub enum LaunchError {
    /// The server artifact is not at the configured path; carries that path.
    JarNotFound(String),
    /// The target port is already bound; carries that port.
    PortInUse(u16),
}

impl LaunchError {
    /// The human-readable refusal, as the command surface reports it.
    pub fn message(&self) -> (r: String)
        ensures
            (match *self {
                LaunchError::JarNotFound(p) => r@ == "Backend JAR file not found: "@ + p@,
                LaunchError::PortInUse(port) => r@ == "Port "@ + spec_digits(port as nat)
                    + " is already in use. Please close any other applications using this port."@,
            }),
    {
        match self {
            LaunchError::JarNotFound(p) => String::from_str("Backend JAR file not found: ").concat(
                p.as_str(),
            ),
            LaunchError::PortInUse(port) => {
                let digits = u32_to_string(*port as u32);
                String::from_str("Port ").concat(digits.as_str()).concat(
                    " is already in use. Please close any other applications using this port.",
                )
            },
        }
    }
}

/// A path with a Windows extended-length prefix, with that prefix removed;
/// any other path unchanged.
pub open spec fn spec_strip_unc(s: Seq<char>) -> Seq<char> {
    if s.len() >= 4 && s.subrange(0, 4) == "\\\\?\\"@ {
        s.subrange(4, s.len() as int)
    } else {
        s
    }
}

/// Strips the Windows extended-length prefix from a path, so that the child
/// is handed a plain path.
pub fn normalize_jar_path(s: &str) -> (r: String)
    ensures
        r@ == spec_strip_unc(s@),
{
    proof {
        reveal_strlit("\\\\?\\");
    }
    let n = s.unicode_len();
    if n >= 4 {
        let prefixed = s.get_char(0) == '\\' && s.get_char(1) == '\\' && s.get_char(2) == '?'
            && s.get_char(3) == '\\';
        if prefixed {
            assert(s@.subrange(0, 4) =~= "\\\\?\\"@);
            let rest = s.substring_char(4, n);
            return rest.to_owned();
        }
        assert(s@.subrange(0, 4) != "\\\\?\\"@) by {
            if s@.subrange(0, 4) == "\\\\?\\"@ {
                assert(s@[0] == s@.subrange(0, 4)[0]);
                assert(s@[1] == s@.subrange(0, 4)[1]);
                assert(s@[2] == s@.subrange(0, 4)[2]);
                assert(s@[3] == s@.subrange(0, 4)[3]);
            }
        }
        return s.to_owned();
    }
    s.to_owned()
}

/// What the caller must run to start the child: the runtime, the normalized
/// artifact path, the working directory, and the loopback port to bind.
pub struct LaunchCommand {
    pub java_path: String,
    pub jar_path: String,
    pub working_dir: String,
    pub port: u16,
}

/// Validates the launch prerequisites in order — artifact present, then
/// target port free — and either refuses with the matching error or hands
/// back the command to run. A refusal means nothing is to be spawned.
pub fn prepare_launch(config: &BackendConfig, jar_exists: bool, port_in_use: bool) -> (r: Result<
    LaunchCommand,
    LaunchError,
>)
    ensures
        r is Ok <==> (jar_exists && !port_in_use),
        !jar_exists ==> (r matches Err(LaunchError::JarNotFound(p)) && p@ == config.jar_path@),
        jar_exists && port_in_use ==> r == Err::<LaunchCommand, LaunchError>(
            LaunchError::PortInUse(config.port),
        ),
        r matches Ok(cmd) ==> {
            &&& cmd.java_path@ == config.java_path@
            &&& cmd.jar_path@ == spec_strip_unc(config.jar_path@)
            &&& cmd.working_dir@ == config.data_dir@
            &&& cmd.port == config.port
        },
{
    if !jar_exists {
        return Err(LaunchError::JarNotFound(config.jar_path.clone()));
    }
    if port_in_use {
        return Err(LaunchError::PortInUse(config.port));
    }
    Ok(
        LaunchCommand {
            java_path: config.java_path.clone(),
            jar_path: normalize_jar_path(config.jar_path.as_str()),
            working_dir: config.data_dir.clone(),
            port: config.port,
        },
    )
}

/// The owner of the single child handle.
pub struct ProcessSupervisor {
    pub process: Option<ProcessHandle>,
}

impl ProcessSupervisor {
    /// How many live handles are registered: never more than one, by
    /// construction.
    pub open spec fn live_handles(self) -> nat {
        if self.process is Some {
            1nat
        } else {
            0nat
        }
    }

    /// The supervisor after a stop: no handle registered.
    pub open spec fn spec_stopped(self) -> ProcessSupervisor {
        ProcessSupervisor { process: None }
    }

    /// The supervisor after registering a fresh handle.
    pub open spec fn spec_registered(self, h: ProcessHandle) -> ProcessSupervisor {
        ProcessSupervisor { process: Some(h) }
    }

    /// A supervisor with no child yet.
    pub fn new() -> (s: ProcessSupervisor)
        ensures
            s.process is None,
            s.live_handles() == 0,
    {
        ProcessSupervisor { process: None }
    }

    /// Takes the registered handle, if any, so the caller can terminate that
    /// child and wait on it. Succeeds whether or not a child was registered,
    /// so stopping twice in a row is harmless: the second call returns
    /// `None` and changes nothing further.
    pub fn stop(&mut self) -> (r: Option<ProcessHandle>)
        ensures
            *final(self) == old(self).spec_stopped(),
            final(self).live_handles() == 0,
            r == old(self).process,
    {
        let r = self.process;
        self.process = None;
        r
    }

    /// Registers the child the caller just spawned. The old handle must be
    /// gone first: a restart stops before it registers.
    pub fn register(&mut self, pid: u32, now: u64)
        requires
            old(self).process is None,
        ensures
            *final(self) == old(self).spec_registered(
                ProcessHandle {
                    pid,
                    started_at: now,
                    last_health_check: now,
                    consecutive_failures: 0u32,
                    restart_attempts: 0u32,
                },
            ),
            final(self).live_handles() == 1,
    {
        self.process = Some(ProcessHandle::new(pid, now));
    }
}

/// A restart never holds two live children. A restart is a stop followed by
/// a registration: before it at most one handle is registered, between the
/// two steps none is, and after it exactly one is. `register` requires the
/// stopped state, so no interleaving reaches two.
pub proof fn lemma_restart_single_handle(s: ProcessSupervisor, h: ProcessHandle)
    ensures
        s.live_handles() <= 1,
        s.spec_stopped().live_handles() == 0,
        s.spec_stopped().spec_registered(h).live_handles() == 1,
{
}

/// Whether a runtime version report is acceptable: the launch refuses the
/// old release lines whose reports carry "1.7" or "1.8".
pub fn java_version_acceptable(version_output: &str) -> (r: bool)
    ensures
        r == !(contains_seq(version_output@, "1.8"@) || contains_seq(version_output@, "1.7"@)),
{
    let t = chars_of(version_output);
    let old8 = contains_chars(&t, &chars_of("1.8"));
    let old7 = contains_chars(&t, &chars_of("1.7"));
    !(old8 || old7)
}

/// Whether a line of the child's error stream carries a failure marker and
/// is to be logged at elevated severity.
pub fn stderr_line_elevated(line: &str) -> (r: bool)
    ensures
        r == (contains_seq(line@, "ERROR"@) || contains_seq(line@, "Exception"@) || contains_seq(
            line@,
            "Failed"@,
        )),
{
    let t = chars_of(line);
    let err = contains_chars(&t, &chars_of("ERROR"));
    let exc = contains_chars(&t, &chars_of("Exception"));
    let fail = contains_chars(&t, &chars_of("Failed"));
    err || exc || fail
}

/// The artifact search: candidates are probed in a fixed order and the first
/// location that exists wins.
pub fn resolve_artifact(candidates: &Vec<String>, exists: &Vec<bool>) -> (r: Option<usize>)
    requires
        exists@.len() == candidates@.len(),
    ensures
        match r {
            Some(i) => {
                &&& i < candidates@.len()
                &&& exists@[i as int]
                &&& forall|k: int| 0 <= k < i ==> !exists@[k]
            },
            None => forall|k: int| 0 <= k < candidates@.len() ==> !exists@[k],
        },
{
    let n = candidates.len();
    let mut i: usize = 0;
    while i < n
        invariant
            i <= n,
            n == candidates@.len(),
            exists@.len() == candidates@.len(),
            forall|k: int| 0 <= k < i ==> !exists@[k],
        decreases n - i,
    {
        if exists[i] {
            return Some(i);
        }
        i = i + 1;
    }
    None
}

} // verus!
